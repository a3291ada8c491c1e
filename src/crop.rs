use vstd::prelude::*;
use vstd::arithmetic::div_mod::lemma_fundamental_div_mod;
use crate::raster::{LumaImage, Rect, crop_spec};
use crate::error::ScanError;

verus! {

/// Side margin of the template, as a fraction of the image width (0.066).
pub const MARGIN_X_NUM: u32 = 66;

pub const MARGIN_X_DEN: u32 = 1000;

/// Top and bottom margin of the template, as a fraction of the image height
/// (0.079).
pub const MARGIN_Y_NUM: u32 = 79;

pub const MARGIN_Y_DEN: u32 = 1000;

/// How far the crop reaches below the symmetric one, as a fraction of the
/// vertical margin (0.2); it makes up for the template's registration offset.
pub const OFFSET_NUM: u32 = 2;

pub const OFFSET_DEN: u32 = 10;

/// The fractions that locate the grid of cells inside a scanned template.
#[derive(Clone, Copy, Debug, PartialEq, Eq, Structural)]
pub struct CropConfig {
    pub margin_x_num: u32,
    pub margin_x_den: u32,
    pub margin_y_num: u32,
    pub margin_y_den: u32,
    pub offset_num: u32,
    pub offset_den: u32,
}

impl CropConfig {
    /// Every fraction has a positive denominator.
    pub open spec fn wf(&self) -> bool {
        &&& self.margin_x_den >= 1
        &&& self.margin_y_den >= 1
        &&& self.offset_den >= 1
    }

    /// The calibration of the supported template.
    pub fn template() -> (r: CropConfig)
        ensures
            r.wf(),
            r == template_crop(),
    {
        CropConfig {
            margin_x_num: MARGIN_X_NUM,
            margin_x_den: MARGIN_X_DEN,
            margin_y_num: MARGIN_Y_NUM,
            margin_y_den: MARGIN_Y_DEN,
            offset_num: OFFSET_NUM,
            offset_den: OFFSET_DEN,
        }
    }

    /// Horizontal margin in pixels for an image `width` pixels wide.
    pub open spec fn margin_x(self, width: int) -> int {
        width * self.margin_x_num / self.margin_x_den as int
    }

    /// Vertical margin in pixels for an image `height` pixels high.
    pub open spec fn margin_y(self, height: int) -> int {
        height * self.margin_y_num / self.margin_y_den as int
    }

    /// The extra rows kept below the symmetric crop.
    pub open spec fn offset(self, height: int) -> int {
        self.margin_y(height) * self.offset_num / self.offset_den as int
    }

    pub open spec fn crop_width(self, width: int) -> int {
        width - 2 * self.margin_x(width)
    }

    pub open spec fn crop_height(self, height: int) -> int {
        height - 2 * self.margin_y(height) + self.offset(height)
    }

    /// The crop rectangle lies inside an image of the given size.
    pub open spec fn fits(self, width: int, height: int) -> bool {
        &&& self.crop_width(width) >= 0
        &&& self.crop_height(height) >= 0
        &&& self.margin_x(width) + self.crop_width(width) <= width
        &&& self.margin_y(height) + self.crop_height(height) <= height
    }

    /// The crop rectangle for an image of the given size.
    pub open spec fn rect(self, width: int, height: int) -> Rect {
        Rect {
            x: self.margin_x(width) as u32,
            y: self.margin_y(height) as u32,
            width: self.crop_width(width) as u32,
            height: self.crop_height(height) as u32,
        }
    }
}

pub open spec fn template_crop() -> CropConfig {
    CropConfig {
        margin_x_num: MARGIN_X_NUM,
        margin_x_den: MARGIN_X_DEN,
        margin_y_num: MARGIN_Y_NUM,
        margin_y_den: MARGIN_Y_DEN,
        offset_num: OFFSET_NUM,
        offset_den: OFFSET_DEN,
    }
}

/// The crop rectangle for an image of the given size, or `InvalidGeometry`
/// when it would reach outside the image.
pub fn crop_rect(config: &CropConfig, width: u32, height: u32) -> (r: Result<Rect, ScanError>)
    requires
        config.wf(),
    ensures
        r is Ok <==> config.fits(width as int, height as int),
        r matches Ok(rect) ==> rect == config.rect(width as int, height as int) && rect.within(
            width as int,
            height as int,
        ) && rect.x == config.margin_x(width as int) && rect.y == config.margin_y(height as int)
            && rect.width == config.crop_width(width as int) && rect.height == config.crop_height(
            height as int,
        ),
        r matches Err(e) ==> e == ScanError::InvalidGeometry,
{
    let w = width as u64;
    let h = height as u64;
    assert(w * config.margin_x_num as u64 <= u64::MAX) by (nonlinear_arith)
        requires w <= u32::MAX, config.margin_x_num <= u32::MAX;
    assert(h * config.margin_y_num as u64 <= u64::MAX) by (nonlinear_arith)
        requires h <= u32::MAX, config.margin_y_num <= u32::MAX;
    let mx: u64 = w * config.margin_x_num as u64 / config.margin_x_den as u64;
    let my: u64 = h * config.margin_y_num as u64 / config.margin_y_den as u64;
    if mx > w || 2 * mx > w || my > h {
        return Err(ScanError::InvalidGeometry);
    }
    assert(my * config.offset_num as u64 <= u64::MAX) by (nonlinear_arith)
        requires my <= u32::MAX, config.offset_num <= u32::MAX;
    let off: u64 = my * config.offset_num as u64 / config.offset_den as u64;
    if off > my || 2 * my > h + off {
        return Err(ScanError::InvalidGeometry);
    }
    let cw: u64 = w - 2 * mx;
    let ch: u64 = h + off - 2 * my;
    Ok(Rect { x: mx as u32, y: my as u32, width: cw as u32, height: ch as u32 })
}

/// Cuts the template's printed margin away and returns the region of the grid
/// of cells; `InvalidGeometry` when that region would reach outside the image.
pub fn crop_border(image: &LumaImage, config: &CropConfig) -> (r: Result<LumaImage, ScanError>)
    requires
        image.wf(),
        config.wf(),
    ensures
        r is Ok <==> config.fits(image.width as int, image.height as int),
        r matches Ok(out) ==> out.wf() && out@ == crop_spec(
            image@,
            config.rect(image.width as int, image.height as int),
        ) && out.width == config.crop_width(image.width as int) && out.height
            == config.crop_height(image.height as int),
        r matches Err(e) ==> e == ScanError::InvalidGeometry,
{
    match crop_rect(config, image.width, image.height) {
        Ok(rect) => Ok(image.crop_to(rect)),
        Err(e) => Err(e),
    }
}

/// With the template's calibration the crop always fits, and once both
/// margins are at least one pixel (from 16 pixels of width and 13 of height)
/// the cropped image is strictly narrower and strictly lower than the input.
pub proof fn lemma_template_crop_shrinks(width: u32, height: u32)
    ensures
        template_crop().fits(width as int, height as int),
        width >= 16 ==> template_crop().crop_width(width as int) < width,
        height >= 13 ==> template_crop().crop_height(height as int) < height,
{
    let c = template_crop();
    let w = width as int;
    let h = height as int;
    let mx = c.margin_x(w);
    let my = c.margin_y(h);
    let off = c.offset(h);
    lemma_fundamental_div_mod(w * 66, 1000);
    lemma_fundamental_div_mod(h * 79, 1000);
    lemma_fundamental_div_mod(my * 2, 10);
    assert(mx == (w * 66) / 1000);
    assert(my == (h * 79) / 1000);
    assert(off == (my * 2) / 10);
    assert(0 <= (w * 66) % 1000 < 1000);
    assert(0 <= (h * 79) % 1000 < 1000);
    assert(0 <= (my * 2) % 10 < 10);
    assert(0 <= 2 * mx <= w) by (nonlinear_arith)
        requires w >= 0, w * 66 == 1000 * mx + (w * 66) % 1000, 0 <= (w * 66) % 1000 < 1000;
    assert(0 <= 2 * my <= h) by (nonlinear_arith)
        requires h >= 0, h * 79 == 1000 * my + (h * 79) % 1000, 0 <= (h * 79) % 1000 < 1000;
    assert(0 <= off <= my) by (nonlinear_arith)
        requires my >= 0, my * 2 == 10 * off + (my * 2) % 10, 0 <= (my * 2) % 10 < 10;
    if width >= 16 {
        assert(mx >= 1) by (nonlinear_arith)
            requires w >= 16, w * 66 == 1000 * mx + (w * 66) % 1000, 0 <= (w * 66) % 1000 < 1000;
    }
    if height >= 13 {
        assert(my >= 1) by (nonlinear_arith)
            requires h >= 13, h * 79 == 1000 * my + (h * 79) % 1000, 0 <= (h * 79) % 1000 < 1000;
        assert(off < my) by (nonlinear_arith)
            requires my >= 1, my * 2 == 10 * off + (my * 2) % 10, 0 <= (my * 2) % 10 < 10;
    }
}

} // verus!
