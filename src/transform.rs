use vstd::prelude::*;
use crate::raster::{LumaImage, Raster};

verus! {

/// Weight of the pixel itself in the sharpening kernel.
pub const SHARPEN_CENTER_WEIGHT: i32 = 5;

/// Weight of each of the four orthogonal neighbours in the sharpening kernel.
pub const SHARPEN_EDGE_WEIGHT: i32 = -1;

/// Weight of each of the four diagonal neighbours in the sharpening kernel.
pub const SHARPEN_CORNER_WEIGHT: i32 = 0;

/// Luma given to pixels classified as background (paper).
pub const BACKGROUND: u8 = 255;

/// Luma given to pixels classified as foreground (ink).
pub const FOREGROUND: u8 = 0;

/// `r` turned a quarter turn counter-clockwise: the pixel at `(x, y)` moves to
/// `(y, width - 1 - x)`.
pub open spec fn rotate270_spec(r: Raster) -> Raster {
    Raster::from_fn(r.height, r.width, |x: int, y: int| r.at(r.width - 1 - y, x))
}

/// Portrait rasters are turned a quarter turn counter-clockwise; landscape and
/// square ones are kept as they are.
pub open spec fn normalize_spec(r: Raster) -> Raster {
    if r.height > r.width {
        rotate270_spec(r)
    } else {
        r
    }
}

/// `v` clamped into the range of a luma value.
pub open spec fn clamp_luma(v: int) -> u8 {
    if v < 0 {
        0
    } else if v > 255 {
        255
    } else {
        v as u8
    }
}

/// A coordinate moved by `d` and kept inside `0 .. size`: the border pixels
/// stand in for the ones beyond them.
pub open spec fn clamp_coord(c: int, d: int, size: int) -> int {
    if c + d < 0 {
        0
    } else if c + d >= size {
        size - 1
    } else {
        c + d
    }
}

/// The sharpened luma at `(x, y)`: the kernel applied over the pixel and its
/// eight neighbours, with the image extended at its edges.
pub open spec fn sharpen_at(r: Raster, x: int, y: int) -> u8 {
    let w = r.width as int;
    let h = r.height as int;
    let l = clamp_coord(x, -1, w);
    let rt = clamp_coord(x, 1, w);
    let u = clamp_coord(y, -1, h);
    let d = clamp_coord(y, 1, h);
    clamp_luma(
        SHARPEN_CENTER_WEIGHT * r.at(x, y)
            + SHARPEN_EDGE_WEIGHT * (r.at(l, y) + r.at(rt, y) + r.at(x, u) + r.at(x, d))
            + SHARPEN_CORNER_WEIGHT * (r.at(l, u) + r.at(rt, u) + r.at(l, d) + r.at(rt, d)),
    )
}

pub open spec fn sharpen_spec(r: Raster) -> Raster {
    Raster::from_fn(r.width, r.height, |x: int, y: int| sharpen_at(r, x, y))
}

/// The class of a luma value: at or above the threshold it is background,
/// below it foreground.
pub open spec fn classify(v: u8, threshold: u8) -> u8 {
    if v >= threshold {
        BACKGROUND
    } else {
        FOREGROUND
    }
}

pub open spec fn binarize_spec(r: Raster, threshold: u8) -> Raster {
    Raster::from_fn(r.width, r.height, |x: int, y: int| classify(r.at(x, y), threshold))
}

/// Turns the image a quarter turn counter-clockwise.
pub fn rotate270(image: &LumaImage) -> (r: LumaImage)
    requires
        image.wf(),
    ensures
        r.wf(),
        r@ == rotate270_spec(image@),
{
    let w = image.width;
    let h = image.height;
    let mut rows: Vec<Vec<u8>> = Vec::new();
    let mut b: u32 = 0;
    while b < w
        invariant
            image.wf(),
            w == image.width,
            h == image.height,
            b <= w,
            rows@.len() == b,
            forall|k: int| 0 <= k < b ==> (#[trigger] rows@[k])@ == rotate270_spec(image@).rows[k],
        decreases w - b,
    {
        let mut row: Vec<u8> = Vec::new();
        let mut a: u32 = 0;
        while a < h
            invariant
                image.wf(),
                w == image.width,
                h == image.height,
                b < w,
                a <= h,
                row@.len() == a,
                forall|k: int| 0 <= k < a ==> row@[k] == image@.at(w - 1 - b, k),
            decreases h - a,
        {
            row.push(image.get_pixel(w - 1 - b, a));
            a += 1;
        }
        assert(row@ =~= rotate270_spec(image@).rows[b as int]);
        rows.push(row);
        b += 1;
    }
    let r = LumaImage { width: h, height: w, rows };
    assert(r@ =~~= rotate270_spec(image@));
    r
}

/// Brings the image into the template's landscape orientation: a portrait
/// image (taller than wide) is turned a quarter turn counter-clockwise, any
/// other is returned unchanged.
pub fn normalize_orientation(image: LumaImage) -> (r: LumaImage)
    requires
        image.wf(),
    ensures
        r.wf(),
        r@ == normalize_spec(image@),
        r.width >= r.height,
        image.height <= image.width ==> r@ == image@,
{
    if image.height > image.width {
        rotate270(&image)
    } else {
        image
    }
}

/// Sharpens the image with the fixed 3x3 kernel; pixels beyond the border
/// take the value of the nearest border pixel.
pub fn sharpen(image: &LumaImage) -> (r: LumaImage)
    requires
        image.wf(),
    ensures
        r.wf(),
        r@ == sharpen_spec(image@),
{
    let w = image.width;
    let h = image.height;
    let mut rows: Vec<Vec<u8>> = Vec::new();
    let mut y: u32 = 0;
    while y < h
        invariant
            image.wf(),
            w == image.width,
            h == image.height,
            y <= h,
            rows@.len() == y,
            forall|k: int| 0 <= k < y ==> (#[trigger] rows@[k])@ == sharpen_spec(image@).rows[k],
        decreases h - y,
    {
        let u: u32 = if y > 0 { y - 1 } else { y };
        let d: u32 = if y + 1 < h { y + 1 } else { y };
        let mut row: Vec<u8> = Vec::new();
        let mut x: u32 = 0;
        while x < w
            invariant
                image.wf(),
                w == image.width,
                h == image.height,
                y < h,
                u == clamp_coord(y as int, -1, h as int),
                d == clamp_coord(y as int, 1, h as int),
                x <= w,
                row@.len() == x,
                forall|k: int| 0 <= k < x ==> row@[k] == sharpen_at(image@, k, y as int),
            decreases w - x,
        {
            let l: u32 = if x > 0 { x - 1 } else { x };
            let rt: u32 = if x + 1 < w { x + 1 } else { x };
            let edges: i32 = image.get_pixel(l, y) as i32 + image.get_pixel(rt, y) as i32
                + image.get_pixel(x, u) as i32 + image.get_pixel(x, d) as i32;
            let corners: i32 = image.get_pixel(l, u) as i32 + image.get_pixel(rt, u) as i32
                + image.get_pixel(l, d) as i32 + image.get_pixel(rt, d) as i32;
            let v: i32 = SHARPEN_CENTER_WEIGHT * image.get_pixel(x, y) as i32
                + SHARPEN_EDGE_WEIGHT * edges + SHARPEN_CORNER_WEIGHT * corners;
            let p: u8 = if v < 0 {
                0
            } else if v > 255 {
                255
            } else {
                v as u8
            };
            row.push(p);
            x += 1;
        }
        assert(row@ =~= sharpen_spec(image@).rows[y as int]);
        rows.push(row);
        y += 1;
    }
    let r = LumaImage { width: w, height: h, rows };
    assert(r@ =~~= sharpen_spec(image@));
    r
}

/// Classifies every pixel as background (at or above `threshold`) or
/// foreground (below it).
pub fn binarize(image: &LumaImage, threshold: u8) -> (r: LumaImage)
    requires
        image.wf(),
    ensures
        r.wf(),
        r@ == binarize_spec(image@, threshold),
        forall|x: int, y: int|
            0 <= x < r.width && 0 <= y < r.height ==> #[trigger] r@.at(x, y) == BACKGROUND
                || r@.at(x, y) == FOREGROUND,
{
    let w = image.width;
    let h = image.height;
    let mut rows: Vec<Vec<u8>> = Vec::new();
    let mut y: u32 = 0;
    while y < h
        invariant
            image.wf(),
            w == image.width,
            h == image.height,
            y <= h,
            rows@.len() == y,
            forall|k: int| 0 <= k < y ==> (#[trigger] rows@[k])@ == binarize_spec(image@, threshold).rows[k],
        decreases h - y,
    {
        let mut row: Vec<u8> = Vec::new();
        let mut x: u32 = 0;
        while x < w
            invariant
                image.wf(),
                w == image.width,
                h == image.height,
                y < h,
                x <= w,
                row@.len() == x,
                forall|k: int| 0 <= k < x ==> row@[k] == classify(image@.at(k, y as int), threshold),
            decreases w - x,
        {
            let p: u8 = if image.get_pixel(x, y) >= threshold {
                BACKGROUND
            } else {
                FOREGROUND
            };
            row.push(p);
            x += 1;
        }
        assert(row@ =~= binarize_spec(image@, threshold).rows[y as int]);
        rows.push(row);
        y += 1;
    }
    let r = LumaImage { width: w, height: h, rows };
    assert(r@ =~~= binarize_spec(image@, threshold));
    r
}

/// At threshold 0 every pixel is background; at threshold 255 every pixel
/// is foreground except those of luma exactly 255.
pub proof fn lemma_threshold_extremes(r: Raster, x: int, y: int)
    requires
        r.wf(),
        0 <= x < r.width,
        0 <= y < r.height,
    ensures
        binarize_spec(r, 0).at(x, y) == BACKGROUND,
        binarize_spec(r, 255).at(x, y) == (if r.at(x, y) == 255 {
            BACKGROUND
        } else {
            FOREGROUND
        }),
{
}

} // verus!
