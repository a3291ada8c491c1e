use vstd::prelude::*;
use crate::crop::{CropConfig, crop_border, template_crop};
use crate::error::ScanError;
use crate::grid::{
    CellView, GridSpec, TEMPLATE_COLUMNS, TEMPLATE_ROWS, cell_rect, cell_rects,
};
use crate::raster::{LumaImage, Raster, Rect, crop_spec};
use crate::transform::{binarize, binarize_spec, normalize_orientation, normalize_spec, sharpen, sharpen_spec};

verus! {

/// The threshold used when none is given.
pub const DEFAULT_THRESHOLD: i32 = 190;

/// The threshold as a luma value, or `InvalidThreshold` when it is outside
/// 0 to 255.
pub fn validate_threshold(threshold: i32) -> (r: Result<u8, ScanError>)
    ensures
        r is Ok <==> 0 <= threshold <= 255,
        r matches Ok(t) ==> t == threshold,
        r matches Err(e) ==> e == ScanError::InvalidThreshold,
{
    if 0 <= threshold && threshold <= 255 {
        Ok(threshold as u8)
    } else {
        Err(ScanError::InvalidThreshold)
    }
}

/// The binary image that the grid is cut from: the scan oriented, sharpened,
/// thresholded and stripped of the template's margin.
pub open spec fn processed_spec(image: Raster, threshold: u8, crop: CropConfig) -> Raster {
    let n = normalize_spec(image);
    crop_spec(binarize_spec(sharpen_spec(n), threshold), crop.rect(n.width as int, n.height as int))
}

/// The crop fits the scan once it is oriented.
pub open spec fn crop_fits_scan(image: Raster, crop: CropConfig) -> bool {
    let n = normalize_spec(image);
    crop.fits(n.width as int, n.height as int)
}

/// The outcome of a scan: the binary image of the grid region and the
/// rectangles of its cells in reading order.
pub struct ScanOutput {
    pub image: LumaImage,
    pub grid: GridSpec,
    pub cells: Vec<Rect>,
}

impl ScanOutput {
    /// The image is well formed and every cell lies inside it.
    pub open spec fn wf(&self) -> bool {
        &&& self.image.wf()
        &&& forall|i: int|
            0 <= i < self.cells@.len() ==> (#[trigger] self.cells@[i]).within(
                self.image.width as int,
                self.image.height as int,
            )
    }

    /// The number of cells produced.
    pub fn cell_count(&self) -> (r: usize)
        ensures
            r == self.cells@.len(),
    {
        self.cells.len()
    }

    /// A read-only view of each cell onto the image, in reading order.
    pub fn views(&self) -> (r: Vec<CellView<'_>>)
        requires
            self.wf(),
        ensures
            r@.len() == self.cells@.len(),
            forall|i: int|
                0 <= i < r@.len() ==> (#[trigger] r@[i]).image == &self.image && r@[i].rect
                    == self.cells@[i] && r@[i].wf(),
    {
        let mut views: Vec<CellView<'_>> = Vec::new();
        let mut i: usize = 0;
        while i < self.cells.len()
            invariant
                self.wf(),
                i <= self.cells@.len(),
                views@.len() == i,
                forall|k: int|
                    0 <= k < i ==> (#[trigger] views@[k]).image == &self.image && views@[k].rect
                        == self.cells@[k],
            decreases self.cells@.len() - i,
        {
            views.push(CellView { image: &self.image, rect: self.cells[i] });
            i += 1;
        }
        views
    }
}

/// Runs the whole pipeline with the given calibration and grid: orient,
/// sharpen, threshold, crop, then cut into cells. Fails with
/// `InvalidThreshold` before any processing when the threshold is not a luma
/// value, and with `InvalidGeometry` when the crop does not fit the image.
pub fn scan_image_with(image: LumaImage, threshold: i32, crop: &CropConfig, grid: GridSpec) -> (r: Result<ScanOutput, ScanError>)
    requires
        image.wf(),
        crop.wf(),
        grid.columns >= 1,
        grid.rows >= 1,
        grid.columns as int * grid.rows as int <= usize::MAX,
    ensures
        r is Ok <==> 0 <= threshold <= 255 && crop_fits_scan(image@, *crop),
        !(0 <= threshold <= 255) ==> r == Err::<ScanOutput, ScanError>(ScanError::InvalidThreshold),
        0 <= threshold <= 255 && !crop_fits_scan(image@, *crop) ==> r == Err::<ScanOutput, ScanError>(
            ScanError::InvalidGeometry,
        ),
        r matches Ok(out) ==> {
            &&& out.wf()
            &&& out.grid == grid
            &&& out.image@ == processed_spec(image@, threshold as u8, *crop)
            &&& out.cells@.len() == grid.columns as int * grid.rows as int
            &&& forall|row: int, col: int|
                0 <= row < grid.rows && 0 <= col < grid.columns ==> #[trigger] out.cells@[row
                    * grid.columns + col] == cell_rect(
                    out.image.width as int,
                    out.image.height as int,
                    grid.columns as int,
                    grid.rows as int,
                    col,
                    row,
                )
        },
{
    let t = match validate_threshold(threshold) {
        Ok(t) => t,
        Err(e) => return Err(e),
    };
    let oriented = normalize_orientation(image);
    let sharpened = sharpen(&oriented);
    let binary = binarize(&sharpened, t);
    let cropped = match crop_border(&binary, crop) {
        Ok(c) => c,
        Err(e) => return Err(e),
    };
    let cells = cell_rects(cropped.width, cropped.height, grid.columns, grid.rows);
    Ok(ScanOutput { image: cropped, grid, cells })
}

/// Runs the pipeline for the supported template: its calibration and its
/// grid of 12 columns by 9 rows.
pub fn scan_image(image: LumaImage, threshold: i32) -> (r: Result<ScanOutput, ScanError>)
    requires
        image.wf(),
    ensures
        r is Ok <==> 0 <= threshold <= 255,
        r matches Err(e) ==> e == ScanError::InvalidThreshold,
        r matches Ok(out) ==> {
            &&& out.wf()
            &&& out.grid == (GridSpec { columns: TEMPLATE_COLUMNS, rows: TEMPLATE_ROWS })
            &&& out.image@ == processed_spec(image@, threshold as u8, template_crop())
            &&& out.cells@.len() == TEMPLATE_COLUMNS * TEMPLATE_ROWS
            &&& forall|row: int, col: int|
                0 <= row < TEMPLATE_ROWS && 0 <= col < TEMPLATE_COLUMNS ==> #[trigger] out.cells@[row
                    * TEMPLATE_COLUMNS + col] == cell_rect(
                    out.image.width as int,
                    out.image.height as int,
                    TEMPLATE_COLUMNS as int,
                    TEMPLATE_ROWS as int,
                    col,
                    row,
                )
        },
{
    let crop = CropConfig::template();
    proof {
        let n = normalize_spec(image@);
        crate::crop::lemma_template_crop_shrinks(n.width as u32, n.height as u32);
    }
    scan_image_with(image, threshold, &crop, GridSpec::template())
}

} // verus!
