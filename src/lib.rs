//! Cuts a scanned page of handwriting, laid out on a fixed grid template,
//! into one binary image per cell: orientation, sharpening, thresholding,
//! border crop and grid segmentation, each with a verified contract.

pub mod error;
pub mod raster;
pub mod crop;
pub mod grid;
pub mod transform;
pub mod pipeline;
pub mod confirm;
