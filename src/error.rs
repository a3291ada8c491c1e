use vstd::prelude::*;

verus! {

/// Why a scan could not be processed.
#[derive(Clone, Copy, Debug, PartialEq, Eq, Structural)]
pub enum ScanError {
    /// The threshold is not a luma value (0 to 255).
    InvalidThreshold,
    /// The crop or a grid cell would reach outside the image.
    InvalidGeometry,
    /// The scan could not be decoded into an image.
    DecodeFailure,
}

impl ScanError {
    /// A short description of the error.
    pub fn message(&self) -> (r: &'static str)
        ensures
            *self == ScanError::InvalidThreshold ==> r@ == "threshold must be between 0 and 255"@,
            *self == ScanError::InvalidGeometry ==> r@
                == "the image is too small for the template's geometry"@,
            *self == ScanError::DecodeFailure ==> r@ == "the input could not be decoded as an image"@,
    {
        match self {
            ScanError::InvalidThreshold => "threshold must be between 0 and 255",
            ScanError::InvalidGeometry => "the image is too small for the template's geometry",
            ScanError::DecodeFailure => "the input could not be decoded as an image",
        }
    }
}

} // verus!
