//! The failures of a capture request.

use vstd::prelude::*;

verus! {

#[verifier::external_type_specification]
#[verifier::external_body]
pub struct ExImageError(image::ImageError);

/// Why a capture request produced no image.
#[derive(Debug)]
pub enum CaptureError {
    /// The display subsystem listed no monitor.
    NoMonitors,
    /// The bounding box of the frames is too large for one image buffer.
    CanvasTooLarge,
    /// A monitor produced no frame, or its geometry could not be read.
    CaptureFailure(String),
    /// The composed image could not be serialised.
    EncodeFailure(image::ImageError),
    /// The serialised image is too long for its text form to fit in memory.
    EncodedTooLarge,
}

} // verus!
