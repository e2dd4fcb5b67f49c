//! A capture request: from the frames of every monitor to the text-safe image.

use vstd::prelude::*;
use crate::compose::{composite, composed_from, too_large};
use crate::encode::{encode_image, encode_result};
use crate::error::CaptureError;
use crate::frame::{MonitorFrame, all_wf, box_width, box_height};

verus! {

/// Turns the frames of one capture into base64 PNG text.
///
/// No frame gives `NoMonitors`. One frame is encoded as it is, with no canvas.
/// Several are composed over their bounding box first, then encoded.
pub fn capture_screen(frames: Vec<MonitorFrame>) -> (r: Result<String, CaptureError>)
    requires
        all_wf(frames@),
    ensures
        frames@.len() == 0 <==> r matches Err(CaptureError::NoMonitors),
        frames@.len() == 1 ==> encode_result(
            r,
            frames@[0].width,
            frames@[0].height,
            frames@[0].pixels@,
        ),
        frames@.len() > 1 && too_large(frames@) ==> r matches Err(CaptureError::CanvasTooLarge),
        frames@.len() > 1 && !too_large(frames@) ==> exists|p: Seq<u8>|
            composed_from(frames@, box_width(frames@), box_height(frames@), p) && encode_result(
                r,
                box_width(frames@) as u32,
                box_height(frames@) as u32,
                p,
            ),
{
    let n = frames.len();
    if n == 0 {
        return Err(CaptureError::NoMonitors);
    }
    if n == 1 {
        let f = &frames[0];
        proof {
            assert(frames@[0].wf());
        }
        return encode_image(f.width, f.height, &f.pixels);
    }
    match composite(&frames) {
        Ok(c) => {
            let r = encode_image(c.width, c.height, &c.pixels);
            proof {
                assert(composed_from(frames@, box_width(frames@), box_height(frames@), c.pixels@));
            }
            r
        },
        Err(e) => Err(e),
    }
}

} // verus!
