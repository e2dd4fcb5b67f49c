//! Composition of several monitor frames into one canvas spanning their
//! bounding box.

use vstd::prelude::*;
use crate::error::CaptureError;
use crate::frame::{
    MonitorFrame, Canvas, pixel_at, alpha_at, clear_pixel, all_wf, left_of, top_of, right_of,
    bottom_of, box_width, box_height, covers, frame_pixel, frame_alpha, uncovered, shown_by,
    lemma_box_encloses, lemma_box_range,
};

verus! {

/// Relies on image::ImageBuffer::new (RgbaImage): a `width` by `height` image whose
/// bytes are all zero, so every pixel is transparent black. It panics where the
/// buffer's length overflows `usize`, which `requires` leaves out.
#[verifier::external_body]
fn blank_canvas(width: u32, height: u32) -> (r: Vec<u8>)
    requires
        4 * width * height <= usize::MAX,
    ensures
        r@.len() == 4 * width * height,
        forall|px: int, py: int|
            0 <= px < width && 0 <= py < height ==> #[trigger] pixel_at(r@, width as int, px, py)
                == clear_pixel(),
{
    image::RgbaImage::new(width, height).into_raw()
}

/// Relies on image::imageops::overlay: draws `top` (RGBA, `top_width` by
/// `top_height`) onto `canvas` with its corner at `(x, y)`, clipped to the canvas.
/// Canvas pixels off the drawn area keep their value; a top pixel with alpha 255
/// replaces the canvas pixel under it (`Blend for Rgba`).
#[verifier::external_body]
fn overlay_frame(
    canvas: &mut Vec<u8>,
    width: u32,
    height: u32,
    top: &Vec<u8>,
    top_width: u32,
    top_height: u32,
    x: i64,
    y: i64,
)
    requires
        old(canvas)@.len() == 4 * width * height,
        top@.len() == 4 * top_width * top_height,
    ensures
        final(canvas)@.len() == old(canvas)@.len(),
        forall|px: int, py: int|
            0 <= px < width && 0 <= py < height && !(x <= px < x + top_width && y <= py < y
                + top_height) ==> #[trigger] pixel_at(final(canvas)@, width as int, px, py)
                == pixel_at(old(canvas)@, width as int, px, py),
        forall|px: int, py: int|
            0 <= px < width && 0 <= py < height && x <= px < x + top_width && y <= py < y
                + top_height && alpha_at(top@, top_width as int, px - x, py - y) == 255
                ==> #[trigger] pixel_at(final(canvas)@, width as int, px, py) == pixel_at(
                top@,
                top_width as int,
                px - x,
                py - y,
            ),
{
    let mut bottom = image::RgbaImage::from_raw(width, height, std::mem::take(canvas)).unwrap();
    let src = image::ImageBuffer::<image::Rgba<u8>, &[u8]>::from_raw(
        top_width,
        top_height,
        top.as_slice(),
    ).unwrap();
    image::imageops::overlay(&mut bottom, &src, x, y);
    *canvas = bottom.into_raw();
}

/// The bounding box cannot be held as one image buffer.
pub open spec fn too_large(fs: Seq<MonitorFrame>) -> bool {
    box_width(fs) > u32::MAX || box_height(fs) > u32::MAX || 4 * box_width(fs) * box_height(fs)
        > usize::MAX
}

/// `pixels` is a `width` by `height` composition of `fs` over their bounding box:
/// points that no frame covers are transparent black, and a point shows the
/// opaque pixel of the last frame that covers it.
pub open spec fn composed_from(fs: Seq<MonitorFrame>, width: int, height: int, pixels: Seq<u8>) -> bool {
    let mx = left_of(fs);
    let my = top_of(fs);
    &&& width == box_width(fs) && height == box_height(fs)
    &&& pixels.len() == 4 * width * height
    &&& forall|px: int, py: int|
        0 <= px < width && 0 <= py < height && uncovered(fs, 0, fs.len() as int, mx, my, px, py)
            ==> #[trigger] pixel_at(pixels, width, px, py) == clear_pixel()
    &&& forall|i: int, px: int, py: int|
        #![trigger frame_pixel(fs[i], mx, my, px, py)]
        0 <= i < fs.len() && 0 <= px < width && 0 <= py < height && shown_by(fs, i, mx, my, px, py)
            && frame_alpha(fs[i], mx, my, px, py) == 255 ==> pixel_at(pixels, width, px, py)
            == frame_pixel(fs[i], mx, my, px, py)
}

proof fn lemma_edges_step(fs: Seq<MonitorFrame>, i: int)
    requires
        1 <= i < fs.len(),
    ensures
        left_of(fs.take(i + 1)) == if fs[i].origin_x < left_of(fs.take(i)) {
            fs[i].origin_x as int
        } else {
            left_of(fs.take(i))
        },
        top_of(fs.take(i + 1)) == if fs[i].origin_y < top_of(fs.take(i)) {
            fs[i].origin_y as int
        } else {
            top_of(fs.take(i))
        },
        right_of(fs.take(i + 1)) == if fs[i].origin_x + fs[i].width > right_of(fs.take(i)) {
            fs[i].origin_x + fs[i].width
        } else {
            right_of(fs.take(i))
        },
        bottom_of(fs.take(i + 1)) == if fs[i].origin_y + fs[i].height > bottom_of(fs.take(i)) {
            fs[i].origin_y + fs[i].height
        } else {
            bottom_of(fs.take(i))
        },
{
    assert(fs.take(i + 1).drop_last() =~= fs.take(i));
}

/// Composes the frames into one canvas over their bounding box.
///
/// A single frame is returned as it is. Otherwise the canvas starts transparent
/// black and each frame is drawn at its origin less the box's corner; where
/// frames overlap, the later one is seen.
pub fn composite(frames: &Vec<MonitorFrame>) -> (r: Result<Canvas, CaptureError>)
    requires
        all_wf(frames@),
    ensures
        frames@.len() == 0 <==> r matches Err(CaptureError::NoMonitors),
        (frames@.len() > 0 && too_large(frames@)) <==> r matches Err(CaptureError::CanvasTooLarge),
        r is Ok <==> frames@.len() > 0 && !too_large(frames@),
        frames@.len() == 1 ==> (r matches Ok(c) ==> c.width == frames@[0].width && c.height
            == frames@[0].height && c.pixels@ == frames@[0].pixels@),
        r matches Ok(c) ==> composed_from(frames@, c.width as int, c.height as int, c.pixels@),
{
    let n = frames.len();
    if n == 0 {
        return Err(CaptureError::NoMonitors);
    }
    let ghost fs = frames@;
    proof {
        lemma_box_range(fs);
        assert(fs.take(1).drop_last() =~= Seq::<MonitorFrame>::empty());
    }
    if n == 1 {
        let f = &frames[0];
        proof {
            assert(fs[0].wf());
            assert(fs.drop_last().len() == 0);
        }
        return Ok(Canvas { width: f.width, height: f.height, pixels: f.pixels.clone() });
    }
    // Bounding box.

    let mut min_x: i64 = frames[0].origin_x as i64;
    let mut min_y: i64 = frames[0].origin_y as i64;
    let mut max_x: i64 = frames[0].origin_x as i64 + frames[0].width as i64;
    let mut max_y: i64 = frames[0].origin_y as i64 + frames[0].height as i64;
    let mut i: usize = 1;
    proof {
        assert(fs.take(1).len() == 1);
        assert(fs.take(1)[0] == fs[0]);
    }
    while i < n
        invariant
            1 <= i <= n,
            n == fs.len(),
            fs == frames@,
            min_x == left_of(fs.take(i as int)),
            min_y == top_of(fs.take(i as int)),
            max_x == right_of(fs.take(i as int)),
            max_y == bottom_of(fs.take(i as int)),
            i32::MIN <= min_x <= i32::MAX,
            i32::MIN <= min_y <= i32::MAX,
            i32::MIN <= max_x <= i32::MAX + u32::MAX,
            i32::MIN <= max_y <= i32::MAX + u32::MAX,
        decreases n - i,
    {
        let f = &frames[i];
        proof {
            lemma_edges_step(fs, i as int);
        }
        let x = f.origin_x as i64;
        let y = f.origin_y as i64;
        let r = x + f.width as i64;
        let b = y + f.height as i64;
        if x < min_x {
            min_x = x;
        }
        if y < min_y {
            min_y = y;
        }
        if r > max_x {
            max_x = r;
        }
        if b > max_y {
            max_y = b;
        }
        i = i + 1;
    }
    proof {
        assert(fs.take(n as int) =~= fs);
    }
    let total_w = max_x - min_x;
    let total_h = max_y - min_y;
    if total_w > u32::MAX as i64 || total_h > u32::MAX as i64 {
        return Err(CaptureError::CanvasTooLarge);
    }
    let w = total_w as u32;
    let h = total_h as u32;
    let len: usize = match (w as usize).checked_mul(h as usize) {
        Some(a) => match a.checked_mul(4) {
            Some(len) => {
                proof {
                    assert(len == 4 * w * h) by (nonlinear_arith)
                        requires
                            a == w * h,
                            len == a * 4,
                    ;
                }
                len
            },
            None => {
                proof {
                    assert(4 * w * h > usize::MAX) by (nonlinear_arith)
                        requires
                            a == w * h,
                            a * 4 > usize::MAX,
                    ;
                }
                return Err(CaptureError::CanvasTooLarge);
            },
        },
        None => {
            proof {
                assert(4 * w * h > usize::MAX) by (nonlinear_arith)
                    requires
                        w * h > usize::MAX,
                ;
            }
            return Err(CaptureError::CanvasTooLarge);
        },
    };
    let mut pixels = blank_canvas(w, h);
    let mut k: usize = 0;
    while k < n
        invariant
            0 <= k <= n,
            n == fs.len(),
            fs == frames@,
            all_wf(fs),
            min_x == left_of(fs),
            min_y == top_of(fs),
            w == box_width(fs),
            h == box_height(fs),
            pixels@.len() == 4 * w * h,
            forall|px: int, py: int|
                0 <= px < w && 0 <= py < h && uncovered(fs, 0, k as int, min_x as int, min_y as int, px, py)
                    ==> #[trigger] pixel_at(pixels@, w as int, px, py) == clear_pixel(),
            forall|i: int, px: int, py: int|
                #![trigger frame_pixel(fs[i], min_x as int, min_y as int, px, py)]
                0 <= i < k && 0 <= px < w && 0 <= py < h && covers(
                    fs[i],
                    min_x as int,
                    min_y as int,
                    px,
                    py,
                ) && uncovered(fs, i + 1, k as int, min_x as int, min_y as int, px, py)
                    && frame_alpha(fs[i], min_x as int, min_y as int, px, py) == 255
                    ==> pixel_at(pixels@, w as int, px, py) == frame_pixel(
                    fs[i],
                    min_x as int,
                    min_y as int,
                    px,
                    py,
                ),
        decreases n - k,
    {
        let f = &frames[k];
        proof {
            lemma_box_encloses(fs, k as int);
            assert(fs[k as int].wf());
        }
        let ox = f.origin_x as i64 - min_x;
        let oy = f.origin_y as i64 - min_y;
        let ghost before = pixels@;
        overlay_frame(&mut pixels, w, h, &f.pixels, f.width, f.height, ox, oy);
        proof {
            let mx = min_x as int;
            let my = min_y as int;
            assert forall|px: int, py: int|
                0 <= px < w && 0 <= py < h && uncovered(fs, 0, k + 1, mx, my, px, py) implies
                #[trigger] pixel_at(pixels@, w as int, px, py) == clear_pixel() by {
                assert(!covers(fs[k as int], mx, my, px, py));
                assert(uncovered(fs, 0, k as int, mx, my, px, py));
            }
            assert forall|i: int, px: int, py: int|
                0 <= i < k + 1 && 0 <= px < w && 0 <= py < h && covers(fs[i], mx, my, px, py)
                    && uncovered(fs, i + 1, k + 1, mx, my, px, py) && frame_alpha(
                    fs[i],
                    mx,
                    my,
                    px,
                    py,
                ) == 255 implies pixel_at(pixels@, w as int, px, py) == #[trigger] frame_pixel(
                fs[i],
                mx,
                my,
                px,
                py,
            ) by {
                if i < k {
                    assert(!covers(fs[k as int], mx, my, px, py));
                    assert(uncovered(fs, i + 1, k as int, mx, my, px, py));
                    assert(pixel_at(before, w as int, px, py) == frame_pixel(
                        fs[i],
                        mx,
                        my,
                        px,
                        py,
                    ));
                }
            }
        }
        k = k + 1;
    }
    Ok(Canvas { width: w, height: h, pixels })
}

} // verus!
