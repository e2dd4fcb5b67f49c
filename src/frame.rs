//! Captured monitor frames, the composed canvas, and the geometry that relates
//! them: pixels, bounding boxes and coverage.

use vstd::prelude::*;

verus! {

/// One monitor's captured image, placed at its origin on the virtual desktop.
/// `pixels` holds RGBA bytes, row by row.
pub struct MonitorFrame {
    pub origin_x: i32,
    pub origin_y: i32,
    pub width: u32,
    pub height: u32,
    pub pixels: Vec<u8>,
}

/// The image that the frames of one capture are composed into.
pub struct Canvas {
    pub width: u32,
    pub height: u32,
    pub pixels: Vec<u8>,
}

/// The four RGBA bytes of pixel `(x, y)` in a row-major buffer `width` pixels wide.
pub open spec fn pixel_at(data: Seq<u8>, width: int, x: int, y: int) -> Seq<u8> {
    data.subrange(4 * (y * width + x), 4 * (y * width + x) + 4)
}

/// The alpha byte of pixel `(x, y)`.
pub open spec fn alpha_at(data: Seq<u8>, width: int, x: int, y: int) -> u8 {
    data[4 * (y * width + x) + 3]
}

/// A fully transparent black pixel.
pub open spec fn clear_pixel() -> Seq<u8> {
    seq![0u8, 0u8, 0u8, 0u8]
}

impl MonitorFrame {
    /// The buffer holds exactly the frame's pixels.
    pub open spec fn wf(&self) -> bool {
        self.pixels@.len() == 4 * self.width * self.height
    }

    /// A frame, or `None` where the buffer's length is not four bytes per pixel.
    pub fn new(origin_x: i32, origin_y: i32, width: u32, height: u32, pixels: Vec<u8>) -> (r:
        Option<MonitorFrame>)
        ensures
            r is Some <==> pixels@.len() == 4 * width * height,
            r matches Some(f) ==> f.wf() && f.origin_x == origin_x && f.origin_y == origin_y
                && f.width == width && f.height == height && f.pixels@ == pixels@,
    {
        let plen = pixels.len();
        let w = width as usize;
        let h = height as usize;
        match w.checked_mul(h) {
            Some(n) => match n.checked_mul(4) {
                Some(len) => {
                    proof {
                        assert(len == 4 * width * height) by (nonlinear_arith)
                            requires
                                n == w * h,
                                len == n * 4,
                                w == width,
                                h == height,
                        ;
                    }
                    if plen == len {
                        Some(MonitorFrame { origin_x, origin_y, width, height, pixels })
                    } else {
                        None
                    }
                },
                None => {
                    proof {
                        assert(4 * width * height > usize::MAX) by (nonlinear_arith)
                            requires
                                n == w * h,
                                n * 4 > usize::MAX,
                                w == width,
                                h == height,
                        ;
                    }
                    None
                },
            },
            None => {
                proof {
                    assert(4 * width * height > usize::MAX) by (nonlinear_arith)
                        requires
                            w * h > usize::MAX,
                            w == width,
                            h == height,
                    ;
                }
                None
            },
        }
    }
}

/// Every frame's buffer matches its size.
pub open spec fn all_wf(fs: Seq<MonitorFrame>) -> bool {
    forall|i: int| 0 <= i < fs.len() ==> #[trigger] fs[i].wf()
}

/// The leftmost origin among the frames.
pub open spec fn left_of(fs: Seq<MonitorFrame>) -> int
    decreases fs.len(),
{
    if fs.len() <= 1 {
        if fs.len() == 0 {
            0
        } else {
            fs[0].origin_x as int
        }
    } else {
        let rest = left_of(fs.drop_last());
        let v = fs.last().origin_x as int;
        if v < rest {
            v
        } else {
            rest
        }
    }
}

/// The topmost origin among the frames.
pub open spec fn top_of(fs: Seq<MonitorFrame>) -> int
    decreases fs.len(),
{
    if fs.len() <= 1 {
        if fs.len() == 0 {
            0
        } else {
            fs[0].origin_y as int
        }
    } else {
        let rest = top_of(fs.drop_last());
        let v = fs.last().origin_y as int;
        if v < rest {
            v
        } else {
            rest
        }
    }
}

/// The rightmost edge (origin plus width) among the frames.
pub open spec fn right_of(fs: Seq<MonitorFrame>) -> int
    decreases fs.len(),
{
    if fs.len() <= 1 {
        if fs.len() == 0 {
            0
        } else {
            fs[0].origin_x + fs[0].width
        }
    } else {
        let rest = right_of(fs.drop_last());
        let v = fs.last().origin_x + fs.last().width;
        if v > rest {
            v
        } else {
            rest
        }
    }
}

/// The bottom edge (origin plus height) among the frames.
pub open spec fn bottom_of(fs: Seq<MonitorFrame>) -> int
    decreases fs.len(),
{
    if fs.len() <= 1 {
        if fs.len() == 0 {
            0
        } else {
            fs[0].origin_y + fs[0].height
        }
    } else {
        let rest = bottom_of(fs.drop_last());
        let v = fs.last().origin_y + fs.last().height;
        if v > rest {
            v
        } else {
            rest
        }
    }
}

/// The width of the frames' bounding box.
pub open spec fn box_width(fs: Seq<MonitorFrame>) -> int {
    right_of(fs) - left_of(fs)
}

/// The height of the frames' bounding box.
pub open spec fn box_height(fs: Seq<MonitorFrame>) -> int {
    bottom_of(fs) - top_of(fs)
}

/// Canvas point `(px, py)` lies on frame `f`, the canvas's corner being the
/// desktop point `(min_x, min_y)`.
pub open spec fn covers(f: MonitorFrame, min_x: int, min_y: int, px: int, py: int) -> bool {
    f.origin_x - min_x <= px < f.origin_x - min_x + f.width && f.origin_y - min_y <= py
        < f.origin_y - min_y + f.height
}

/// The pixel of `f` that lands on canvas point `(px, py)`.
pub open spec fn frame_pixel(f: MonitorFrame, min_x: int, min_y: int, px: int, py: int) -> Seq<
    u8,
> {
    pixel_at(f.pixels@, f.width as int, px - (f.origin_x - min_x), py - (f.origin_y - min_y))
}

/// The alpha of the pixel of `f` that lands on canvas point `(px, py)`.
pub open spec fn frame_alpha(f: MonitorFrame, min_x: int, min_y: int, px: int, py: int) -> u8 {
    alpha_at(f.pixels@, f.width as int, px - (f.origin_x - min_x), py - (f.origin_y - min_y))
}

/// No frame of `fs` from index `from` up to (not including) `to` covers `(px, py)`.
pub open spec fn uncovered(
    fs: Seq<MonitorFrame>,
    from: int,
    to: int,
    min_x: int,
    min_y: int,
    px: int,
    py: int,
) -> bool {
    forall|j: int| from <= j < to ==> !covers(#[trigger] fs[j], min_x, min_y, px, py)
}

/// Frame `i` covers `(px, py)` and no later frame does: it is the one seen there.
pub open spec fn shown_by(
    fs: Seq<MonitorFrame>,
    i: int,
    min_x: int,
    min_y: int,
    px: int,
    py: int,
) -> bool {
    covers(fs[i], min_x, min_y, px, py) && uncovered(fs, i + 1, fs.len() as int, min_x, min_y, px, py)
}

/// The edges of the bounding box enclose every frame.
pub proof fn lemma_box_encloses(fs: Seq<MonitorFrame>, j: int)
    requires
        0 <= j < fs.len(),
    ensures
        left_of(fs) <= fs[j].origin_x,
        top_of(fs) <= fs[j].origin_y,
        fs[j].origin_x + fs[j].width <= right_of(fs),
        fs[j].origin_y + fs[j].height <= bottom_of(fs),
    decreases fs.len(),
{
    if fs.len() > 1 && j < fs.len() - 1 {
        lemma_box_encloses(fs.drop_last(), j);
    }
}

/// The edges of the bounding box stay within what the coordinate types allow.
pub proof fn lemma_box_range(fs: Seq<MonitorFrame>)
    requires
        fs.len() > 0,
    ensures
        i32::MIN <= left_of(fs) <= i32::MAX,
        i32::MIN <= top_of(fs) <= i32::MAX,
        i32::MIN <= right_of(fs) <= i32::MAX + u32::MAX,
        i32::MIN <= bottom_of(fs) <= i32::MAX + u32::MAX,
    decreases fs.len(),
{
    if fs.len() > 1 {
        lemma_box_range(fs.drop_last());
    }
}

} // verus!
