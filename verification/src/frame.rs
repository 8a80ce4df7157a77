//! In-memory RGBA frames: region cropping and the multi-monitor compositor.
//!
//! A frame is a rectangle of pixels stored row by row. The compositor lays
//! the full frame of every monitor into one combined frame at the monitor's
//! offset from the arrangement's bounding box; where monitors overlap the
//! last one in enumeration order wins, and gaps stay transparent black.

use vstd::prelude::*;

use crate::errors::AppError;
use crate::monitors::{
    monitor_contains_point,
    bounds_cover,
    is_bounding_box,
    Bounds,
    MonitorInfo,
};

verus! {

/// One RGBA pixel.
#[derive(Debug, Clone, Copy, PartialEq, Eq, Structural)]
pub struct Pixel {
    pub r: u8,
    pub g: u8,
    pub b: u8,
    pub a: u8,
}

/// The default pixel value: fully transparent black.
pub open spec fn transparent() -> Pixel {
    Pixel { r: 0, g: 0, b: 0, a: 0 }
}

/// A rectangle of pixels, stored as `height` rows of `width` pixels each.
#[derive(Debug, Clone, PartialEq, Eq)]
pub struct Frame {
    pub width: u32,
    pub height: u32,
    pub rows: Vec<Vec<Pixel>>,
}

impl Frame {
    /// The rows agree with the stated dimensions.
    pub open spec fn wf(self) -> bool {
        &&& self.rows@.len() == self.height
        &&& forall|y: int| 0 <= y < self.height ==> (#[trigger] self.rows@[y])@.len() == self.width
    }

    /// The pixel at column x of row y.
    pub open spec fn pixel(self, x: int, y: int) -> Pixel {
        self.rows@[y]@[x]
    }

    /// A frame of the given dimensions, every pixel transparent black.
    pub fn new(width: u32, height: u32) -> (r: Frame)
        ensures
            r.wf(),
            r.width == width,
            r.height == height,
            forall|x: int, y: int|
                0 <= x < width && 0 <= y < height ==> #[trigger] r.pixel(x, y) == transparent(),
    {
        let mut rows: Vec<Vec<Pixel>> = Vec::new();
        let mut y: usize = 0;
        while y < height as usize
            invariant
                y <= height,
                rows@.len() == y,
                forall|j: int| 0 <= j < y ==> (#[trigger] rows@[j])@.len() == width,
                forall|i: int, j: int|
                    0 <= i < width && 0 <= j < y ==> (#[trigger] rows@[j]@[i]) == transparent(),
            decreases height - y,
        {
            let mut row: Vec<Pixel> = Vec::new();
            let mut x: usize = 0;
            while x < width as usize
                invariant
                    x <= width,
                    row@.len() == x,
                    forall|i: int| 0 <= i < x ==> (#[trigger] row@[i]) == transparent(),
                decreases width - x,
            {
                row.push(Pixel { r: 0, g: 0, b: 0, a: 0 });
                x = x + 1;
            }
            rows.push(row);
            y = y + 1;
        }
        Frame { width, height, rows }
    }
}

/// Copy of the sub-rectangle of `frame` starting at (x, y) with the given
/// dimensions. The result's width and height equal the requested width and
/// height exactly.
pub fn crop(frame: &Frame, x: u32, y: u32, width: u32, height: u32) -> (r: Frame)
    requires
        frame.wf(),
        x + width <= frame.width,
        y + height <= frame.height,
    ensures
        r.wf(),
        r.width == width,
        r.height == height,
        forall|cx: int, cy: int|
            0 <= cx < width && 0 <= cy < height ==> #[trigger] r.pixel(cx, cy) == frame.pixel(
                x + cx,
                y + cy,
            ),
{
    let mut rows: Vec<Vec<Pixel>> = Vec::new();
    let mut cy: usize = 0;
    while cy < height as usize
        invariant
            frame.wf(),
            x + width <= frame.width,
            y + height <= frame.height,
            cy <= height,
            rows@.len() == cy,
            forall|j: int| 0 <= j < cy ==> (#[trigger] rows@[j])@.len() == width,
            forall|i: int, j: int|
                0 <= i < width && 0 <= j < cy ==> (#[trigger] rows@[j]@[i]) == frame.pixel(
                    x + i,
                    y + j,
                ),
        decreases height - cy,
    {
        let src_row = &frame.rows[(y as usize) + cy];
        let mut row: Vec<Pixel> = Vec::new();
        let mut cx: usize = 0;
        while cx < width as usize
            invariant
                frame.wf(),
                x + width <= frame.width,
                y + height <= frame.height,
                cy < height,
                cx <= width,
                src_row == frame.rows@[y + cy],
                row@.len() == cx,
                forall|i: int|
                    0 <= i < cx ==> (#[trigger] row@[i]) == frame.pixel(x + i, y + cy as int),
            decreases width - cx,
        {
            row.push(src_row[(x as usize) + cx]);
            cx = cx + 1;
        }
        rows.push(row);
        cy = cy + 1;
    }
    Frame { width, height, rows }
}

/// Region capture against one monitor's full frame: rejects a rectangle that
/// leaves the frame, and otherwise returns a copy whose dimensions equal the
/// requested dimensions exactly.
pub fn capture_region_from_frame(frame: &Frame, x: i32, y: i32, width: u32, height: u32) -> (r:
    Result<Frame, AppError>)
    requires
        frame.wf(),
    ensures
        (0 <= x && 0 <= y && x + width <= frame.width && y + height <= frame.height) <==> r is Ok,
        r matches Ok(f) ==> {
            &&& f.wf()
            &&& f.width == width
            &&& f.height == height
            &&& forall|cx: int, cy: int|
                0 <= cx < width && 0 <= cy < height ==> #[trigger] f.pixel(cx, cy) == frame.pixel(
                    x + cx,
                    y + cy,
                )
        },
        r matches Err(e) ==> e matches AppError::CaptureFailed { .. },
{
    if x < 0 || y < 0 {
        return Err(AppError::CaptureFailed { detail: "region is outside the monitor".to_owned() });
    }
    let xu = x as u32;
    let yu = y as u32;
    if (xu as u64) + (width as u64) > (frame.width as u64) || (yu as u64) + (height as u64) > (
    frame.height as u64) {
        return Err(AppError::CaptureFailed { detail: "region is outside the monitor".to_owned() });
    }
    Ok(crop(frame, xu, yu, width, height))
}

/// The bounding box of an arrangement, computed fold-left over the list:
/// the box of the first monitor, widened by each following one.
pub open spec fn spec_bbox(ms: Seq<MonitorInfo>) -> Bounds
    recommends
        ms.len() > 0,
    decreases ms.len(),
{
    if ms.len() <= 1 {
        bounds_of(ms[0])
    } else {
        join_bounds(spec_bbox(ms.drop_last()), bounds_of(ms.last()))
    }
}

/// The box of a single monitor.
pub open spec fn bounds_of(m: MonitorInfo) -> Bounds {
    Bounds {
        min_x: m.x as i64,
        min_y: m.y as i64,
        max_x: (m.x + m.width) as i64,
        max_y: (m.y + m.height) as i64,
    }
}

/// The smallest box covering both boxes.
pub open spec fn join_bounds(a: Bounds, b: Bounds) -> Bounds {
    Bounds {
        min_x: if b.min_x < a.min_x {
            b.min_x
        } else {
            a.min_x
        },
        min_y: if b.min_y < a.min_y {
            b.min_y
        } else {
            a.min_y
        },
        max_x: if b.max_x > a.max_x {
            b.max_x
        } else {
            a.max_x
        },
        max_y: if b.max_y > a.max_y {
            b.max_y
        } else {
            a.max_y
        },
    }
}

/// Bounding box of a non-empty arrangement, with its characterization:
/// it covers every monitor and each edge is attained by one.
pub fn bounding_box(monitors: &Vec<MonitorInfo>) -> (r: Bounds)
    requires
        monitors@.len() > 0,
    ensures
        r == spec_bbox(monitors@),
        is_bounding_box(r, monitors@),
{
    let first = &monitors[0];
    let mut b = Bounds {
        min_x: first.x as i64,
        min_y: first.y as i64,
        max_x: first.x as i64 + first.width as i64,
        max_y: first.y as i64 + first.height as i64,
    };
    proof {
        assert(monitors@.take(1)[0] == monitors@[0]);
        assert(monitors@.take(1).len() == 1);
    }
    let mut i: usize = 1;
    while i < monitors.len()
        invariant
            1 <= i <= monitors@.len(),
            b == spec_bbox(monitors@.take(i as int)),
            is_bounding_box(b, monitors@.take(i as int)),
        decreases monitors@.len() - i,
    {
        let m = &monitors[i];
        let ghost prev = b;
        if (m.x as i64) < b.min_x {
            b.min_x = m.x as i64;
        }
        if (m.y as i64) < b.min_y {
            b.min_y = m.y as i64;
        }
        if (m.x as i64) + (m.width as i64) > b.max_x {
            b.max_x = m.x as i64 + m.width as i64;
        }
        if (m.y as i64) + (m.height as i64) > b.max_y {
            b.max_y = m.y as i64 + m.height as i64;
        }
        proof {
            assert(monitors@.take(i + 1).drop_last() =~= monitors@.take(i as int));
            assert(monitors@.take(i + 1).last() == monitors@[i as int]);
            assert(b == join_bounds(prev, bounds_of(monitors@[i as int])));
            assert forall|j: int| 0 <= j < i + 1 implies bounds_cover(
                b,
                #[trigger] monitors@.take(i + 1)[j],
            ) by {
                if j < i {
                    assert(bounds_cover(prev, monitors@.take(i as int)[j]));
                }
            }
        }
        i = i + 1;
    }
    proof {
        assert(monitors@.take(monitors@.len() as int) =~= monitors@);
    }
    b
}

/// The frames handed to the compositor are the full frames of the monitors:
/// one per monitor, well formed, with the monitor's dimensions.
pub open spec fn frames_match(ms: Seq<MonitorInfo>, fs: Seq<Frame>) -> bool {
    &&& fs.len() == ms.len()
    &&& forall|i: int|
        0 <= i < ms.len() ==> {
            &&& (#[trigger] fs[i]).wf()
            &&& fs[i].width == ms[i].width
            &&& fs[i].height == ms[i].height
        }
}

/// Index of the last monitor in enumeration order whose rectangle contains
/// the desktop point (px, py); `None` when no monitor does.
pub open spec fn last_cover(ms: Seq<MonitorInfo>, px: int, py: int) -> Option<int>
    decreases ms.len(),
{
    if ms.len() == 0 {
        None
    } else if monitor_contains_point(ms.last(), px, py) {
        Some(ms.len() - 1)
    } else {
        last_cover(ms.drop_last(), px, py)
    }
}

/// The combined image's pixel at desktop point (px, py): the pixel of the
/// last monitor covering the point, or transparent black in a gap.
pub open spec fn composite_pixel(ms: Seq<MonitorInfo>, fs: Seq<Frame>, px: int, py: int) -> Pixel {
    match last_cover(ms, px, py) {
        Some(i) => fs[i].pixel(px - ms[i].x, py - ms[i].y),
        None => transparent(),
    }
}

/// The pixel the combined image shows at desktop point (px, py).
fn source_pixel(monitors: &Vec<MonitorInfo>, frames: &Vec<Frame>, px: i64, py: i64) -> (r: Pixel)
    requires
        frames_match(monitors@, frames@),
    ensures
        r == composite_pixel(monitors@, frames@, px as int, py as int),
{
    let mut i: usize = monitors.len();
    proof {
        assert(monitors@.take(monitors@.len() as int) =~= monitors@);
    }
    while i > 0
        invariant
            i <= monitors@.len(),
            frames_match(monitors@, frames@),
            last_cover(monitors@, px as int, py as int) == last_cover(
                monitors@.take(i as int),
                px as int,
                py as int,
            ),
        decreases i,
    {
        let m = &monitors[i - 1];
        proof {
            assert(monitors@.take(i as int).last() == monitors@[i - 1]);
            assert(monitors@.take(i as int).drop_last() =~= monitors@.take(i - 1));
        }
        if px >= m.x as i64 && px < m.x as i64 + m.width as i64 && py >= m.y as i64 && py < m.y
            as i64 + m.height as i64 {
            let local_x = (px - m.x as i64) as usize;
            let local_y = (py - m.y as i64) as usize;
            return frames[i - 1].rows[local_y][local_x];
        }
        i = i - 1;
    }
    Pixel { r: 0, g: 0, b: 0, a: 0 }
}

/// The combined frame agrees with `composite_pixel` at every coordinate,
/// relative to the bounding box b.
pub open spec fn composite_post(ms: Seq<MonitorInfo>, fs: Seq<Frame>, b: Bounds, out: Frame) -> bool {
    &&& out.wf()
    &&& out.width == b.spec_width()
    &&& out.height == b.spec_height()
    &&& forall|x: int, y: int|
        0 <= x < out.width && 0 <= y < out.height ==> #[trigger] out.pixel(x, y) == composite_pixel(
            ms,
            fs,
            b.min_x + x,
            b.min_y + y,
        )
}

/// Lay every monitor's full frame into one combined frame covering the
/// bounding box b of the arrangement.
pub fn composite(monitors: &Vec<MonitorInfo>, frames: &Vec<Frame>, b: Bounds) -> (r: Frame)
    requires
        monitors@.len() > 0,
        frames_match(monitors@, frames@),
        is_bounding_box(b, monitors@),
        b.spec_width() <= u32::MAX,
        b.spec_height() <= u32::MAX,
    ensures
        composite_post(monitors@, frames@, b, r),
{
    proof {
        assert(bounds_cover(b, monitors@[0]));
    }
    let width = (b.max_x - b.min_x) as u32;
    let height = (b.max_y - b.min_y) as u32;
    let mut rows: Vec<Vec<Pixel>> = Vec::new();
    let mut y: usize = 0;
    while y < height as usize
        invariant
            frames_match(monitors@, frames@),
            width == b.spec_width(),
            height == b.spec_height(),
            y <= height,
            rows@.len() == y,
            forall|j: int| 0 <= j < y ==> (#[trigger] rows@[j])@.len() == width,
            forall|i: int, j: int|
                0 <= i < width && 0 <= j < y ==> (#[trigger] rows@[j]@[i]) == composite_pixel(
                    monitors@,
                    frames@,
                    b.min_x + i,
                    b.min_y + j,
                ),
        decreases height - y,
    {
        let mut row: Vec<Pixel> = Vec::new();
        let mut x: usize = 0;
        while x < width as usize
            invariant
                frames_match(monitors@, frames@),
                width == b.spec_width(),
                height == b.spec_height(),
                y < height,
                x <= width,
                row@.len() == x,
                forall|i: int|
                    0 <= i < x ==> (#[trigger] row@[i]) == composite_pixel(
                        monitors@,
                        frames@,
                        b.min_x + i,
                        b.min_y + y as int,
                    ),
            decreases width - x,
        {
            row.push(source_pixel(monitors, frames, b.min_x + x as i64, b.min_y + y as i64));
            x = x + 1;
        }
        rows.push(row);
        y = y + 1;
    }
    Frame { width, height, rows }
}

/// The whole compositor: rejects an empty arrangement with `NoScreens` and
/// an arrangement whose bounding box exceeds the largest representable image
/// with `CaptureFailed`; otherwise the combined frame's dimensions equal the
/// bounding box's, and its pixels are given by `composite_pixel`.
pub fn compose_all(monitors: &Vec<MonitorInfo>, frames: &Vec<Frame>) -> (r: Result<Frame, AppError>)
    requires
        frames_match(monitors@, frames@),
    ensures
        monitors@.len() == 0 <==> r == Err::<Frame, AppError>(AppError::NoScreens),
        monitors@.len() > 0 ==> {
            let b = spec_bbox(monitors@);
            if b.spec_width() <= u32::MAX && b.spec_height() <= u32::MAX {
                &&& r matches Ok(f)
                &&& composite_post(monitors@, frames@, b, f)
                &&& is_bounding_box(b, monitors@)
            } else {
                r matches Err(e) && e matches AppError::CaptureFailed { .. }
            }
        },
{
    if monitors.len() == 0 {
        return Err(AppError::NoScreens);
    }
    let b = bounding_box(monitors);
    proof {
        assert(bounds_cover(b, monitors@[0]));
    }
    if b.max_x - b.min_x > u32::MAX as i64 || b.max_y - b.min_y > u32::MAX as i64 {
        return Err(
            AppError::CaptureFailed { detail: "combined image would be too large".to_owned() },
        );
    }
    Ok(composite(monitors, frames, b))
}

/// On a single-monitor arrangement the compositor is the identity: any frame
/// meeting the compositor's contract for one monitor has that monitor's
/// dimensions and is pixel-identical to the monitor's own full frame.
pub proof fn lemma_single_monitor_composite_identity(m: MonitorInfo, f: Frame, out: Frame)
    requires
        f.wf(),
        f.width == m.width,
        f.height == m.height,
        composite_post(seq![m], seq![f], spec_bbox(seq![m]), out),
    ensures
        out.width == f.width,
        out.height == f.height,
        forall|x: int, y: int|
            0 <= x < f.width && 0 <= y < f.height ==> #[trigger] out.pixel(x, y) == f.pixel(x, y),
{
    let b = spec_bbox(seq![m]);
    assert(b == bounds_of(m));
    assert forall|x: int, y: int| 0 <= x < f.width && 0 <= y < f.height implies #[trigger] out.pixel(
        x,
        y,
    ) == f.pixel(x, y) by {
        let px = b.min_x + x;
        let py = b.min_y + y;
        assert(monitor_contains_point(seq![m].last(), px, py));
        assert(last_cover(seq![m], px, py) == Some(0int));
        assert(out.pixel(x, y) == composite_pixel(seq![m], seq![f], px, py));
    }
}

} // verus!
