//! Monitor geometry: the model of one display, point-in-monitor queries,
//! and the bounding box of a whole arrangement.

use vstd::prelude::*;

use crate::errors::AppError;

verus! {

/// One display surface, as a snapshot of the enumeration call: its ordinal
/// position, backend id, origin and size in desktop coordinates, primary
/// flag, and scale factor in percent (a scale of 1.5 is stored as 150).
#[derive(Debug, Clone, PartialEq, Eq)]
pub struct MonitorInfo {
    pub index: usize,
    pub id: u32,
    pub x: i32,
    pub y: i32,
    pub width: u32,
    pub height: u32,
    pub is_primary: bool,
    pub scale_factor_percent: u32,
}

/// The point (px, py) lies in the half-open rectangle
/// [x, x+width) x [y, y+height) of monitor m.
pub open spec fn monitor_contains_point(m: MonitorInfo, px: int, py: int) -> bool {
    &&& m.x <= px < m.x + m.width
    &&& m.y <= py < m.y + m.height
}

/// Index of the first monitor (in enumeration order) whose rectangle
/// contains the point; `None` when the point lies outside every monitor.
pub fn monitor_at_point(monitors: &Vec<MonitorInfo>, x: i32, y: i32) -> (r: Option<usize>)
    ensures
        r is None ==> forall|j: int|
            0 <= j < monitors@.len() ==> !monitor_contains_point(monitors@[j], x as int, y as int),
        r matches Some(i) ==> {
            &&& i < monitors@.len()
            &&& monitor_contains_point(monitors@[i as int], x as int, y as int)
            &&& forall|j: int| 0 <= j < i ==> !monitor_contains_point(monitors@[j], x as int, y as int)
        },
{
    let mut i: usize = 0;
    while i < monitors.len()
        invariant
            i <= monitors@.len(),
            forall|j: int|
                0 <= j < i ==> !monitor_contains_point(monitors@[j], x as int, y as int),
        decreases monitors@.len() - i,
    {
        let m = &monitors[i];
        if x >= m.x && (x as i64) < (m.x as i64) + (m.width as i64) && y >= m.y && (y as i64) < (m.y
            as i64) + (m.height as i64) {
            return Some(i);
        }
        i = i + 1;
    }
    None
}

/// Smallest axis-aligned rectangle covering every monitor's origin and
/// extent, as the half-open box [min_x, max_x) x [min_y, max_y).
#[derive(Debug, Clone, PartialEq, Eq)]
pub struct Bounds {
    pub min_x: i64,
    pub min_y: i64,
    pub max_x: i64,
    pub max_y: i64,
}

impl Bounds {
    /// Width of the box.
    pub open spec fn spec_width(self) -> int {
        self.max_x - self.min_x
    }

    /// Height of the box.
    pub open spec fn spec_height(self) -> int {
        self.max_y - self.min_y
    }
}

/// The box covers monitor m.
pub open spec fn bounds_cover(b: Bounds, m: MonitorInfo) -> bool {
    &&& b.min_x <= m.x
    &&& b.min_y <= m.y
    &&& m.x + m.width <= b.max_x
    &&& m.y + m.height <= b.max_y
}

/// b is the bounding box of the arrangement ms: it covers every monitor and
/// each of its four edges is attained by some monitor.
pub open spec fn is_bounding_box(b: Bounds, ms: Seq<MonitorInfo>) -> bool {
    &&& forall|j: int| 0 <= j < ms.len() ==> bounds_cover(b, #[trigger] ms[j])
    &&& exists|j: int| 0 <= j < ms.len() && (#[trigger] ms[j]).x == b.min_x
    &&& exists|j: int| 0 <= j < ms.len() && (#[trigger] ms[j]).y == b.min_y
    &&& exists|j: int| 0 <= j < ms.len() && (#[trigger] ms[j]).x + ms[j].width == b.max_x
    &&& exists|j: int| 0 <= j < ms.len() && (#[trigger] ms[j]).y + ms[j].height == b.max_y
}

/// Shared head of every capture entry point: rejects an empty monitor list
/// with `NoScreens`, applies the default index 0, and rejects an index out
/// of range with `MonitorNotFound`.
pub fn select_monitor(monitors: &Vec<MonitorInfo>, monitor_index: Option<usize>) -> (r: Result<
    usize,
    AppError,
>)
    ensures
        monitors@.len() == 0 <==> r == Err::<usize, AppError>(AppError::NoScreens),
        monitors@.len() > 0 ==> {
            let idx = if monitor_index is Some {
                monitor_index->Some_0 as int
            } else {
                0
            };
            if idx < monitors@.len() {
                r == Ok::<usize, AppError>(idx as usize)
            } else {
                r == Err::<usize, AppError>(AppError::MonitorNotFound { index: idx as usize })
            }
        },
{
    if monitors.len() == 0 {
        return Err(AppError::NoScreens);
    }
    let idx = match monitor_index {
        Some(i) => i,
        None => 0,
    };
    if idx < monitors.len() {
        Ok(idx)
    } else {
        Err(AppError::MonitorNotFound { index: idx })
    }
}

} // verus!
