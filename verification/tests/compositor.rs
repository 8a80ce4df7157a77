use flicker::errors::AppError;
use flicker::frame::{
    bounding_box, capture_region_from_frame, compose_all, crop, Frame, Pixel,
};
use flicker::monitors::MonitorInfo;

fn mon(index: usize, x: i32, y: i32, width: u32, height: u32) -> MonitorInfo {
    MonitorInfo {
        index,
        id: index as u32 + 1,
        x,
        y,
        width,
        height,
        is_primary: index == 0,
        scale_factor_percent: 100,
    }
}

fn px(v: u8) -> Pixel {
    Pixel { r: v, g: v, b: v, a: 255 }
}

/// A width x height frame whose pixel at (x, y) is px(seed + y * width + x).
fn patterned(width: u32, height: u32, seed: u8) -> Frame {
    let mut rows = Vec::new();
    for y in 0..height {
        let mut row = Vec::new();
        for x in 0..width {
            row.push(px(seed.wrapping_add((y * width + x) as u8)));
        }
        rows.push(row);
    }
    Frame { width, height, rows }
}

#[test]
fn new_frame_is_transparent_black() {
    let f = Frame::new(3, 2);
    assert_eq!(f.width, 3);
    assert_eq!(f.height, 2);
    assert_eq!(f.rows.len(), 2);
    for row in &f.rows {
        assert_eq!(row.len(), 3);
        for p in row {
            assert_eq!(*p, Pixel { r: 0, g: 0, b: 0, a: 0 });
        }
    }
}

#[test]
fn crop_has_exactly_the_requested_dimensions() {
    let f = patterned(4, 4, 0);
    let c = crop(&f, 1, 2, 2, 1);
    assert_eq!(c.width, 2);
    assert_eq!(c.height, 1);
    assert_eq!(c.rows[0][0], f.rows[2][1]);
    assert_eq!(c.rows[0][1], f.rows[2][2]);
}

#[test]
fn region_within_bounds_is_captured_exactly() {
    let f = patterned(4, 4, 10);
    let r = capture_region_from_frame(&f, 1, 1, 2, 2).unwrap();
    assert_eq!(r.width, 2);
    assert_eq!(r.height, 2);
    for y in 0..2usize {
        for x in 0..2usize {
            assert_eq!(r.rows[y][x], f.rows[y + 1][x + 1]);
        }
    }
}

#[test]
fn region_leaving_the_frame_is_rejected() {
    let f = patterned(4, 4, 0);
    assert!(matches!(
        capture_region_from_frame(&f, 3, 3, 2, 2),
        Err(AppError::CaptureFailed { .. })
    ));
    assert!(matches!(
        capture_region_from_frame(&f, -1, 0, 2, 2),
        Err(AppError::CaptureFailed { .. })
    ));
}

#[test]
fn bounding_box_spans_all_monitors() {
    let monitors = vec![mon(0, -10, 5, 20, 15), mon(1, 30, -5, 10, 40)];
    let b = bounding_box(&monitors);
    assert_eq!(b.min_x, -10);
    assert_eq!(b.min_y, -5);
    assert_eq!(b.max_x, 40);
    assert_eq!(b.max_y, 35);
}

#[test]
fn compositor_dimensions_follow_the_bounding_box() {
    let monitors = vec![mon(0, 0, 0, 3, 2), mon(1, 3, 0, 2, 4)];
    let frames = vec![patterned(3, 2, 0), patterned(2, 4, 100)];
    let out = compose_all(&monitors, &frames).unwrap();
    assert_eq!(out.width, 5);
    assert_eq!(out.height, 4);
}

#[test]
fn single_monitor_composite_is_pixel_identical() {
    let monitors = vec![mon(0, 100, 50, 3, 3)];
    let frames = vec![patterned(3, 3, 7)];
    let out = compose_all(&monitors, &frames).unwrap();
    assert_eq!(out.width, 3);
    assert_eq!(out.height, 3);
    for y in 0..3usize {
        for x in 0..3usize {
            assert_eq!(out.rows[y][x], frames[0].rows[y][x]);
        }
    }
}

#[test]
fn gaps_between_monitors_stay_transparent() {
    let monitors = vec![mon(0, 0, 0, 1, 1), mon(1, 2, 0, 1, 1)];
    let frames = vec![patterned(1, 1, 1), patterned(1, 1, 2)];
    let out = compose_all(&monitors, &frames).unwrap();
    assert_eq!(out.width, 3);
    assert_eq!(out.height, 1);
    assert_eq!(out.rows[0][0], frames[0].rows[0][0]);
    assert_eq!(out.rows[0][1], Pixel { r: 0, g: 0, b: 0, a: 0 });
    assert_eq!(out.rows[0][2], frames[1].rows[0][0]);
}

#[test]
fn overlapping_monitors_last_one_wins() {
    let monitors = vec![mon(0, 0, 0, 2, 1), mon(1, 1, 0, 2, 1)];
    let frames = vec![patterned(2, 1, 10), patterned(2, 1, 200)];
    let out = compose_all(&monitors, &frames).unwrap();
    assert_eq!(out.width, 3);
    assert_eq!(out.height, 1);
    assert_eq!(out.rows[0][0], frames[0].rows[0][0]);
    assert_eq!(out.rows[0][1], frames[1].rows[0][0]);
    assert_eq!(out.rows[0][2], frames[1].rows[0][1]);
}

#[test]
fn oversized_arrangement_is_rejected() {
    let monitors = vec![mon(0, i32::MIN, 0, 10, 10), mon(1, i32::MAX - 9, 0, 10, 10)];
    let frames = vec![patterned(10, 10, 0), patterned(10, 10, 1)];
    assert!(matches!(
        compose_all(&monitors, &frames),
        Err(AppError::CaptureFailed { .. })
    ));
}

#[test]
fn empty_arrangement_is_no_screens() {
    let monitors: Vec<MonitorInfo> = Vec::new();
    let frames: Vec<Frame> = Vec::new();
    assert_eq!(compose_all(&monitors, &frames), Err(AppError::NoScreens));
}
