use flicker::monitors::{monitor_at_point, select_monitor, MonitorInfo};
use flicker::errors::AppError;

fn mon(index: usize, x: i32, y: i32, width: u32, height: u32) -> MonitorInfo {
    MonitorInfo {
        index,
        id: index as u32 + 1,
        x,
        y,
        width,
        height,
        is_primary: index == 0,
        scale_factor_percent: 100,
    }
}

#[test]
fn point_inside_first_monitor() {
    let monitors = vec![mon(0, 0, 0, 1920, 1080), mon(1, 1920, 0, 1280, 1024)];
    assert_eq!(monitor_at_point(&monitors, 5, 5), Some(0));
    assert_eq!(monitor_at_point(&monitors, 0, 0), Some(0));
    assert_eq!(monitor_at_point(&monitors, 1919, 1079), Some(0));
}

#[test]
fn point_inside_second_monitor() {
    let monitors = vec![mon(0, 0, 0, 1920, 1080), mon(1, 1920, 0, 1280, 1024)];
    assert_eq!(monitor_at_point(&monitors, 1920, 0), Some(1));
    assert_eq!(monitor_at_point(&monitors, 3199, 1023), Some(1));
}

#[test]
fn point_outside_every_monitor_is_none() {
    let monitors = vec![mon(0, 0, 0, 1920, 1080), mon(1, 1920, 0, 1280, 1024)];
    assert_eq!(monitor_at_point(&monitors, -1, 0), None);
    assert_eq!(monitor_at_point(&monitors, 3200, 0), None);
    assert_eq!(monitor_at_point(&monitors, 0, 1080), None);
    assert_eq!(monitor_at_point(&monitors, 1920, 1024), None);
}

#[test]
fn overlapping_monitors_first_match_wins() {
    let monitors = vec![mon(0, 0, 0, 100, 100), mon(1, 50, 50, 100, 100)];
    assert_eq!(monitor_at_point(&monitors, 60, 60), Some(0));
    assert_eq!(monitor_at_point(&monitors, 120, 120), Some(1));
}

#[test]
fn no_monitors_means_no_match() {
    let monitors: Vec<MonitorInfo> = Vec::new();
    assert_eq!(monitor_at_point(&monitors, 0, 0), None);
}

#[test]
fn monitor_with_negative_origin() {
    let monitors = vec![mon(0, -1920, -100, 1920, 1080)];
    assert_eq!(monitor_at_point(&monitors, -1, -1), Some(0));
    assert_eq!(monitor_at_point(&monitors, 0, 0), None);
}

#[test]
fn select_monitor_rejects_empty_list() {
    let monitors: Vec<MonitorInfo> = Vec::new();
    assert_eq!(select_monitor(&monitors, None), Err(AppError::NoScreens));
    assert_eq!(select_monitor(&monitors, Some(0)), Err(AppError::NoScreens));
}

#[test]
fn select_monitor_defaults_to_first() {
    let monitors = vec![mon(0, 0, 0, 10, 10), mon(1, 10, 0, 10, 10)];
    assert_eq!(select_monitor(&monitors, None), Ok(0));
    assert_eq!(select_monitor(&monitors, Some(1)), Ok(1));
}

#[test]
fn select_monitor_rejects_out_of_range_index() {
    let monitors = vec![mon(0, 0, 0, 10, 10)];
    assert_eq!(
        select_monitor(&monitors, Some(3)),
        Err(AppError::MonitorNotFound { index: 3 })
    );
}
