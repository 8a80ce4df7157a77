use flicker::naming::{make_filename, now_timestamp, CaptureKind, Timestamp};
use flicker::paths::{
    file_name_of, icon_candidates, join_path, resolve_screenshots_dir, screenshots_dir,
    str_ends_with,
};
use flicker::errors::AppError;

fn ts(year: u16, month: u8, day: u8, hour: u8, minute: u8, second: u8) -> Timestamp {
    Timestamp { year, month, day, hour, minute, second }
}

/// The shape screenshot(_all)?_ + 8 digits + _ + 6 digits + _ + 8 lowercase
/// hex digits + .png, checked by hand.
fn is_screenshot_name(name: &str) -> bool {
    let rest = match name.strip_prefix("screenshot") {
        Some(r) => r,
        None => return false,
    };
    let rest = rest.strip_prefix("_all").unwrap_or(rest);
    let chars: Vec<char> = rest.chars().collect();
    if chars.len() != 29 {
        return false;
    }
    if chars[0] != '_' || chars[9] != '_' || chars[16] != '_' {
        return false;
    }
    let digits = chars[1..9].iter().chain(chars[10..16].iter());
    if !digits.clone().all(|c| c.is_ascii_digit()) {
        return false;
    }
    if !chars[17..25]
        .iter()
        .all(|c| c.is_ascii_digit() || ('a'..='f').contains(c))
    {
        return false;
    }
    rest.ends_with(".png")
}

#[test]
fn filename_for_a_single_capture() {
    let name = make_filename(CaptureKind::Single, ts(2025, 1, 2, 3, 4, 5), 0x00ff00ff);
    assert_eq!(name, "screenshot_20250102_030405_00ff00ff.png");
    assert!(is_screenshot_name(&name));
}

#[test]
fn filename_for_a_combined_capture() {
    let name = make_filename(CaptureKind::All, ts(1999, 12, 31, 23, 59, 58), 0xdeadbeef);
    assert_eq!(name, "screenshot_all_19991231_235958_deadbeef.png");
    assert!(is_screenshot_name(&name));
}

#[test]
fn filename_pads_small_fields_with_zeros() {
    let name = make_filename(CaptureKind::Single, ts(7, 1, 1, 0, 0, 0), 0);
    assert_eq!(name, "screenshot_00070101_000000_00000000.png");
}

#[test]
fn current_timestamp_fields_are_in_range() {
    let t = now_timestamp();
    assert!(t.year < 10000);
    assert!((1..=12).contains(&t.month));
    assert!((1..=31).contains(&t.day));
    assert!(t.hour < 24);
    assert!(t.minute < 60);
    assert!(t.second < 60);
}

#[test]
fn join_path_inserts_one_separator() {
    assert_eq!(join_path("/home/u/Pictures", "shot.png"), "/home/u/Pictures/shot.png");
}

#[test]
fn screenshots_dir_prefers_pictures_over_home() {
    assert_eq!(
        resolve_screenshots_dir(Some("/p".to_string()), Some("/h".to_string())),
        Ok("/p/Flicker Screenshots".to_string())
    );
    assert_eq!(
        resolve_screenshots_dir(None, Some("/h".to_string())),
        Ok("/h/Flicker Screenshots".to_string())
    );
    assert_eq!(
        resolve_screenshots_dir(None, None),
        Err(AppError::DirectoryUnavailable)
    );
}

#[test]
fn machine_screenshots_dir_ends_with_the_folder() {
    match screenshots_dir() {
        Ok(d) => assert!(d.ends_with("/Flicker Screenshots")),
        Err(e) => assert_eq!(e, AppError::DirectoryUnavailable),
    }
}

#[test]
fn file_name_is_the_part_after_the_last_slash() {
    assert_eq!(file_name_of("/a/b/c.png"), Some("c.png".to_string()));
    assert_eq!(file_name_of("c.png"), Some("c.png".to_string()));
    assert_eq!(file_name_of("/a/b/"), None);
    assert_eq!(file_name_of(""), None);
    assert_eq!(file_name_of("/a/."), None);
    assert_eq!(file_name_of("/a/.."), None);
    assert_eq!(file_name_of("/a/..."), Some("...".to_string()));
}

#[test]
fn ends_with_checks_the_suffix() {
    assert!(str_ends_with("/home/u/src-tauri", "/src-tauri"));
    assert!(!str_ends_with("/home/u/src", "/src-tauri"));
    assert!(str_ends_with("abc", ""));
    assert!(!str_ends_with("c", "abc"));
}

#[test]
fn icon_candidates_in_probing_order() {
    let c = icon_candidates(Some("/res"), Some("/home/u/proj"));
    assert_eq!(
        c,
        vec![
            "/res/icons/icon.png".to_string(),
            "/home/u/proj/src-tauri/icons/icon.png".to_string(),
            "/home/u/proj/public/icon.png".to_string(),
        ]
    );
}

#[test]
fn icon_candidates_inside_the_source_tree() {
    let c = icon_candidates(None, Some("/home/u/proj/src-tauri"));
    assert_eq!(
        c,
        vec![
            "/home/u/proj/src-tauri/src-tauri/icons/icon.png".to_string(),
            "/home/u/proj/src-tauri/public/icon.png".to_string(),
            "/home/u/proj/src-tauri/icons/icon.png".to_string(),
        ]
    );
    assert_eq!(icon_candidates(None, None), Vec::<String>::new());
}
