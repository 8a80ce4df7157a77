use flicker::errors::AppError;
use flicker::frame::{Frame, Pixel};
use flicker::naming::{CaptureKind, Timestamp};
use flicker::persist::{encode_frame_png, plan_save, plan_save_now, to_rgba_bytes};

fn two_by_two() -> Frame {
    Frame {
        width: 2,
        height: 2,
        rows: vec![
            vec![Pixel { r: 1, g: 2, b: 3, a: 4 }, Pixel { r: 5, g: 6, b: 7, a: 8 }],
            vec![Pixel { r: 9, g: 10, b: 11, a: 12 }, Pixel { r: 13, g: 14, b: 15, a: 16 }],
        ],
    }
}

fn ts() -> Timestamp {
    Timestamp { year: 2025, month: 6, day: 7, hour: 8, minute: 9, second: 10 }
}

#[test]
fn bytes_are_rgba_row_major() {
    let bytes = to_rgba_bytes(&two_by_two());
    assert_eq!(bytes, (1..=16).collect::<Vec<u8>>());
}

#[test]
fn png_round_trips_through_a_decoder() {
    let f = two_by_two();
    let png = encode_frame_png(&f).unwrap();
    assert_eq!(&png[..8], &[0x89, b'P', b'N', b'G', 0x0d, 0x0a, 0x1a, 0x0a]);
    let decoded = image::load_from_memory(&png).unwrap().to_rgba8();
    assert_eq!(decoded.width(), 2);
    assert_eq!(decoded.height(), 2);
    assert_eq!(decoded.into_raw(), to_rgba_bytes(&f));
}

#[test]
fn empty_frame_cannot_be_encoded() {
    let f = Frame { width: 0, height: 0, rows: vec![] };
    assert!(matches!(encode_frame_png(&f), Err(AppError::IoError { .. })));
}

#[test]
fn save_plan_names_the_file_under_the_directory() {
    let p = plan_save("/pics/Flicker Screenshots", CaptureKind::All, ts(), 0xabc12345, &two_by_two())
        .unwrap();
    assert_eq!(p.file_name, "screenshot_all_20250607_080910_abc12345.png");
    assert_eq!(
        p.path,
        "/pics/Flicker Screenshots/screenshot_all_20250607_080910_abc12345.png"
    );
    assert!(!p.png.is_empty());
}

#[test]
fn save_plan_now_uses_a_fresh_name() {
    match plan_save_now(&two_by_two(), CaptureKind::Single) {
        Ok(p) => {
            assert!(p.file_name.starts_with("screenshot_"));
            assert!(p.file_name.ends_with(".png"));
            assert!(p.path.ends_with(&format!("/Flicker Screenshots/{}", p.file_name)));
            assert!(!p.png.is_empty());
            let again = plan_save_now(&two_by_two(), CaptureKind::Single).unwrap();
            assert_ne!(p.file_name, again.file_name);
        }
        Err(e) => assert_eq!(e, AppError::DirectoryUnavailable),
    }
}
