use base64::Engine;

use loopie::capture::capture_begin;
use loopie::capture::capture_failed_message;
use loopie::capture::capture_finish;
use loopie::capture::capturing_line;
use loopie::capture::dimensions_line;
use loopie::capture::invalid_png_message;
use loopie::capture::read_failed_message;
use loopie::capture::save_failed_message;
use loopie::capture::temp_file_name;
use loopie::capture::validate_png;
use loopie::display::select_display;
use loopie::display::DisplayInfo;
use loopie::info::get_screen_info;

fn display(width: u32, height: u32, x: i32, y: i32, is_primary: bool) -> DisplayInfo {
    DisplayInfo { width, height, x, y, is_primary }
}

#[test]
fn info_empty_enumeration() {
    let r = get_screen_info(Ok(vec![]));
    assert_eq!(r, Ok("Found 0 screen(s):\n".to_string()));
}

#[test]
fn info_two_screens_exact() {
    let screens = vec![display(2560, 1440, 1920, 0, true), display(1920, 1080, 0, 0, false)];
    let r = get_screen_info(Ok(screens)).unwrap();
    assert_eq!(
        r,
        "Found 2 screen(s):\n\
         Screen 1: 2560x1440 at (1920, 0) - Primary: true\n\
         Screen 2: 1920x1080 at (0, 0) - Primary: false\n"
    );
}

#[test]
fn info_line_structure() {
    let screens = vec![
        display(800, 600, 0, 0, false),
        display(1024, 768, -800, 5, true),
        display(640, 480, 100, -200, false),
    ];
    let r = get_screen_info(Ok(screens)).unwrap();
    assert!(r.ends_with('\n'));
    let lines: Vec<&str> = r.lines().collect();
    assert_eq!(lines.len(), 4);
    assert_eq!(lines[0], "Found 3 screen(s):");
    for i in 1..=3 {
        assert!(!lines[i].is_empty());
        assert!(lines[i].starts_with(&format!("Screen {}: ", i)));
    }
}

#[test]
fn info_enumeration_error() {
    let r = get_screen_info(Err("permission denied".to_string()));
    assert_eq!(r, Err("Failed to get screens: permission denied".to_string()));
}

#[test]
fn info_idempotent_and_order_insensitive() {
    let a = vec![display(1920, 1080, 0, 0, true), display(2560, 1440, 1920, 0, false)];
    let b = vec![a[1], a[0]];
    let first = get_screen_info(Ok(a.clone())).unwrap();
    let again = get_screen_info(Ok(a)).unwrap();
    assert_eq!(first, again);
    let reordered = get_screen_info(Ok(b)).unwrap();
    assert_eq!(first.lines().next(), reordered.lines().next());
    let metadata = |s: &str| -> Vec<String> {
        let mut v: Vec<String> = s
            .lines()
            .skip(1)
            .map(|l| l.splitn(2, ": ").nth(1).unwrap().to_string())
            .collect();
        v.sort();
        v
    };
    assert_eq!(metadata(&first), metadata(&reordered));
}

#[test]
fn capture_enumeration_error() {
    let r = capture_begin(Err("permission denied".to_string()));
    assert_eq!(r, Err("Failed to get screens: permission denied".to_string()));
}

#[test]
fn capture_no_screens() {
    let r = capture_begin(Ok(vec![]));
    assert_eq!(r, Err("No screens found".to_string()));
}

#[test]
fn capture_prefers_primary() {
    let screens = vec![display(1920, 1080, 0, 0, false), display(2560, 1440, 1920, 0, true)];
    let idx = capture_begin(Ok(screens.clone())).unwrap();
    assert_eq!(idx, 1);
    assert_eq!(capturing_line(&screens[idx]), "Capturing screen: 2560x1440 at (1920, 0)");
}

#[test]
fn capture_falls_back_to_first() {
    let screens = vec![display(1920, 1080, 0, 0, false), display(2560, 1440, 1920, 0, false)];
    let idx = capture_begin(Ok(screens)).unwrap();
    assert_eq!(idx, 0);
}

#[test]
fn select_display_cases() {
    assert_eq!(select_display(&vec![]), None);
    let only = vec![display(1920, 1080, 0, 0, true)];
    assert_eq!(select_display(&only), Some(0));
    let mixed = vec![
        display(1, 1, 0, 0, false),
        display(2, 2, 0, 0, true),
        display(3, 3, 0, 0, true),
    ];
    assert_eq!(select_display(&mixed), Some(1));
}

#[test]
fn capture_failure_message() {
    let m = capture_failed_message("surface lost");
    assert_eq!(m, "Failed to capture screen: surface lost");
    assert!(!m.is_empty());
}

#[test]
fn save_and_read_failure_messages() {
    assert_eq!(save_failed_message("disk full"), "Failed to save screenshot: disk full");
    assert_eq!(
        read_failed_message("file vanished"),
        "Failed to read screenshot file: file vanished"
    );
}

#[test]
fn capture_finish_round_trip() {
    let mut png = vec![0x89u8, 0x50, 0x4e, 0x47, 0x0d, 0x0a, 0x1a, 0x0a];
    png.extend_from_slice(&[0, 0, 0, 13, 73, 72, 68, 82]);
    let (url, line) = capture_finish(png.clone()).unwrap();
    assert!(url.starts_with("data:image/png;base64,"));
    let payload = &url["data:image/png;base64,".len()..];
    let decoded = base64::engine::general_purpose::STANDARD.decode(payload).unwrap();
    assert_eq!(decoded, png);
    assert!(decoded.len() >= 8);
    assert_eq!(&decoded[0..8], &[0x89, 0x50, 0x4e, 0x47, 0x0d, 0x0a, 0x1a, 0x0a]);
    assert_eq!(
        line,
        format!(
            "Screenshot encoded successfully, PNG size: {} bytes, base64 length: {}",
            png.len(),
            payload.len()
        )
    );
}

#[test]
fn capture_finish_signature_only_exact() {
    let png = vec![0x89u8, 0x50, 0x4e, 0x47, 0x0d, 0x0a, 0x1a, 0x0a];
    let (url, line) = capture_finish(png).unwrap();
    assert_eq!(url, "data:image/png;base64,iVBORw0KGgo=");
    assert_eq!(line, "Screenshot encoded successfully, PNG size: 8 bytes, base64 length: 12");
}

#[test]
fn capture_finish_invalid_short() {
    let r = capture_finish(vec![1, 2, 3]);
    assert_eq!(r, Err("Invalid PNG data generated. First 8 bytes: [1, 2, 3]".to_string()));
}

#[test]
fn capture_finish_invalid_long() {
    let r = capture_finish(vec![137, 80, 78, 71, 13, 10, 26, 11, 0, 0]);
    assert_eq!(
        r,
        Err("Invalid PNG data generated. First 8 bytes: [137, 80, 78, 71, 13, 10, 26, 11]"
            .to_string())
    );
}

#[test]
fn capture_finish_invalid_empty() {
    let r = capture_finish(vec![]);
    assert_eq!(r, Err("Invalid PNG data generated. First 8 bytes: []".to_string()));
}

#[test]
fn validate_png_checks_signature() {
    assert!(validate_png(&vec![0x89, 0x50, 0x4e, 0x47, 0x0d, 0x0a, 0x1a, 0x0a]));
    assert!(validate_png(&vec![0x89, 0x50, 0x4e, 0x47, 0x0d, 0x0a, 0x1a, 0x0a, 99]));
    assert!(!validate_png(&vec![0x89, 0x50, 0x4e, 0x47, 0x0d, 0x0a, 0x1a]));
    assert!(!validate_png(&vec![0x88, 0x50, 0x4e, 0x47, 0x0d, 0x0a, 0x1a, 0x0a]));
    assert!(!validate_png(&vec![]));
}

#[test]
fn invalid_png_message_lists_bytes() {
    assert_eq!(
        invalid_png_message(&vec![0, 255]),
        "Invalid PNG data generated. First 8 bytes: [0, 255]"
    );
}

#[test]
fn temp_file_name_parts() {
    let name = temp_file_name(1700000000123);
    assert_eq!(name, "loopie_screenshot_1700000000123.png");
    assert!(name.starts_with("loopie_screenshot_"));
    assert!(name.ends_with(".png"));
}

#[test]
fn diagnostic_lines() {
    assert_eq!(dimensions_line(2560, 1440), "Captured image dimensions: 2560x1440");
    let d = display(1920, 1080, -1920, -45, true);
    assert_eq!(capturing_line(&d), "Capturing screen: 1920x1080 at (-1920, -45)");
}
