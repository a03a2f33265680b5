use multitoon::config::WindowTarget;
use multitoon::key::Key;
use multitoon::platform::linux::{
    border_bars, clamp_label, keycode_for_keysym, label_bar, rect_contains_point, x11_window,
};
use multitoon::platform::macos::owning_pid;
use multitoon::platform::windows::{key_message_lparam, window_handle};
use multitoon::platform::{is_game_window_title, lowered_title_matches, str_contains};

#[test]
fn game_titles_match_case_insensitively() {
    assert!(is_game_window_title("Toontown Rewritten"));
    assert!(is_game_window_title("TOONTOWN"));
    assert!(is_game_window_title("my toontown window"));
    assert!(!is_game_window_title("Toon Town"));
    assert!(!is_game_window_title(""));
    assert!(lowered_title_matches("toontown online"));
    assert!(!lowered_title_matches("TOONTOWN"));
}

#[test]
fn substring_search() {
    assert!(str_contains("abcabd", "abd"));
    assert!(!str_contains("abcab", "abd"));
    assert!(str_contains("anything", ""));
    assert!(!str_contains("ab", "abc"));
}

#[test]
fn key_message_lparam_encodes_press_and_release() {
    assert_eq!(key_message_lparam(Key::W, 0x11, true), 0x0011_0001);
    assert_eq!(key_message_lparam(Key::W, 0x11, false), 0xC011_0001);
    assert_eq!(key_message_lparam(Key::ArrowUp, 0x48, true), 0x0148_0001);
    assert_eq!(key_message_lparam(Key::ArrowUp, 0x48, false), 0xC148_0001);
    // Only the low byte of the mapped scan code is kept.
    assert_eq!(key_message_lparam(Key::A, 0x1E1E, true), 0x001E_0001);
}

#[test]
fn targets_name_their_platform_handles() {
    let linux = WindowTarget::Linux { window_id: 7 };
    let mac = WindowTarget::MacOs {
        pid: 99,
        window_id: 3,
    };
    let win = WindowTarget::Windows { hwnd: -5 };
    assert_eq!(x11_window(&linux), Some(7));
    assert_eq!(x11_window(&mac), None);
    assert_eq!(owning_pid(&mac), Some(99));
    assert_eq!(owning_pid(&win), None);
    assert_eq!(window_handle(&win), Some(-5));
    assert_eq!(window_handle(&linux), None);
}

#[test]
fn rectangle_contains_point_with_exclusive_far_edges() {
    let rect = (10, 20, 100, 50);
    assert!(rect_contains_point(rect, (10, 20)));
    assert!(rect_contains_point(rect, (109, 69)));
    assert!(!rect_contains_point(rect, (110, 30)));
    assert!(!rect_contains_point(rect, (50, 70)));
    assert!(!rect_contains_point(rect, (9, 30)));
    assert!(rect_contains_point((-5, -5, 10, 10), (0, 0)));
}

#[test]
fn keycode_search_uses_first_match_and_group_width() {
    // Two keysyms per keycode, keycodes starting at 8.
    let keysyms = vec![0x61, 0x41, 0x62, 0x42, 0x63, 0x43, 0x62, 0x00];
    assert_eq!(keycode_for_keysym(8, 2, &keysyms, 0x62), Some(9));
    assert_eq!(keycode_for_keysym(8, 2, &keysyms, 0x43), Some(10));
    assert_eq!(keycode_for_keysym(8, 2, &keysyms, 0xFF), None);
    assert_eq!(keycode_for_keysym(8, 0, &keysyms, 0xFF), None);
}

#[test]
fn labels_are_clamped_to_forty_characters() {
    assert_eq!(clamp_label("Toon 1"), "Toon 1");
    let long: String = "é".repeat(45);
    let clamped = clamp_label(&long);
    assert_eq!(clamped.chars().count(), 40);
    assert_eq!(clamped, "é".repeat(40));
    assert_eq!(clamp_label(&"x".repeat(40)), "x".repeat(40));
}

#[test]
fn overlay_geometry() {
    let bars = border_bars(100, 200, 640, 480);
    assert_eq!(bars[0], (100, 200, 640, 3));
    assert_eq!(bars[1], (100, 677, 640, 3));
    assert_eq!(bars[2], (100, 200, 3, 480));
    assert_eq!(bars[3], (737, 200, 3, 480));
    let thin = border_bars(0, 0, 2, 1);
    assert_eq!(thin[1], (0, 0, 2, 3));
    assert_eq!(thin[3], (0, 0, 3, 1));
    assert_eq!(label_bar(100, 200, 6), (105, 205, 44, 16));
}
