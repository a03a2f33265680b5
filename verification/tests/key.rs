use multitoon::key::Key;

#[test]
fn all_keys_are_listed_once_in_display_order() {
    let keys = Key::all();
    assert_eq!(keys.len(), 63);
    assert_eq!(keys[0], Key::A);
    assert_eq!(keys[25], Key::Z);
    assert_eq!(keys[26], Key::Num0);
    assert_eq!(keys[36], Key::F1);
    assert_eq!(keys[48], Key::ArrowUp);
    assert_eq!(keys[62], Key::Backspace);
    for (i, a) in keys.iter().enumerate() {
        for b in keys.iter().skip(i + 1) {
            assert_ne!(a, b);
        }
    }
}

#[test]
fn windows_codes_follow_ascii_and_vk_constants() {
    assert_eq!(Key::A.to_windows_vk(), 0x41);
    assert_eq!(Key::Z.to_windows_vk(), 0x5A);
    assert_eq!(Key::Num0.to_windows_vk(), 0x30);
    assert_eq!(Key::Num9.to_windows_vk(), 0x39);
    assert_eq!(Key::F1.to_windows_vk(), 0x70);
    assert_eq!(Key::F12.to_windows_vk(), 0x7B);
    assert_eq!(Key::ArrowLeft.to_windows_vk(), 0x25);
    assert_eq!(Key::Enter.to_windows_vk(), 0x0D);
    assert_eq!(Key::Backspace.to_windows_vk(), 0x08);
}

#[test]
fn extended_keys_are_arrows_and_navigation_block() {
    let extended: Vec<Key> = Key::all()
        .into_iter()
        .filter(|key| key.is_windows_extended())
        .collect();
    assert_eq!(
        extended,
        vec![
            Key::ArrowUp,
            Key::ArrowDown,
            Key::ArrowLeft,
            Key::ArrowRight,
            Key::Home,
            Key::End,
            Key::PageUp,
            Key::PageDown,
            Key::Insert,
            Key::Delete
        ]
    );
}

#[test]
fn macos_codes_match_ansi_layout() {
    assert_eq!(Key::A.to_macos_keycode(), 0x00);
    assert_eq!(Key::W.to_macos_keycode(), 0x0D);
    assert_eq!(Key::Num0.to_macos_keycode(), 0x1D);
    assert_eq!(Key::F1.to_macos_keycode(), 0x7A);
    assert_eq!(Key::ArrowUp.to_macos_keycode(), 0x7E);
    assert_eq!(Key::Space.to_macos_keycode(), 0x31);
}

#[test]
fn x11_keysyms_follow_latin1_and_xk_constants() {
    assert_eq!(Key::A.to_x11_keysym(), 0x61);
    assert_eq!(Key::Z.to_x11_keysym(), 0x7A);
    assert_eq!(Key::Num5.to_x11_keysym(), 0x35);
    assert_eq!(Key::F1.to_x11_keysym(), 0xFFBE);
    assert_eq!(Key::F12.to_x11_keysym(), 0xFFC9);
    assert_eq!(Key::Delete.to_x11_keysym(), 0xFFFF);
    assert_eq!(Key::Space.to_x11_keysym(), 0x20);
}

#[test]
fn codes_are_distinct_on_every_backend() {
    let keys = Key::all();
    for (i, a) in keys.iter().enumerate() {
        for b in keys.iter().skip(i + 1) {
            assert_ne!(a.to_windows_vk(), b.to_windows_vk());
            assert_ne!(a.to_macos_keycode(), b.to_macos_keycode());
            assert_ne!(a.to_x11_keysym(), b.to_x11_keysym());
        }
    }
}

#[test]
fn labels_strip_the_num_prefix() {
    assert_eq!(Key::Num0.to_string(), "0");
    assert_eq!(Key::Num7.to_string(), "7");
    assert_eq!(Key::W.to_string(), "W");
    assert_eq!(Key::PageUp.to_string(), "PageUp");
    assert_eq!(Key::F10.to_string(), "F10");
    assert_eq!(Key::ArrowDown.variant_name(), "ArrowDown");
}

#[test]
fn variant_names_read_back_as_their_keys() {
    for key in Key::all() {
        assert_eq!(Key::from_variant_name(key.variant_name()), Some(key));
    }
    assert_eq!(Key::from_variant_name("PageUp"), Some(Key::PageUp));
    assert_eq!(Key::from_variant_name("pageup"), None);
    assert_eq!(Key::from_variant_name(""), None);
}
