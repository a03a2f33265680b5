//! Platform-neutral key identifiers and their per-platform codes.
//!
//! [`Key`] is the single currency the rest of the crate speaks. Every key has a
//! position in the display order ([`all_keys`]), a short label, and a code for each
//! of the three injection backends (Windows virtual keys, macOS `CGKeyCode`s, X11
//! keysyms). The spec functions below are the tables those codes are checked against.

use vstd::prelude::*;

verus! {

/// A keyboard key the controller understands, independent of any OS encoding.
///
/// The variant set is limited to the keys the game uses (movement, gag selection,
/// navigation) so that every variant has a known code on all three platforms.
#[derive(Debug, Clone, Copy, PartialEq, Eq, Structural, Hash)]
pub enum Key {
    A, B, C, D, E, F, G, H, I, J, K, L, M,
    N, O, P, Q, R, S, T, U, V, W, X, Y, Z,
    Num0, Num1, Num2, Num3, Num4,
    Num5, Num6, Num7, Num8, Num9,
    F1, F2, F3, F4, F5, F6,
    F7, F8, F9, F10, F11, F12,
    ArrowUp, ArrowDown, ArrowLeft, ArrowRight,
    Home, End, PageUp, PageDown, Insert, Delete,
    Space, Enter, Escape, Tab, Backspace,
}

/// The number of keys the controller can represent.
pub open spec fn key_count() -> int {
    63
}

/// The key at position `i` of the display order (letters, digits, function keys,
/// arrows, the navigation block, then the remaining editing keys).
pub open spec fn key_at(i: int) -> Key {
    if i == 0 {
        Key::A
    } else if i == 1 {
        Key::B
    } else if i == 2 {
        Key::C
    } else if i == 3 {
        Key::D
    } else if i == 4 {
        Key::E
    } else if i == 5 {
        Key::F
    } else if i == 6 {
        Key::G
    } else if i == 7 {
        Key::H
    } else if i == 8 {
        Key::I
    } else if i == 9 {
        Key::J
    } else if i == 10 {
        Key::K
    } else if i == 11 {
        Key::L
    } else if i == 12 {
        Key::M
    } else if i == 13 {
        Key::N
    } else if i == 14 {
        Key::O
    } else if i == 15 {
        Key::P
    } else if i == 16 {
        Key::Q
    } else if i == 17 {
        Key::R
    } else if i == 18 {
        Key::S
    } else if i == 19 {
        Key::T
    } else if i == 20 {
        Key::U
    } else if i == 21 {
        Key::V
    } else if i == 22 {
        Key::W
    } else if i == 23 {
        Key::X
    } else if i == 24 {
        Key::Y
    } else if i == 25 {
        Key::Z
    } else if i == 26 {
        Key::Num0
    } else if i == 27 {
        Key::Num1
    } else if i == 28 {
        Key::Num2
    } else if i == 29 {
        Key::Num3
    } else if i == 30 {
        Key::Num4
    } else if i == 31 {
        Key::Num5
    } else if i == 32 {
        Key::Num6
    } else if i == 33 {
        Key::Num7
    } else if i == 34 {
        Key::Num8
    } else if i == 35 {
        Key::Num9
    } else if i == 36 {
        Key::F1
    } else if i == 37 {
        Key::F2
    } else if i == 38 {
        Key::F3
    } else if i == 39 {
        Key::F4
    } else if i == 40 {
        Key::F5
    } else if i == 41 {
        Key::F6
    } else if i == 42 {
        Key::F7
    } else if i == 43 {
        Key::F8
    } else if i == 44 {
        Key::F9
    } else if i == 45 {
        Key::F10
    } else if i == 46 {
        Key::F11
    } else if i == 47 {
        Key::F12
    } else if i == 48 {
        Key::ArrowUp
    } else if i == 49 {
        Key::ArrowDown
    } else if i == 50 {
        Key::ArrowLeft
    } else if i == 51 {
        Key::ArrowRight
    } else if i == 52 {
        Key::Home
    } else if i == 53 {
        Key::End
    } else if i == 54 {
        Key::PageUp
    } else if i == 55 {
        Key::PageDown
    } else if i == 56 {
        Key::Insert
    } else if i == 57 {
        Key::Delete
    } else if i == 58 {
        Key::Space
    } else if i == 59 {
        Key::Enter
    } else if i == 60 {
        Key::Escape
    } else if i == 61 {
        Key::Tab
    } else {
        Key::Backspace
    }
}

/// The position of `key` in the display order.
pub open spec fn key_index(key: Key) -> int {
    match key {
        Key::A => 0, Key::B => 1, Key::C => 2, Key::D => 3, Key::E => 4, Key::F => 5,
        Key::G => 6, Key::H => 7, Key::I => 8, Key::J => 9, Key::K => 10, Key::L => 11,
        Key::M => 12, Key::N => 13, Key::O => 14, Key::P => 15, Key::Q => 16, Key::R => 17,
        Key::S => 18, Key::T => 19, Key::U => 20, Key::V => 21, Key::W => 22, Key::X => 23,
        Key::Y => 24, Key::Z => 25, Key::Num0 => 26, Key::Num1 => 27, Key::Num2 => 28, Key::Num3 => 29,
        Key::Num4 => 30, Key::Num5 => 31, Key::Num6 => 32, Key::Num7 => 33, Key::Num8 => 34, Key::Num9 => 35,
        Key::F1 => 36, Key::F2 => 37, Key::F3 => 38, Key::F4 => 39, Key::F5 => 40, Key::F6 => 41,
        Key::F7 => 42, Key::F8 => 43, Key::F9 => 44, Key::F10 => 45, Key::F11 => 46, Key::F12 => 47,
        Key::ArrowUp => 48, Key::ArrowDown => 49, Key::ArrowLeft => 50, Key::ArrowRight => 51, Key::Home => 52, Key::End => 53,
        Key::PageUp => 54, Key::PageDown => 55, Key::Insert => 56, Key::Delete => 57, Key::Space => 58, Key::Enter => 59,
        Key::Escape => 60, Key::Tab => 61, Key::Backspace => 62,
    }
}

/// Every key, in display order.
pub open spec fn all_keys() -> Seq<Key> {
    Seq::new(key_count() as nat, |i: int| key_at(i))
}

/// The Windows virtual-key code (`VK_*`) of a key: letters are their ASCII-uppercase
/// code, digits their ASCII code, `F1`..`F12` the contiguous block from `VK_F1`
/// (0x70); the remaining keys have their own `VK_*` constants.
pub open spec fn windows_vk(key: Key) -> u16 {
    let i = key_index(key);
    if i < 26 {
        (0x41 + i) as u16
    } else if i < 36 {
        (0x30 + (i - 26)) as u16
    } else if i < 48 {
        (0x70 + (i - 36)) as u16
    } else {
        match key {
            Key::ArrowUp => 0x26, Key::ArrowDown => 0x28, Key::ArrowLeft => 0x25, Key::ArrowRight => 0x27,
            Key::Home => 0x24, Key::End => 0x23, Key::PageUp => 0x21, Key::PageDown => 0x22,
            Key::Insert => 0x2D, Key::Delete => 0x2E, Key::Space => 0x20, Key::Enter => 0x0D,
            Key::Escape => 0x1B, Key::Tab => 0x09, Key::Backspace => 0x08,
            _ => 0,
        }
    }
}

/// The X11 keysym of a key: letters are their lowercase Latin-1 keysym, digits their
/// ASCII code, `F1`..`F12` the contiguous block from `XK_F1` (0xFFBE); the remaining
/// keys have their own `XK_*` keysyms.
pub open spec fn x11_keysym(key: Key) -> u32 {
    let i = key_index(key);
    if i < 26 {
        (0x61 + i) as u32
    } else if i < 36 {
        (0x30 + (i - 26)) as u32
    } else if i < 48 {
        (0xFFBE + (i - 36)) as u32
    } else {
        match key {
            Key::ArrowUp => 0xFF52, Key::ArrowDown => 0xFF54, Key::ArrowLeft => 0xFF51, Key::ArrowRight => 0xFF53,
            Key::Home => 0xFF50, Key::End => 0xFF57, Key::PageUp => 0xFF55, Key::PageDown => 0xFF56,
            Key::Insert => 0xFF63, Key::Delete => 0xFFFF, Key::Space => 0x0020, Key::Enter => 0xFF0D,
            Key::Escape => 0xFF1B, Key::Tab => 0xFF09, Key::Backspace => 0xFF08,
            _ => 0,
        }
    }
}

/// The macOS virtual key code (`kVK_ANSI_*` and friends) of a key on an ANSI layout.
pub open spec fn macos_keycode(key: Key) -> u16 {
    match key {
        Key::A => 0x00, Key::B => 0x0B, Key::C => 0x08, Key::D => 0x02, Key::E => 0x0E, Key::F => 0x03,
        Key::G => 0x05, Key::H => 0x04, Key::I => 0x22, Key::J => 0x26, Key::K => 0x28, Key::L => 0x25,
        Key::M => 0x2E, Key::N => 0x2D, Key::O => 0x1F, Key::P => 0x23, Key::Q => 0x0C, Key::R => 0x0F,
        Key::S => 0x01, Key::T => 0x11, Key::U => 0x20, Key::V => 0x09, Key::W => 0x0D, Key::X => 0x07,
        Key::Y => 0x10, Key::Z => 0x06, Key::Num0 => 0x1D, Key::Num1 => 0x12, Key::Num2 => 0x13, Key::Num3 => 0x14,
        Key::Num4 => 0x15, Key::Num5 => 0x17, Key::Num6 => 0x16, Key::Num7 => 0x1A, Key::Num8 => 0x1C, Key::Num9 => 0x19,
        Key::F1 => 0x7A, Key::F2 => 0x78, Key::F3 => 0x63, Key::F4 => 0x76, Key::F5 => 0x60, Key::F6 => 0x61,
        Key::F7 => 0x62, Key::F8 => 0x64, Key::F9 => 0x65, Key::F10 => 0x6D, Key::F11 => 0x67, Key::F12 => 0x6F,
        Key::ArrowUp => 0x7E, Key::ArrowDown => 0x7D, Key::ArrowLeft => 0x7B, Key::ArrowRight => 0x7C, Key::Home => 0x73, Key::End => 0x77,
        Key::PageUp => 0x74, Key::PageDown => 0x79, Key::Insert => 0x72, Key::Delete => 0x75, Key::Space => 0x31, Key::Enter => 0x24,
        Key::Escape => 0x35, Key::Tab => 0x30, Key::Backspace => 0x33,
    }
}

/// Whether a key is one of Windows' "extended" keys: the four arrows and the
/// six-key navigation block (display positions 48 up to 58).
pub open spec fn is_extended_key(key: Key) -> bool {
    48 <= key_index(key) < 58
}

/// The enum variant name of a key.
pub open spec fn variant_name(key: Key) -> Seq<char> {
    match key {
        Key::A => "A"@, Key::B => "B"@, Key::C => "C"@, Key::D => "D"@, Key::E => "E"@, Key::F => "F"@,
        Key::G => "G"@, Key::H => "H"@, Key::I => "I"@, Key::J => "J"@, Key::K => "K"@, Key::L => "L"@,
        Key::M => "M"@, Key::N => "N"@, Key::O => "O"@, Key::P => "P"@, Key::Q => "Q"@, Key::R => "R"@,
        Key::S => "S"@, Key::T => "T"@, Key::U => "U"@, Key::V => "V"@, Key::W => "W"@, Key::X => "X"@,
        Key::Y => "Y"@, Key::Z => "Z"@, Key::Num0 => "Num0"@, Key::Num1 => "Num1"@, Key::Num2 => "Num2"@, Key::Num3 => "Num3"@,
        Key::Num4 => "Num4"@, Key::Num5 => "Num5"@, Key::Num6 => "Num6"@, Key::Num7 => "Num7"@, Key::Num8 => "Num8"@, Key::Num9 => "Num9"@,
        Key::F1 => "F1"@, Key::F2 => "F2"@, Key::F3 => "F3"@, Key::F4 => "F4"@, Key::F5 => "F5"@, Key::F6 => "F6"@,
        Key::F7 => "F7"@, Key::F8 => "F8"@, Key::F9 => "F9"@, Key::F10 => "F10"@, Key::F11 => "F11"@, Key::F12 => "F12"@,
        Key::ArrowUp => "ArrowUp"@, Key::ArrowDown => "ArrowDown"@, Key::ArrowLeft => "ArrowLeft"@, Key::ArrowRight => "ArrowRight"@, Key::Home => "Home"@, Key::End => "End"@,
        Key::PageUp => "PageUp"@, Key::PageDown => "PageDown"@, Key::Insert => "Insert"@, Key::Delete => "Delete"@, Key::Space => "Space"@, Key::Enter => "Enter"@,
        Key::Escape => "Escape"@, Key::Tab => "Tab"@, Key::Backspace => "Backspace"@,
    }
}

/// Whether `s` starts with `prefix`.
pub open spec fn has_prefix(s: Seq<char>, prefix: Seq<char>) -> bool {
    prefix.len() <= s.len() && s.take(prefix.len() as int) == prefix
}

/// The short human label of a key: its variant name, with a leading `Num` stripped so
/// digit keys read `0`..`9`.
pub open spec fn key_label(key: Key) -> Seq<char> {
    let name = variant_name(key);
    if has_prefix(name, "Num"@) {
        name.skip(3)
    } else {
        name
    }
}

/// Position and key agree in both directions over the whole display order.
proof fn lemma_index_roundtrip()
    ensures
        forall|key: Key| 0 <= #[trigger] key_index(key) < key_count() && key_at(key_index(key)) == key,
        forall|i: int| 0 <= i < key_count() ==> key_index(#[trigger] key_at(i)) == i,
{
}

/// The display order lists every key exactly once.
pub proof fn lemma_all_keys_lists_each_key_once(key: Key)
    ensures
        all_keys().len() == key_count(),
        all_keys().contains(key),
        all_keys()[key_index(key)] == key,
        all_keys().no_duplicates(),
{
    lemma_index_roundtrip();
    assert forall|i: int, j: int| 0 <= i < all_keys().len() && 0 <= j < all_keys().len() && i != j
        implies all_keys()[i] != all_keys()[j] by {
        assert(key_index(key_at(i)) == i);
        assert(key_index(key_at(j)) == j);
    }
}

/// Distinct keys have distinct codes on every backend, so an injected code always
/// identifies the key it came from.
pub proof fn lemma_codes_identify_keys(a: Key, b: Key)
    ensures
        windows_vk(a) == windows_vk(b) ==> a == b,
        macos_keycode(a) == macos_keycode(b) ==> a == b,
        x11_keysym(a) == x11_keysym(b) ==> a == b,
{
    lemma_index_roundtrip();
}

/// Distinct keys have distinct variant names, so a saved key name reads back as the
/// key it was written from.
#[verifier::rlimit(100)]
pub proof fn lemma_variant_names_identify_keys(a: Key, b: Key)
    ensures
        variant_name(a) == variant_name(b) ==> a == b,
{
    reveal_strlit("A");
    reveal_strlit("B");
    reveal_strlit("C");
    reveal_strlit("D");
    reveal_strlit("E");
    reveal_strlit("F");
    reveal_strlit("G");
    reveal_strlit("H");
    reveal_strlit("I");
    reveal_strlit("J");
    reveal_strlit("K");
    reveal_strlit("L");
    reveal_strlit("M");
    reveal_strlit("N");
    reveal_strlit("O");
    reveal_strlit("P");
    reveal_strlit("Q");
    reveal_strlit("R");
    reveal_strlit("S");
    reveal_strlit("T");
    reveal_strlit("U");
    reveal_strlit("V");
    reveal_strlit("W");
    reveal_strlit("X");
    reveal_strlit("Y");
    reveal_strlit("Z");
    reveal_strlit("Num0");
    reveal_strlit("Num1");
    reveal_strlit("Num2");
    reveal_strlit("Num3");
    reveal_strlit("Num4");
    reveal_strlit("Num5");
    reveal_strlit("Num6");
    reveal_strlit("Num7");
    reveal_strlit("Num8");
    reveal_strlit("Num9");
    reveal_strlit("F1");
    reveal_strlit("F2");
    reveal_strlit("F3");
    reveal_strlit("F4");
    reveal_strlit("F5");
    reveal_strlit("F6");
    reveal_strlit("F7");
    reveal_strlit("F8");
    reveal_strlit("F9");
    reveal_strlit("F10");
    reveal_strlit("F11");
    reveal_strlit("F12");
    reveal_strlit("ArrowUp");
    reveal_strlit("ArrowDown");
    reveal_strlit("ArrowLeft");
    reveal_strlit("ArrowRight");
    reveal_strlit("Home");
    reveal_strlit("End");
    reveal_strlit("PageUp");
    reveal_strlit("PageDown");
    reveal_strlit("Insert");
    reveal_strlit("Delete");
    reveal_strlit("Space");
    reveal_strlit("Enter");
    reveal_strlit("Escape");
    reveal_strlit("Tab");
    reveal_strlit("Backspace");
    if variant_name(a) == variant_name(b) {
        assert(variant_name(a).len() == variant_name(b).len());
        assert(variant_name(a).len() > 0 ==> variant_name(a)[0] == variant_name(b)[0]);
        assert(variant_name(a).len() > 1 ==> variant_name(a)[1] == variant_name(b)[1]);
        assert(variant_name(a).len() > 2 ==> variant_name(a)[2] == variant_name(b)[2]);
        assert(variant_name(a).len() > 3 ==> variant_name(a)[3] == variant_name(b)[3]);
        assert(variant_name(a).len() > 4 ==> variant_name(a)[4] == variant_name(b)[4]);
        assert(variant_name(a).len() > 5 ==> variant_name(a)[5] == variant_name(b)[5]);
        assert(variant_name(a).len() > 6 ==> variant_name(a)[6] == variant_name(b)[6]);
    }
}

/// Variant names spell the keys: a letter key is named by its uppercase letter, a
/// digit key by `Num` and its digit, and a function key by `F` and its number.
pub proof fn lemma_variant_names_spell_keys(key: Key)
    ensures
        key_index(key) < 26 ==> variant_name(key) == seq![(65 + key_index(key)) as char],
        26 <= key_index(key) < 36 ==> variant_name(key) == "Num"@ + seq![
            (48 + key_index(key) - 26) as char,
        ],
        36 <= key_index(key) < 48 ==> variant_name(key) == seq!['F'] + crate::text::decimal(
            (key_index(key) - 35) as nat,
        ),
        key == Key::ArrowUp ==> variant_name(key) == "ArrowUp"@,
        key == Key::ArrowDown ==> variant_name(key) == "ArrowDown"@,
        key == Key::ArrowLeft ==> variant_name(key) == "ArrowLeft"@,
        key == Key::ArrowRight ==> variant_name(key) == "ArrowRight"@,
        key == Key::Home ==> variant_name(key) == "Home"@,
        key == Key::End ==> variant_name(key) == "End"@,
        key == Key::PageUp ==> variant_name(key) == "PageUp"@,
        key == Key::PageDown ==> variant_name(key) == "PageDown"@,
        key == Key::Insert ==> variant_name(key) == "Insert"@,
        key == Key::Delete ==> variant_name(key) == "Delete"@,
        key == Key::Space ==> variant_name(key) == "Space"@,
        key == Key::Enter ==> variant_name(key) == "Enter"@,
        key == Key::Escape ==> variant_name(key) == "Escape"@,
        key == Key::Tab ==> variant_name(key) == "Tab"@,
        key == Key::Backspace ==> variant_name(key) == "Backspace"@,
{
    reveal_strlit("A");
    reveal_strlit("B");
    reveal_strlit("C");
    reveal_strlit("D");
    reveal_strlit("E");
    reveal_strlit("F");
    reveal_strlit("G");
    reveal_strlit("H");
    reveal_strlit("I");
    reveal_strlit("J");
    reveal_strlit("K");
    reveal_strlit("L");
    reveal_strlit("M");
    reveal_strlit("N");
    reveal_strlit("O");
    reveal_strlit("P");
    reveal_strlit("Q");
    reveal_strlit("R");
    reveal_strlit("S");
    reveal_strlit("T");
    reveal_strlit("U");
    reveal_strlit("V");
    reveal_strlit("W");
    reveal_strlit("X");
    reveal_strlit("Y");
    reveal_strlit("Z");
    reveal_strlit("Num");
    reveal_strlit("Num0");
    reveal_strlit("Num1");
    reveal_strlit("Num2");
    reveal_strlit("Num3");
    reveal_strlit("Num4");
    reveal_strlit("Num5");
    reveal_strlit("Num6");
    reveal_strlit("Num7");
    reveal_strlit("Num8");
    reveal_strlit("Num9");
    reveal_strlit("F1");
    reveal_strlit("F2");
    reveal_strlit("F3");
    reveal_strlit("F4");
    reveal_strlit("F5");
    reveal_strlit("F6");
    reveal_strlit("F7");
    reveal_strlit("F8");
    reveal_strlit("F9");
    reveal_strlit("F10");
    reveal_strlit("F11");
    reveal_strlit("F12");
    if key == Key::Num0 {
        assert(variant_name(key) =~= "Num"@ + seq![(48 + key_index(key) - 26) as char]);
    }
    if key == Key::Num1 {
        assert(variant_name(key) =~= "Num"@ + seq![(48 + key_index(key) - 26) as char]);
    }
    if key == Key::Num2 {
        assert(variant_name(key) =~= "Num"@ + seq![(48 + key_index(key) - 26) as char]);
    }
    if key == Key::Num3 {
        assert(variant_name(key) =~= "Num"@ + seq![(48 + key_index(key) - 26) as char]);
    }
    if key == Key::Num4 {
        assert(variant_name(key) =~= "Num"@ + seq![(48 + key_index(key) - 26) as char]);
    }
    if key == Key::Num5 {
        assert(variant_name(key) =~= "Num"@ + seq![(48 + key_index(key) - 26) as char]);
    }
    if key == Key::Num6 {
        assert(variant_name(key) =~= "Num"@ + seq![(48 + key_index(key) - 26) as char]);
    }
    if key == Key::Num7 {
        assert(variant_name(key) =~= "Num"@ + seq![(48 + key_index(key) - 26) as char]);
    }
    if key == Key::Num8 {
        assert(variant_name(key) =~= "Num"@ + seq![(48 + key_index(key) - 26) as char]);
    }
    if key == Key::Num9 {
        assert(variant_name(key) =~= "Num"@ + seq![(48 + key_index(key) - 26) as char]);
    }
    if key == Key::F1 {
        assert(crate::text::decimal(1) == seq!['1']);
        assert(variant_name(key) =~= seq!['F'] + crate::text::decimal((key_index(key) - 35) as nat));
    }
    if key == Key::F2 {
        assert(crate::text::decimal(2) == seq!['2']);
        assert(variant_name(key) =~= seq!['F'] + crate::text::decimal((key_index(key) - 35) as nat));
    }
    if key == Key::F3 {
        assert(crate::text::decimal(3) == seq!['3']);
        assert(variant_name(key) =~= seq!['F'] + crate::text::decimal((key_index(key) - 35) as nat));
    }
    if key == Key::F4 {
        assert(crate::text::decimal(4) == seq!['4']);
        assert(variant_name(key) =~= seq!['F'] + crate::text::decimal((key_index(key) - 35) as nat));
    }
    if key == Key::F5 {
        assert(crate::text::decimal(5) == seq!['5']);
        assert(variant_name(key) =~= seq!['F'] + crate::text::decimal((key_index(key) - 35) as nat));
    }
    if key == Key::F6 {
        assert(crate::text::decimal(6) == seq!['6']);
        assert(variant_name(key) =~= seq!['F'] + crate::text::decimal((key_index(key) - 35) as nat));
    }
    if key == Key::F7 {
        assert(crate::text::decimal(7) == seq!['7']);
        assert(variant_name(key) =~= seq!['F'] + crate::text::decimal((key_index(key) - 35) as nat));
    }
    if key == Key::F8 {
        assert(crate::text::decimal(8) == seq!['8']);
        assert(variant_name(key) =~= seq!['F'] + crate::text::decimal((key_index(key) - 35) as nat));
    }
    if key == Key::F9 {
        assert(crate::text::decimal(9) == seq!['9']);
        assert(variant_name(key) =~= seq!['F'] + crate::text::decimal((key_index(key) - 35) as nat));
    }
    if key == Key::F10 {
        assert(crate::text::decimal(10) == seq!['1', '0']) by {
            assert(crate::text::decimal(1) == seq!['1']);
            assert(crate::text::decimal(10) =~= seq!['1', '0']);
        }
        assert(variant_name(key) =~= seq!['F'] + crate::text::decimal((key_index(key) - 35) as nat));
    }
    if key == Key::F11 {
        assert(crate::text::decimal(11) == seq!['1', '1']) by {
            assert(crate::text::decimal(1) == seq!['1']);
            assert(crate::text::decimal(11) =~= seq!['1', '1']);
        }
        assert(variant_name(key) =~= seq!['F'] + crate::text::decimal((key_index(key) - 35) as nat));
    }
    if key == Key::F12 {
        assert(crate::text::decimal(12) == seq!['1', '2']) by {
            assert(crate::text::decimal(1) == seq!['1']);
            assert(crate::text::decimal(12) =~= seq!['1', '2']);
        }
        assert(variant_name(key) =~= seq!['F'] + crate::text::decimal((key_index(key) - 35) as nat));
    }
}

/// The Windows virtual-key constants (`VK_*`, from WinUser.h) that are not the ASCII
/// code of a letter or digit, listed by code: `VK_BACK`, `VK_TAB`, `VK_RETURN`,
/// `VK_ESCAPE`, `VK_SPACE`, `VK_PRIOR`, `VK_NEXT`, `VK_END`, `VK_HOME`, `VK_LEFT`,
/// `VK_UP`, `VK_RIGHT`, `VK_DOWN`, `VK_INSERT`, `VK_DELETE`, `VK_F1`..`VK_F12`.
pub open spec fn vk_constant_key(code: u16) -> Option<Key> {
    match code {
        0x08 => Some(Key::Backspace),
        0x09 => Some(Key::Tab),
        0x0D => Some(Key::Enter),
        0x1B => Some(Key::Escape),
        0x20 => Some(Key::Space),
        0x21 => Some(Key::PageUp),
        0x22 => Some(Key::PageDown),
        0x23 => Some(Key::End),
        0x24 => Some(Key::Home),
        0x25 => Some(Key::ArrowLeft),
        0x26 => Some(Key::ArrowUp),
        0x27 => Some(Key::ArrowRight),
        0x28 => Some(Key::ArrowDown),
        0x2D => Some(Key::Insert),
        0x2E => Some(Key::Delete),
        0x70 => Some(Key::F1),
        0x71 => Some(Key::F2),
        0x72 => Some(Key::F3),
        0x73 => Some(Key::F4),
        0x74 => Some(Key::F5),
        0x75 => Some(Key::F6),
        0x76 => Some(Key::F7),
        0x77 => Some(Key::F8),
        0x78 => Some(Key::F9),
        0x79 => Some(Key::F10),
        0x7A => Some(Key::F11),
        0x7B => Some(Key::F12),
        _ => None,
    }
}

/// The X11 keysyms (`XK_*`, from keysymdef.h) that are not the Latin-1 code of a
/// letter or digit, listed by keysym: `XK_space`, `XK_BackSpace`, `XK_Tab`,
/// `XK_Return`, `XK_Escape`, `XK_Home`, `XK_Left`, `XK_Up`, `XK_Right`, `XK_Down`,
/// `XK_Prior`, `XK_Next`, `XK_End`, `XK_Insert`, `XK_F1`..`XK_F12`, `XK_Delete`.
pub open spec fn xk_constant_key(keysym: u32) -> Option<Key> {
    match keysym {
        0x0020 => Some(Key::Space),
        0xFF08 => Some(Key::Backspace),
        0xFF09 => Some(Key::Tab),
        0xFF0D => Some(Key::Enter),
        0xFF1B => Some(Key::Escape),
        0xFF50 => Some(Key::Home),
        0xFF51 => Some(Key::ArrowLeft),
        0xFF52 => Some(Key::ArrowUp),
        0xFF53 => Some(Key::ArrowRight),
        0xFF54 => Some(Key::ArrowDown),
        0xFF55 => Some(Key::PageUp),
        0xFF56 => Some(Key::PageDown),
        0xFF57 => Some(Key::End),
        0xFF63 => Some(Key::Insert),
        0xFFBE => Some(Key::F1),
        0xFFBF => Some(Key::F2),
        0xFFC0 => Some(Key::F3),
        0xFFC1 => Some(Key::F4),
        0xFFC2 => Some(Key::F5),
        0xFFC3 => Some(Key::F6),
        0xFFC4 => Some(Key::F7),
        0xFFC5 => Some(Key::F8),
        0xFFC6 => Some(Key::F9),
        0xFFC7 => Some(Key::F10),
        0xFFC8 => Some(Key::F11),
        0xFFC9 => Some(Key::F12),
        0xFFFF => Some(Key::Delete),
        _ => None,
    }
}

/// The macOS virtual key codes (`kVK_*`, from Carbon's Events.h, ANSI layout), listed
/// by code.
pub open spec fn kvk_constant_key(code: u16) -> Option<Key> {
    match code {
        0x00 => Some(Key::A),
        0x01 => Some(Key::S),
        0x02 => Some(Key::D),
        0x03 => Some(Key::F),
        0x04 => Some(Key::H),
        0x05 => Some(Key::G),
        0x06 => Some(Key::Z),
        0x07 => Some(Key::X),
        0x08 => Some(Key::C),
        0x09 => Some(Key::V),
        0x0B => Some(Key::B),
        0x0C => Some(Key::Q),
        0x0D => Some(Key::W),
        0x0E => Some(Key::E),
        0x0F => Some(Key::R),
        0x10 => Some(Key::Y),
        0x11 => Some(Key::T),
        0x12 => Some(Key::Num1),
        0x13 => Some(Key::Num2),
        0x14 => Some(Key::Num3),
        0x15 => Some(Key::Num4),
        0x16 => Some(Key::Num6),
        0x17 => Some(Key::Num5),
        0x19 => Some(Key::Num9),
        0x1A => Some(Key::Num7),
        0x1C => Some(Key::Num8),
        0x1D => Some(Key::Num0),
        0x1F => Some(Key::O),
        0x20 => Some(Key::U),
        0x22 => Some(Key::I),
        0x23 => Some(Key::P),
        0x24 => Some(Key::Enter),
        0x25 => Some(Key::L),
        0x26 => Some(Key::J),
        0x28 => Some(Key::K),
        0x2D => Some(Key::N),
        0x2E => Some(Key::M),
        0x30 => Some(Key::Tab),
        0x31 => Some(Key::Space),
        0x33 => Some(Key::Backspace),
        0x35 => Some(Key::Escape),
        0x60 => Some(Key::F5),
        0x61 => Some(Key::F6),
        0x62 => Some(Key::F7),
        0x63 => Some(Key::F3),
        0x64 => Some(Key::F8),
        0x65 => Some(Key::F9),
        0x67 => Some(Key::F11),
        0x6D => Some(Key::F10),
        0x6F => Some(Key::F12),
        0x72 => Some(Key::Insert),
        0x73 => Some(Key::Home),
        0x74 => Some(Key::PageUp),
        0x75 => Some(Key::Delete),
        0x76 => Some(Key::F4),
        0x77 => Some(Key::End),
        0x78 => Some(Key::F2),
        0x79 => Some(Key::PageDown),
        0x7A => Some(Key::F1),
        0x7B => Some(Key::ArrowLeft),
        0x7C => Some(Key::ArrowRight),
        0x7D => Some(Key::ArrowDown),
        0x7E => Some(Key::ArrowUp),
        _ => None,
    }
}

/// Windows codes are the documented virtual keys: a letter or digit key sends the
/// ASCII code of the character that names it, every other key its `VK_*` constant.
pub proof fn lemma_windows_vk_is_documented(key: Key)
    ensures
        key_index(key) < 26 ==> windows_vk(key) == variant_name(key)[0] as u16,
        26 <= key_index(key) < 36 ==> windows_vk(key) == variant_name(key).last() as u16,
        key_index(key) >= 36 ==> vk_constant_key(windows_vk(key)) == Some(key),
{
    lemma_variant_names_spell_keys(key);
}

/// X11 keysyms are the documented ones: a letter key sends the lowercase Latin-1
/// code of the letter that names it, a digit key the code of its digit, every other
/// key its `XK_*` keysym.
pub proof fn lemma_x11_keysym_is_documented(key: Key)
    ensures
        key_index(key) < 26 ==> x11_keysym(key) == variant_name(key)[0] as u32 + 0x20,
        26 <= key_index(key) < 36 ==> x11_keysym(key) == variant_name(key).last() as u32,
        key_index(key) >= 36 ==> xk_constant_key(x11_keysym(key)) == Some(key),
{
    lemma_variant_names_spell_keys(key);
}

/// macOS codes are the documented ANSI-layout virtual keys: every key sends the
/// `kVK_*` constant of the key it is.
pub proof fn lemma_macos_keycode_is_documented(key: Key)
    ensures
        kvk_constant_key(macos_keycode(key)) == Some(key),
{
}

impl Key {
    /// Every key the controller can represent, in display order, for building
    /// dropdowns.
    pub fn all() -> (keys: Vec<Key>)
        ensures
            keys@ == all_keys(),
    {
        let keys = vec![
            Key::A, Key::B, Key::C, Key::D, Key::E, Key::F, Key::G, Key::H,
            Key::I, Key::J, Key::K, Key::L, Key::M, Key::N, Key::O, Key::P,
            Key::Q, Key::R, Key::S, Key::T, Key::U, Key::V, Key::W, Key::X,
            Key::Y, Key::Z, Key::Num0, Key::Num1, Key::Num2, Key::Num3, Key::Num4, Key::Num5,
            Key::Num6, Key::Num7, Key::Num8, Key::Num9, Key::F1, Key::F2, Key::F3, Key::F4,
            Key::F5, Key::F6, Key::F7, Key::F8, Key::F9, Key::F10, Key::F11, Key::F12,
            Key::ArrowUp, Key::ArrowDown, Key::ArrowLeft, Key::ArrowRight, Key::Home, Key::End, Key::PageUp, Key::PageDown,
            Key::Insert, Key::Delete, Key::Space, Key::Enter, Key::Escape, Key::Tab, Key::Backspace,
        ];
        assert(keys@ =~= all_keys());
        keys
    }

    /// The Windows virtual-key code used as the `wParam` of an injected
    /// `WM_KEYDOWN` / `WM_KEYUP` message.
    pub fn to_windows_vk(self) -> (code: u16)
        ensures
            code == windows_vk(self),
    {
        match self {
            Key::A => 0x41, Key::B => 0x42, Key::C => 0x43, Key::D => 0x44, Key::E => 0x45, Key::F => 0x46,
            Key::G => 0x47, Key::H => 0x48, Key::I => 0x49, Key::J => 0x4A, Key::K => 0x4B, Key::L => 0x4C,
            Key::M => 0x4D, Key::N => 0x4E, Key::O => 0x4F, Key::P => 0x50, Key::Q => 0x51, Key::R => 0x52,
            Key::S => 0x53, Key::T => 0x54, Key::U => 0x55, Key::V => 0x56, Key::W => 0x57, Key::X => 0x58,
            Key::Y => 0x59, Key::Z => 0x5A, Key::Num0 => 0x30, Key::Num1 => 0x31, Key::Num2 => 0x32, Key::Num3 => 0x33,
            Key::Num4 => 0x34, Key::Num5 => 0x35, Key::Num6 => 0x36, Key::Num7 => 0x37, Key::Num8 => 0x38, Key::Num9 => 0x39,
            Key::F1 => 0x70, Key::F2 => 0x71, Key::F3 => 0x72, Key::F4 => 0x73, Key::F5 => 0x74, Key::F6 => 0x75,
            Key::F7 => 0x76, Key::F8 => 0x77, Key::F9 => 0x78, Key::F10 => 0x79, Key::F11 => 0x7A, Key::F12 => 0x7B,
            Key::ArrowUp => 0x26, Key::ArrowDown => 0x28, Key::ArrowLeft => 0x25, Key::ArrowRight => 0x27, Key::Home => 0x24, Key::End => 0x23,
            Key::PageUp => 0x21, Key::PageDown => 0x22, Key::Insert => 0x2D, Key::Delete => 0x2E, Key::Space => 0x20, Key::Enter => 0x0D,
            Key::Escape => 0x1B, Key::Tab => 0x09, Key::Backspace => 0x08,
        }
    }

    /// Whether this key is an "extended" key on Windows (arrows, navigation block);
    /// the extended bit must then be set in the message's `lParam`.
    pub fn is_windows_extended(self) -> (extended: bool)
        ensures
            extended == is_extended_key(self),
    {
        matches!(
            self,
            Key::ArrowUp
                | Key::ArrowDown
                | Key::ArrowLeft
                | Key::ArrowRight
                | Key::Home
                | Key::End
                | Key::PageUp
                | Key::PageDown
                | Key::Insert
                | Key::Delete
        )
    }

    /// The macOS virtual key code (`CGKeyCode`) for an ANSI keyboard layout.
    pub fn to_macos_keycode(self) -> (code: u16)
        ensures
            code == macos_keycode(self),
    {
        match self {
            Key::A => 0x00, Key::B => 0x0B, Key::C => 0x08, Key::D => 0x02, Key::E => 0x0E, Key::F => 0x03,
            Key::G => 0x05, Key::H => 0x04, Key::I => 0x22, Key::J => 0x26, Key::K => 0x28, Key::L => 0x25,
            Key::M => 0x2E, Key::N => 0x2D, Key::O => 0x1F, Key::P => 0x23, Key::Q => 0x0C, Key::R => 0x0F,
            Key::S => 0x01, Key::T => 0x11, Key::U => 0x20, Key::V => 0x09, Key::W => 0x0D, Key::X => 0x07,
            Key::Y => 0x10, Key::Z => 0x06, Key::Num0 => 0x1D, Key::Num1 => 0x12, Key::Num2 => 0x13, Key::Num3 => 0x14,
            Key::Num4 => 0x15, Key::Num5 => 0x17, Key::Num6 => 0x16, Key::Num7 => 0x1A, Key::Num8 => 0x1C, Key::Num9 => 0x19,
            Key::F1 => 0x7A, Key::F2 => 0x78, Key::F3 => 0x63, Key::F4 => 0x76, Key::F5 => 0x60, Key::F6 => 0x61,
            Key::F7 => 0x62, Key::F8 => 0x64, Key::F9 => 0x65, Key::F10 => 0x6D, Key::F11 => 0x67, Key::F12 => 0x6F,
            Key::ArrowUp => 0x7E, Key::ArrowDown => 0x7D, Key::ArrowLeft => 0x7B, Key::ArrowRight => 0x7C, Key::Home => 0x73, Key::End => 0x77,
            Key::PageUp => 0x74, Key::PageDown => 0x79, Key::Insert => 0x72, Key::Delete => 0x75, Key::Space => 0x31, Key::Enter => 0x24,
            Key::Escape => 0x35, Key::Tab => 0x30, Key::Backspace => 0x33,
        }
    }

    /// The X11 keysym for this key, later resolved to a server keycode.
    pub fn to_x11_keysym(self) -> (keysym: u32)
        ensures
            keysym == x11_keysym(self),
    {
        match self {
            Key::A => 0x0061, Key::B => 0x0062, Key::C => 0x0063, Key::D => 0x0064, Key::E => 0x0065,
            Key::F => 0x0066, Key::G => 0x0067, Key::H => 0x0068, Key::I => 0x0069, Key::J => 0x006A,
            Key::K => 0x006B, Key::L => 0x006C, Key::M => 0x006D, Key::N => 0x006E, Key::O => 0x006F,
            Key::P => 0x0070, Key::Q => 0x0071, Key::R => 0x0072, Key::S => 0x0073, Key::T => 0x0074,
            Key::U => 0x0075, Key::V => 0x0076, Key::W => 0x0077, Key::X => 0x0078, Key::Y => 0x0079,
            Key::Z => 0x007A, Key::Num0 => 0x0030, Key::Num1 => 0x0031, Key::Num2 => 0x0032, Key::Num3 => 0x0033,
            Key::Num4 => 0x0034, Key::Num5 => 0x0035, Key::Num6 => 0x0036, Key::Num7 => 0x0037, Key::Num8 => 0x0038,
            Key::Num9 => 0x0039, Key::F1 => 0xFFBE, Key::F2 => 0xFFBF, Key::F3 => 0xFFC0, Key::F4 => 0xFFC1,
            Key::F5 => 0xFFC2, Key::F6 => 0xFFC3, Key::F7 => 0xFFC4, Key::F8 => 0xFFC5, Key::F9 => 0xFFC6,
            Key::F10 => 0xFFC7, Key::F11 => 0xFFC8, Key::F12 => 0xFFC9, Key::ArrowUp => 0xFF52, Key::ArrowDown => 0xFF54,
            Key::ArrowLeft => 0xFF51, Key::ArrowRight => 0xFF53, Key::Home => 0xFF50, Key::End => 0xFF57, Key::PageUp => 0xFF55,
            Key::PageDown => 0xFF56, Key::Insert => 0xFF63, Key::Delete => 0xFFFF, Key::Space => 0x0020, Key::Enter => 0xFF0D,
            Key::Escape => 0xFF1B, Key::Tab => 0xFF09, Key::Backspace => 0xFF08,
        }
    }

    /// The enum variant name of this key.
    pub fn variant_name(self) -> (name: &'static str)
        ensures
            name@ == variant_name(self),
    {
        match self {
            Key::A => "A", Key::B => "B", Key::C => "C", Key::D => "D", Key::E => "E", Key::F => "F",
            Key::G => "G", Key::H => "H", Key::I => "I", Key::J => "J", Key::K => "K", Key::L => "L",
            Key::M => "M", Key::N => "N", Key::O => "O", Key::P => "P", Key::Q => "Q", Key::R => "R",
            Key::S => "S", Key::T => "T", Key::U => "U", Key::V => "V", Key::W => "W", Key::X => "X",
            Key::Y => "Y", Key::Z => "Z", Key::Num0 => "Num0", Key::Num1 => "Num1", Key::Num2 => "Num2", Key::Num3 => "Num3",
            Key::Num4 => "Num4", Key::Num5 => "Num5", Key::Num6 => "Num6", Key::Num7 => "Num7", Key::Num8 => "Num8", Key::Num9 => "Num9",
            Key::F1 => "F1", Key::F2 => "F2", Key::F3 => "F3", Key::F4 => "F4", Key::F5 => "F5", Key::F6 => "F6",
            Key::F7 => "F7", Key::F8 => "F8", Key::F9 => "F9", Key::F10 => "F10", Key::F11 => "F11", Key::F12 => "F12",
            Key::ArrowUp => "ArrowUp", Key::ArrowDown => "ArrowDown", Key::ArrowLeft => "ArrowLeft", Key::ArrowRight => "ArrowRight", Key::Home => "Home", Key::End => "End",
            Key::PageUp => "PageUp", Key::PageDown => "PageDown", Key::Insert => "Insert", Key::Delete => "Delete", Key::Space => "Space", Key::Enter => "Enter",
            Key::Escape => "Escape", Key::Tab => "Tab", Key::Backspace => "Backspace",
        }
    }

    /// The key whose variant name is `name`, the form keys take in a saved config.
    pub fn from_variant_name(name: &str) -> (key: Option<Key>)
        ensures
            match key {
                Some(key) => variant_name(key) == name@,
                None => forall|other: Key| variant_name(other) != name@,
            },
            forall|other: Key| variant_name(other) == name@ ==> key == Some(other),
    {
        let wanted = String::from_str(name);
        let keys = Key::all();
        let mut i: usize = 0;
        while i < keys.len()
            invariant
                keys@ == all_keys(),
                wanted@ == name@,
                i <= keys@.len(),
                forall|j: int| 0 <= j < i ==> variant_name(all_keys()[j]) != name@,
            decreases keys@.len() - i,
        {
            let candidate = String::from_str(keys[i].variant_name());
            if candidate == wanted {
                proof {
                    assert forall|other: Key| variant_name(other) == name@ implies keys@[i as int]
                        == other by {
                        lemma_variant_names_identify_keys(keys@[i as int], other);
                    }
                }
                return Some(keys[i]);
            }
            i += 1;
        }
        assert forall|other: Key| variant_name(other) != name@ by {
            lemma_all_keys_lists_each_key_once(other);
            assert(all_keys()[key_index(other)] == other);
        }
        None
    }

    /// A short human label: the variant name with a leading `Num` stripped, so the
    /// UI shows `0`..`9` rather than `Num0`..`Num9`.
    pub fn to_string(&self) -> (label: String)
        ensures
            label@ == key_label(*self),
    {
        let name = self.variant_name();
        let len = name.unicode_len();
        proof {
            reveal_strlit("Num");
        }
        if len >= 3 && name.get_char(0) == 'N' && name.get_char(1) == 'u' && name.get_char(2) == 'm' {
            assert(name@.take(3) =~= "Num"@);
            let rest = name.substring_char(3, len);
            assert(rest@ =~= name@.skip(3));
            String::from_str(rest)
        } else {
            assert(!has_prefix(name@, "Num"@)) by {
                if has_prefix(name@, "Num"@) {
                    assert(name@[0] == name@.take(3)[0]);
                    assert(name@[1] == name@.take(3)[1]);
                    assert(name@[2] == name@.take(3)[2]);
                }
            }
            String::from_str(name)
        }
    }
}

} // verus!
