//! The Windows backend's pure parts: the `lParam` bitfield of an injected
//! `WM_KEYDOWN` / `WM_KEYUP` message and the handle a target names.

use vstd::prelude::*;
use crate::config::WindowTarget;
use crate::key::{is_extended_key, Key};

verus! {

/// The `lParam` of a key message: repeat count 1 in bits 0-15, the low byte of the
/// scan code in bits 16-23, the extended-key flag in bit 24, and for a release the
/// previous-state and transition flags in bits 30 and 31.
pub open spec fn key_message_bits(key: Key, scan_code: u32, pressed: bool) -> int {
    1 + (scan_code % 256) * 0x1_0000 + (if is_extended_key(key) {
        0x100_0000int
    } else {
        0
    }) + (if pressed {
        0int
    } else {
        0xC000_0000
    })
}

/// Builds the `lParam` that accompanies a key message for `key`, given the scan code
/// the OS mapped its virtual key to.
pub fn key_message_lparam(key: Key, mapped_scan_code: u32, pressed: bool) -> (lparam: u32)
    ensures
        lparam == key_message_bits(key, mapped_scan_code, pressed),
{
    let scan_code = mapped_scan_code & 0xFF;
    let mut value: u32 = 1 | (scan_code << 16);
    assert(value == 1 + (mapped_scan_code % 256) * 0x1_0000) by (bit_vector)
        requires
            scan_code == mapped_scan_code & 0xFF,
            value == 1 | (scan_code << 16),
    ;
    if key.is_windows_extended() {
        let before = value;
        value = value | (1 << 24);
        assert(value == before + 0x100_0000) by (bit_vector)
            requires
                before < 0x100_0000,
                value == before | (1u32 << 24u32),
        ;
    }
    if !pressed {
        let before = value;
        value = value | (1 << 30) | (1 << 31);
        assert(value == before + 0xC000_0000) by (bit_vector)
            requires
                before < 0x200_0000,
                value == before | (1u32 << 30u32) | (1u32 << 31u32),
        ;
    }
    value
}

/// The window handle of a Windows target; other platforms' targets name none.
pub fn window_handle(target: &WindowTarget) -> (hwnd: Option<isize>)
    ensures
        hwnd == (match *target {
            WindowTarget::Windows { hwnd } => Some(hwnd),
            _ => None,
        }),
{
    match target {
        WindowTarget::Windows { hwnd } => Some(*hwnd),
        _ => None,
    }
}

} // verus!
