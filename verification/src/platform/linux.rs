//! The X11 backend's pure parts: point-in-rectangle tests for the window picker,
//! the keysym-to-keycode search over the server's keyboard mapping, and the geometry
//! and text of the highlight overlay.

use vstd::prelude::*;
use crate::config::WindowTarget;

verus! {

/// Border thickness, in pixels, of the highlight frame.
pub const BORDER_THICKNESS: u16 = 3;

/// Height of the label bubble, in pixels.
pub const LABEL_HEIGHT: u16 = 16;

/// Approximate per-character width of the server's built-in `fixed` font.
pub const LABEL_CHAR_WIDTH: u16 = 6;

/// Largest label length drawn, well under the 255-byte limit of a text request.
pub const LABEL_MAX_CHARS: usize = 40;

/// An on-screen rectangle: left, top, width, height.
pub type Rect = (i16, i16, u16, u16);

/// Whether the root-relative point lies inside the rectangle (left and top edges
/// inclusive, right and bottom edges exclusive).
pub open spec fn rect_holds(rect: Rect, point: (i32, i32)) -> bool {
    &&& rect.0 <= point.0 < rect.0 + rect.2
    &&& rect.1 <= point.1 < rect.1 + rect.3
}

/// Reports whether a window's on-screen rectangle contains the root-relative point.
pub fn rect_contains_point(rect: Rect, point: (i32, i32)) -> (inside: bool)
    ensures
        inside == rect_holds(rect, point),
{
    let (x, y, width, height) = rect;
    let left = x as i32;
    let top = y as i32;
    let right = left + width as i32;
    let bottom = top + height as i32;
    let (pointer_x, pointer_y) = point;
    pointer_x >= left && pointer_x < right && pointer_y >= top && pointer_y < bottom
}

/// The X11 window id of a Linux target; other platforms' targets name none.
pub fn x11_window(target: &WindowTarget) -> (window: Option<u32>)
    ensures
        window == (match *target {
            WindowTarget::Linux { window_id } => Some(window_id),
            _ => None,
        }),
{
    match target {
        WindowTarget::Linux { window_id } => Some(*window_id),
        _ => None,
    }
}

/// Position `i` is the first entry of the keyboard mapping that produces `keysym`.
pub open spec fn is_first_keysym_entry(keysyms: Seq<u32>, keysym: u32, i: int) -> bool {
    &&& 0 <= i < keysyms.len()
    &&& keysyms[i] == keysym
    &&& forall|j: int| 0 <= j < i ==> keysyms[j] != keysym
}

/// The keycode of mapping entry `i`: entries come in groups of `per_keycode`, the
/// first group belonging to `min_keycode`; the keycode is a byte.
pub open spec fn entry_keycode(min_keycode: u8, per_keycode: u8, i: int) -> u8 {
    (min_keycode + i / (per_keycode as int)) as u8
}

/// Entry `i` of the mapping lies in the `group`-th run of `per_keycode` entries.
pub open spec fn in_keycode_group(per_keycode: u8, group: int, i: int) -> bool {
    0 <= group && group * per_keycode <= i < (group + 1) * per_keycode
}

/// The mapping's layout: entries `k * per_keycode` up to `(k + 1) * per_keycode` are
/// the keysyms of keycode `min_keycode + k`, so every entry in that group belongs to
/// that keycode.
pub proof fn lemma_entry_keycode_is_its_group(min_keycode: u8, per_keycode: u8, group: int, i: int)
    requires
        per_keycode > 0,
        in_keycode_group(per_keycode, group, i),
    ensures
        entry_keycode(min_keycode, per_keycode, i) == (min_keycode + group) as u8,
{
    let per = per_keycode as int;
    assert(i / per == group) by (nonlinear_arith)
        requires
            per > 0,
            group * per <= i < (group + 1) * per,
    ;
}

/// Searches a keyboard mapping (the flat keysym table the server reports, with
/// `per_keycode` entries per keycode starting at `min_keycode`) for the keycode that
/// produces `keysym`; the first matching entry wins.
pub fn keycode_for_keysym(min_keycode: u8, per_keycode: u8, keysyms: &Vec<u32>, keysym: u32) -> (keycode:
    Option<u8>)
    requires
        per_keycode > 0 || !keysyms@.contains(keysym),
        keysyms@.len() + 256 <= usize::MAX,
    ensures
        match keycode {
            Some(code) => exists|i: int|
                is_first_keysym_entry(keysyms@, keysym, i) && code == entry_keycode(
                    min_keycode,
                    per_keycode,
                    i,
                ),
            None => !keysyms@.contains(keysym),
        },
        keycode matches Some(code) ==> exists|i: int, group: int|
            #[trigger] is_first_keysym_entry(keysyms@, keysym, i) && #[trigger] in_keycode_group(
                per_keycode,
                group,
                i,
            ) && code == (min_keycode + group) as u8,
{
    let mut index: usize = 0;
    while index < keysyms.len()
        invariant
            index <= keysyms@.len(),
            keysyms@.len() + 256 <= usize::MAX,
            per_keycode > 0 || !keysyms@.contains(keysym),
            forall|j: int| 0 <= j < index ==> keysyms@[j] != keysym,
        decreases keysyms@.len() - index,
    {
        if keysyms[index] == keysym {
            assert(keysyms@.contains(keysym));
            let position = min_keycode as usize + index / (per_keycode as usize);
            let keycode = #[verifier::truncate] (position as u8);
            assert(position == min_keycode + index as int / (per_keycode as int));
            assert(keycode == entry_keycode(min_keycode, per_keycode, index as int));
            assert(is_first_keysym_entry(keysyms@, keysym, index as int));
            proof {
                let per = per_keycode as int;
                let group = index as int / per;
                assert(group * per <= index < (group + 1) * per && group >= 0) by (nonlinear_arith)
                    requires
                        per > 0,
                        index >= 0,
                        group == index as int / per,
                ;
                assert(is_first_keysym_entry(keysyms@, keysym, index as int) && in_keycode_group(
                    per_keycode,
                    group,
                    index as int,
                ) && keycode == (min_keycode + group) as u8);
            }
            return Some(keycode);
        }
        index += 1;
    }
    None
}

/// A label as drawn: at most [`LABEL_MAX_CHARS`] characters, longer ones cut short.
pub open spec fn clamped_label(label: Seq<char>) -> Seq<char> {
    if label.len() <= LABEL_MAX_CHARS {
        label
    } else {
        label.take(LABEL_MAX_CHARS as int)
    }
}

/// Trims a label to a sane on-screen length.
pub fn clamp_label(label: &str) -> (text: String)
    ensures
        text@ == clamped_label(label@),
{
    let count = label.unicode_len();
    if count <= LABEL_MAX_CHARS {
        return String::from_str(label);
    }
    let kept = label.substring_char(0, LABEL_MAX_CHARS);
    assert(kept@ =~= label@.take(LABEL_MAX_CHARS as int));
    String::from_str(kept)
}

/// The distance from the right (or bottom) edge at which the last bar starts: the
/// extent less the bar thickness, or zero when the extent is thinner than a bar.
pub open spec fn inner_extent(extent: u16) -> u16 {
    if extent >= BORDER_THICKNESS {
        (extent - BORDER_THICKNESS) as u16
    } else {
        0
    }
}

/// The four bars (top, bottom, left, right) framing a rectangle.
pub open spec fn frame_bars(x: i16, y: i16, width: u16, height: u16) -> Seq<Rect> {
    seq![
        (x, y, width, BORDER_THICKNESS),
        (x, (y + inner_extent(height) as i16) as i16, width, BORDER_THICKNESS),
        (x, y, BORDER_THICKNESS, height),
        ((x + inner_extent(width) as i16) as i16, y, BORDER_THICKNESS, height),
    ]
}

/// The rectangles of the four border bars that frame the given window rectangle.
pub fn border_bars(x: i16, y: i16, width: u16, height: u16) -> (bars: [Rect; 4])
    requires
        i16::MIN <= x + inner_extent(width) as i16 <= i16::MAX,
        i16::MIN <= y + inner_extent(height) as i16 <= i16::MAX,
    ensures
        bars@ == frame_bars(x, y, width, height),
{
    let thickness = BORDER_THICKNESS;
    let right = x + width.saturating_sub(thickness) as i16;
    let bottom = y + height.saturating_sub(thickness) as i16;
    let bars = [
        (x, y, width, thickness),
        (x, bottom, width, thickness),
        (x, y, thickness, height),
        (right, y, thickness, height),
    ];
    assert(bars@ =~= frame_bars(x, y, width, height));
    bars
}

/// The label bubble of a highlight: inset from the window's top-left corner by the
/// border plus two pixels, wide enough for `text_bytes` bytes of the `fixed` font
/// plus padding.
pub open spec fn bubble_rect(x: i16, y: i16, text_bytes: usize) -> Rect {
    (
        (x + 5) as i16,
        (y + 5) as i16,
        ((text_bytes as u16) * LABEL_CHAR_WIDTH + 8) as u16,
        LABEL_HEIGHT,
    )
}

/// Where the label bubble goes for a window whose rectangle starts at `(x, y)`.
pub fn label_bar(x: i16, y: i16, text_bytes: usize) -> (bar: Rect)
    requires
        x + 5 <= i16::MAX,
        y + 5 <= i16::MAX,
        (text_bytes as u16) * LABEL_CHAR_WIDTH + 8 <= u16::MAX,
    ensures
        bar == bubble_rect(x, y, text_bytes),
{
    let width = text_bytes as u16 * LABEL_CHAR_WIDTH + 8;
    let offset = BORDER_THICKNESS as i16 + 2;
    (x + offset, y + offset, width, LABEL_HEIGHT)
}

} // verus!
