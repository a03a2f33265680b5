//! The pieces of window enumeration and key injection that do not touch the OS:
//! the window records the backends report, the test that picks game windows out by
//! title, and the per-backend computations in the submodules.

pub mod linux;
pub mod macos;
pub mod windows;

use vstd::prelude::*;
use crate::config::WindowTarget;

verus! {

/// A window discovered during enumeration: what to show the user, and the handle to
/// drive it.
#[derive(Debug, Clone)]
pub struct WindowInfo {
    /// The window's title bar text, shown in the picker.
    pub title: String,
    /// The opaque native handle used for injection.
    pub target: WindowTarget,
}

/// A request to draw a highlight (outline plus label bubble) over a target window.
#[derive(Debug, Clone)]
pub struct Highlight {
    /// The window to frame.
    pub target: WindowTarget,
    /// Short text shown in the label bubble (typically the slot's label).
    pub label: String,
}

/// The Unicode lowercase mapping of a string, as `str::to_lowercase` computes it.
pub uninterp spec fn lowercase(text: Seq<char>) -> Seq<char>;

/// Lowercases `text` with the standard library's `str::to_lowercase`.
///
/// Trusted: the contract claims only that the result is the standard library's
/// Unicode lowercase mapping of the input, which depends on the input alone.
#[verifier::external_body]
fn to_lowercase(text: &str) -> (lower: String)
    ensures
        lower@ == lowercase(text@),
{
    text.to_lowercase()
}

/// Whether `needle` occurs as a contiguous run inside `haystack`.
pub open spec fn contains_infix(haystack: Seq<char>, needle: Seq<char>) -> bool {
    exists|i: int|
        0 <= i && i + needle.len() <= haystack.len() && #[trigger] haystack.subrange(
            i,
            i + needle.len(),
        ) == needle
}

/// The lowercase text a window title must contain to be treated as a game window.
pub open spec fn title_filter() -> Seq<char> {
    "toontown"@
}

/// Whether a window title names a game window: its lowercase form contains the
/// filter text.
pub open spec fn is_game_title(title: Seq<char>) -> bool {
    contains_infix(lowercase(title), title_filter())
}

/// Whether `haystack` contains `needle` as a contiguous run of characters.
pub fn str_contains(haystack: &str, needle: &str) -> (found: bool)
    ensures
        found == contains_infix(haystack@, needle@),
{
    let n = haystack.unicode_len();
    let m = needle.unicode_len();
    if m > n {
        return false;
    }
    if m == 0 {
        assert(haystack@.subrange(0int, 0int + needle@.len()) =~= needle@);
        return true;
    }
    let mut i: usize = 0;
    while i <= n - m
        invariant
            n == haystack@.len(),
            m == needle@.len(),
            0 < m <= n,
            i <= n - m + 1,
            forall|p: int| 0 <= p < i ==> #[trigger] haystack@.subrange(p, p + m) != needle@,
        decreases n - m + 1 - i,
    {
        let mut j: usize = 0;
        let mut matched = true;
        while j < m && matched
            invariant
                n == haystack@.len(),
                m == needle@.len(),
                i + m <= n,
                j <= m,
                matched ==> forall|k: int| 0 <= k < j ==> haystack@[i + k] == needle@[k],
                !matched ==> haystack@.subrange(i as int, i + m) != needle@,
            decreases m - j + (if matched { 1int } else { 0 }),
        {
            if haystack.get_char(i + j) != needle.get_char(j) {
                matched = false;
                assert(haystack@.subrange(i as int, i + m)[j as int] != needle@[j as int]);
            } else {
                j += 1;
            }
        }
        if matched {
            assert(haystack@.subrange(i as int, i + m) =~= needle@);
            return true;
        }
        i += 1;
    }
    assert(!contains_infix(haystack@, needle@)) by {
        if contains_infix(haystack@, needle@) {
            let p = choose|p: int|
                0 <= p && p + needle@.len() <= haystack@.len() && #[trigger] haystack@.subrange(
                    p,
                    p + needle@.len(),
                ) == needle@;
            assert(haystack@.subrange(p, p + m) == needle@);
        }
    }
    false
}

/// Whether an already-lowercased title contains the game filter text.
pub fn lowered_title_matches(lowered: &str) -> (matches: bool)
    ensures
        matches == contains_infix(lowered@, title_filter()),
{
    str_contains(lowered, "toontown")
}

/// Whether a window title looks like a game window: case-insensitively, it contains
/// the filter text.
pub fn is_game_window_title(title: &str) -> (matches: bool)
    ensures
        matches == is_game_title(title@),
{
    let lowered = to_lowercase(title);
    lowered_title_matches(lowered.as_str())
}

} // verus!
