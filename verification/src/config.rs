//! The persisted data model: slots, key bindings, and the two mode hotkeys.
//!
//! Window targets are never persisted (native handles change every launch), so a
//! [`Slot`] built here always starts unlinked. Reading and writing the JSON form of
//! the model is done by the application around this crate.

use vstd::prelude::*;
use crate::key::Key;

verus! {

/// Index into [`Config::slots`]; a `u8` is plenty for the supported slot counts.
pub type SlotIndex = u8;

/// The smallest number of slots the controller allows.
pub const MIN_SLOTS: usize = 2;

/// The largest number of slots the controller allows.
pub const MAX_SLOTS: usize = 10;

/// The complete controller configuration.
#[derive(Debug, Clone)]
pub struct Config {
    /// The ordered list of toon slots.
    pub slots: Vec<Slot>,
    /// Key bindings consulted in multi-toon mode; each `physical_key` should be unique.
    pub bindings: Vec<Binding>,
    /// Key that toggles between multi-toon and individual control modes.
    pub toggle_individual_mode_hotkey: Key,
    /// Key that, while in individual mode, advances the active slot.
    pub cycle_individual_slot_hotkey: Key,
}

/// One controllable toon: a user-facing label plus the window it currently targets.
#[derive(Debug, Clone)]
pub struct Slot {
    /// User-editable display name, e.g. `"Toon 1"`.
    pub label: String,
    /// The native window this slot drives, chosen fresh each session.
    pub target: Option<WindowTarget>,
}

/// A mapping from one physical key to one or more per-slot outputs.
#[derive(Debug, Clone)]
pub struct Binding {
    /// The key the user physically presses on the controller window.
    pub physical_key: Key,
    /// Where the press is delivered; one entry per receiving slot.
    pub outputs: Vec<KeyOutput>,
}

/// A single destination for a bound key: which slot, and what key it receives.
#[derive(Debug, Clone, Copy, PartialEq, Eq, Structural)]
pub struct KeyOutput {
    /// The receiving slot's index into [`Config::slots`].
    pub slot_index: SlotIndex,
    /// The key delivered to that slot (may differ from the physical key).
    pub output_key: Key,
}

/// A native window handle, tagged per platform.
#[derive(Debug, Clone, Copy, PartialEq, Eq, Structural)]
pub enum WindowTarget {
    /// Windows top-level window handle.
    Windows { hwnd: isize },
    /// macOS owning process id plus Core Graphics window id.
    MacOs { pid: i32, window_id: u32 },
    /// X11 window id.
    Linux { window_id: u32 },
}

/// The physical keys of a binding list, in order.
pub open spec fn binding_keys(bindings: Seq<Binding>) -> Seq<Key> {
    bindings.map_values(|binding: Binding| binding.physical_key)
}

/// A binding list as plain values: each binding's physical key and its outputs.
pub open spec fn bindings_model(bindings: Seq<Binding>) -> Seq<(Key, Seq<KeyOutput>)> {
    bindings.map_values(|binding: Binding| (binding.physical_key, binding.outputs@))
}

/// Position `j` of `keys` holds the first repetition: its key occurs earlier, and no
/// key repeats before `j`.
pub open spec fn is_first_repeat(keys: Seq<Key>, j: int) -> bool {
    &&& 0 <= j < keys.len()
    &&& keys.take(j).contains(keys[j])
    &&& keys.take(j).no_duplicates()
}

/// The key whose second occurrence comes first in `keys`, if any key repeats.
pub open spec fn first_repeated_key(keys: Seq<Key>) -> Option<Key> {
    if exists|j: int| is_first_repeat(keys, j) {
        Some(keys[choose|j: int| is_first_repeat(keys, j)])
    } else {
        None
    }
}

/// The label of a fresh slot in position `position` (counting from one): `Toon <n>`.
pub open spec fn numbered_toon_label(position: nat) -> Seq<char> {
    "Toon "@ + crate::text::decimal(position)
}

/// Whether `key` occurs in `keys`.
fn key_listed(keys: &Vec<Key>, key: Key) -> (listed: bool)
    ensures
        listed == keys@.contains(key),
{
    let mut i: usize = 0;
    while i < keys.len()
        invariant
            i <= keys@.len(),
            forall|j: int| 0 <= j < i ==> keys@[j] != key,
        decreases keys@.len() - i,
    {
        if keys[i] == key {
            return true;
        }
        i += 1;
    }
    false
}

impl Config {
    /// Reports whether the same physical key is bound more than once, which is
    /// invalid and must block a save. Returns the key whose second binding comes
    /// first, if there is one.
    pub fn duplicate_binding_key(&self) -> (duplicate: Option<Key>)
        ensures
            duplicate == first_repeated_key(binding_keys(self.bindings@)),
            duplicate is None <==> binding_keys(self.bindings@).no_duplicates(),
    {
        let ghost keys = binding_keys(self.bindings@);
        let mut seen: Vec<Key> = Vec::new();
        let mut i: usize = 0;
        while i < self.bindings.len()
            invariant
                i <= self.bindings@.len(),
                keys == binding_keys(self.bindings@),
                seen@ == keys.take(i as int),
                seen@.no_duplicates(),
            decreases self.bindings@.len() - i,
        {
            let key = self.bindings[i].physical_key;
            if key_listed(&seen, key) {
                assert(is_first_repeat(keys, i as int));
                proof { lemma_first_repeat_unique(keys, i as int); }
                assert(!keys.no_duplicates()) by {
                    let k = choose|k: int| 0 <= k < i && seen@[k] == key;
                    assert(keys[k] == keys[i as int]);
                }
                return Some(key);
            }
            seen.push(key);
            assert(seen@ =~= keys.take(i + 1));
            i += 1;
        }
        assert(keys.take(i as int) =~= keys);
        assert(!exists|j: int| is_first_repeat(keys, j)) by {
            if exists|j: int| is_first_repeat(keys, j) {
                let j = choose|j: int| is_first_repeat(keys, j);
                let k = choose|k: int| 0 <= k < j && keys.take(j)[k] == keys[j];
                assert(keys[k] == keys[j]);
            }
        }
        None
    }
}

/// There is at most one first repetition, so [`first_repeated_key`] names the key at
/// any position that is one.
proof fn lemma_first_repeat_unique(keys: Seq<Key>, j: int)
    requires
        is_first_repeat(keys, j),
    ensures
        first_repeated_key(keys) == Some(keys[j]),
{
    let c = choose|c: int| is_first_repeat(keys, c);
    if c < j {
        let k = choose|k: int| 0 <= k < c && keys.take(c)[k] == keys[c];
        assert(keys.take(j)[k] == keys.take(j)[c]);
    } else if j < c {
        let k = choose|k: int| 0 <= k < j && keys.take(j)[k] == keys[j];
        assert(keys.take(c)[k] == keys.take(c)[j]);
    }
}

impl Default for Config {
    /// A fresh config with two unlinked slots and the documented default hotkeys
    /// (PageUp toggles individual mode, PageDown cycles the active slot).
    fn default() -> (config: Self)
        ensures
            config.slots@.len() == 2,
            config.slots@[0].label@ == numbered_toon_label(1),
            config.slots@[1].label@ == numbered_toon_label(2),
            config.slots@[0].target is None,
            config.slots@[1].target is None,
            config.bindings@.len() == 0,
            config.toggle_individual_mode_hotkey == Key::PageUp,
            config.cycle_individual_slot_hotkey == Key::PageDown,
    {
        let first = Slot::numbered(1);
        let second = Slot::numbered(2);
        Config {
            slots: vec![first, second],
            bindings: Vec::new(),
            toggle_individual_mode_hotkey: Key::PageUp,
            cycle_individual_slot_hotkey: Key::PageDown,
        }
    }
}

impl Slot {
    /// Creates a slot with the given label and no assigned window.
    pub fn new(label: &str) -> (slot: Slot)
        ensures
            slot.label@ == label@,
            slot.target is None,
    {
        Slot { label: String::from_str(label), target: None }
    }

    /// Creates an unlinked slot labelled `Toon <position>`.
    pub fn numbered(position: usize) -> (slot: Slot)
        ensures
            slot.label@ == numbered_toon_label(position as nat),
            slot.target is None,
    {
        let mut label = String::from_str("Toon ");
        let digits = crate::text::decimal_string(position);
        label.append(digits.as_str());
        Slot { label, target: None }
    }
}

} // verus!
