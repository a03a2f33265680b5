//! The slot list's logic: the quick setup that generates a ready-to-play slot list,
//! adding and removing slots within the supported range, what a slot's crosshair asks
//! to highlight, and how a slot's link is described.

use vstd::prelude::*;
use crate::config::{
    binding_keys, bindings_model, numbered_toon_label, Binding, KeyOutput, Slot, SlotIndex, WindowTarget,
    MAX_SLOTS, MIN_SLOTS,
};
use crate::key::Key;
use crate::platform::WindowInfo;
use crate::ui::{HighlightIntent, MultiToonApp};

verus! {

/// Live interaction state of a slot's crosshair handle for one frame.
#[derive(Debug, Default, Clone, Copy)]
pub struct CrosshairState {
    /// The drag ended this frame (the moment to resolve the dropped-on window).
    pub released: bool,
    /// The pointer is resting on the crosshair.
    pub hovered: bool,
    /// The crosshair is being dragged right now.
    pub dragged: bool,
}

/// Window `i` is the first in `windows` whose target is `target`.
pub open spec fn is_first_window_for(windows: Seq<WindowInfo>, target: WindowTarget, i: int) -> bool {
    &&& 0 <= i < windows.len()
    &&& windows[i].target == target
    &&& forall|j: int| 0 <= j < i ==> windows[j].target != target
}

/// The title of the first cached window with `target`, if any.
pub open spec fn cached_title(windows: Seq<WindowInfo>, target: WindowTarget) -> Option<Seq<char>> {
    if exists|i: int| is_first_window_for(windows, target, i) {
        Some(windows[choose|i: int| is_first_window_for(windows, target, i)].title@)
    } else {
        None
    }
}

/// How a slot's link is described: the cached title of its window, a hint to refresh
/// when the title is not cached, or a prompt to link when the slot is empty.
pub open spec fn link_description(slot: Slot, windows: Seq<WindowInfo>) -> Seq<char> {
    match slot.target {
        Some(target) => match cached_title(windows, target) {
            Some(title) => title,
            None => "linked (refresh to see title)"@,
        },
        None => "not linked — drag the ✛ onto a window"@,
    }
}

/// Everything but the slots and the dirty flag is unchanged.
pub open spec fn same_except_slots(app: MultiToonApp, other: MultiToonApp) -> bool {
    &&& app.config.bindings == other.config.bindings
    &&& app.config.toggle_individual_mode_hotkey == other.config.toggle_individual_mode_hotkey
    &&& app.config.cycle_individual_slot_hotkey == other.config.cycle_individual_slot_hotkey
    &&& app.mode == other.mode
    &&& app.windows == other.windows
    &&& app.status_message == other.status_message
    &&& app.requested_highlight == other.requested_highlight
    &&& app.quick_setup_count == other.quick_setup_count
}

/// The number of slots quick setup generates for a requested toon count: the count
/// clamped into the supported range.
pub open spec fn quick_setup_size(count: usize) -> nat {
    if count < MIN_SLOTS {
        MIN_SLOTS as nat
    } else if count > MAX_SLOTS {
        MAX_SLOTS as nat
    } else {
        count as nat
    }
}

/// The keys quick setup binds: the movement keys and the jump key.
pub open spec fn quick_setup_keys() -> Seq<Key> {
    seq![Key::W, Key::A, Key::S, Key::D, Key::Space]
}

/// Outputs that send `key` to each of the first `slot_count` slots, in slot order.
pub open spec fn broadcast_outputs(key: Key, slot_count: nat) -> Seq<KeyOutput> {
    Seq::new(slot_count, |i: int| KeyOutput { slot_index: i as SlotIndex, output_key: key })
}

/// The binding table quick setup generates for `slot_count` slots: each quick-setup
/// key broadcast unchanged to every slot.
pub open spec fn quick_setup_bindings(slot_count: nat) -> Seq<(Key, Seq<KeyOutput>)> {
    quick_setup_keys().map_values(|key: Key| (key, broadcast_outputs(key, slot_count)))
}

/// A binding that sends `key` unchanged to each of the first `slot_count` slots.
fn broadcast_binding(key: Key, slot_count: usize) -> (binding: Binding)
    requires
        slot_count <= MAX_SLOTS,
    ensures
        binding.physical_key == key,
        binding.outputs@ == broadcast_outputs(key, slot_count as nat),
{
    let mut outputs: Vec<KeyOutput> = Vec::new();
    let mut i: usize = 0;
    while i < slot_count
        invariant
            i <= slot_count <= MAX_SLOTS,
            outputs@ == broadcast_outputs(key, i as nat),
        decreases slot_count - i,
    {
        outputs.push(KeyOutput { slot_index: i as SlotIndex, output_key: key });
        assert(outputs@ =~= broadcast_outputs(key, (i + 1) as nat));
        i += 1;
    }
    Binding { physical_key: key, outputs }
}

/// Generates a ready-to-play setup for `count` toons (clamped into the supported
/// range): that many unlinked `Toon 1`..`Toon n` slots, and one binding for each of
/// W, A, S, D and Space that sends the same key to every slot. Links, hotkeys, the
/// routing mode and the cached windows are untouched; the result is unsaved.
pub fn quick_setup(app: &mut MultiToonApp, count: usize)
    requires
        old(app).wf(),
    ensures
        final(app).wf(),
        final(app).config.slots@.len() == quick_setup_size(count),
        forall|i: int|
            0 <= i < final(app).config.slots@.len() ==> {
                &&& #[trigger] final(app).config.slots@[i].label@ == numbered_toon_label(
                    (i + 1) as nat,
                )
                &&& final(app).config.slots@[i].target is None
            },
        bindings_model(final(app).config.bindings@) == quick_setup_bindings(
            quick_setup_size(count),
        ),
        binding_keys(final(app).config.bindings@) == quick_setup_keys(),
        binding_keys(final(app).config.bindings@).no_duplicates(),
        final(app).is_dirty,
        final(app).quick_setup_count == quick_setup_size(count),
        final(app).config.toggle_individual_mode_hotkey == old(
            app,
        ).config.toggle_individual_mode_hotkey,
        final(app).config.cycle_individual_slot_hotkey == old(
            app,
        ).config.cycle_individual_slot_hotkey,
        final(app).mode == old(app).mode,
        final(app).windows == old(app).windows,
        final(app).status_message == old(app).status_message,
        final(app).requested_highlight == old(app).requested_highlight,
{
    let slot_count = if count < MIN_SLOTS {
        MIN_SLOTS
    } else if count > MAX_SLOTS {
        MAX_SLOTS
    } else {
        count
    };
    let mut slots: Vec<Slot> = Vec::new();
    let mut i: usize = 0;
    while i < slot_count
        invariant
            i <= slot_count <= MAX_SLOTS,
            slots@.len() == i,
            forall|j: int|
                0 <= j < i ==> {
                    &&& #[trigger] slots@[j].label@ == numbered_toon_label((j + 1) as nat)
                    &&& slots@[j].target is None
                },
        decreases slot_count - i,
    {
        slots.push(Slot::numbered(i + 1));
        i += 1;
    }
    let bindings = vec![
        broadcast_binding(Key::W, slot_count),
        broadcast_binding(Key::A, slot_count),
        broadcast_binding(Key::S, slot_count),
        broadcast_binding(Key::D, slot_count),
        broadcast_binding(Key::Space, slot_count),
    ];
    assert(bindings_model(bindings@) =~= quick_setup_bindings(slot_count as nat));
    assert(binding_keys(bindings@) =~= quick_setup_keys());
    app.config.slots = slots;
    app.config.bindings = bindings;
    app.quick_setup_count = slot_count;
    app.is_dirty = true;
}

/// Adds an unlinked `Toon <n>` slot at the end, unless the maximum is reached.
pub fn add_slot(app: &mut MultiToonApp)
    requires
        old(app).wf(),
    ensures
        final(app).wf(),
        same_except_slots(*final(app), *old(app)),
        old(app).config.slots@.len() < MAX_SLOTS ==> {
            &&& final(app).config.slots@.len() == old(app).config.slots@.len() + 1
            &&& final(app).config.slots@.drop_last() == old(app).config.slots@
            &&& final(app).config.slots@.last().label@ == numbered_toon_label(
                final(app).config.slots@.len(),
            )
            &&& final(app).config.slots@.last().target is None
            &&& final(app).is_dirty
        },
        old(app).config.slots@.len() >= MAX_SLOTS ==> {
            &&& final(app).config.slots == old(app).config.slots
            &&& final(app).is_dirty == old(app).is_dirty
        },
{
    if app.config.slots.len() < MAX_SLOTS {
        let next = app.config.slots.len() + 1;
        app.config.slots.push(Slot::numbered(next));
        assert(app.config.slots@.drop_last() =~= old(app).config.slots@);
        app.is_dirty = true;
    }
}

/// Removes slot `index`, unless only the minimum number of slots is left.
pub fn remove_slot(app: &mut MultiToonApp, index: usize)
    requires
        old(app).wf(),
        index < old(app).config.slots@.len(),
    ensures
        final(app).wf(),
        same_except_slots(*final(app), *old(app)),
        old(app).config.slots@.len() > MIN_SLOTS ==> {
            &&& final(app).config.slots@ == old(app).config.slots@.remove(index as int)
            &&& final(app).is_dirty
        },
        old(app).config.slots@.len() <= MIN_SLOTS ==> {
            &&& final(app).config.slots == old(app).config.slots
            &&& final(app).is_dirty == old(app).is_dirty
        },
{
    if app.config.slots.len() > MIN_SLOTS {
        app.config.slots.remove(index);
        app.is_dirty = true;
    }
}

/// Decides what a crosshair's current interaction should highlight: the window under
/// the cursor while dragging, or the slot's linked window while merely hovering.
pub fn crosshair_highlight(crosshair: &CrosshairState, slot: &Slot) -> (intent: Option<
    HighlightIntent,
>)
    ensures
        crosshair.dragged ==> intent == Some(HighlightIntent::DragPreview { label: slot.label }),
        !crosshair.dragged && crosshair.hovered && slot.target is Some ==> intent == Some(
            HighlightIntent::Linked { target: slot.target->0, label: slot.label },
        ),
        !crosshair.dragged && !(crosshair.hovered && slot.target is Some) ==> intent is None,
{
    if crosshair.dragged {
        return Some(HighlightIntent::DragPreview { label: slot.label.clone() });
    }
    if crosshair.hovered {
        if let Some(target) = slot.target {
            return Some(HighlightIntent::Linked { target, label: slot.label.clone() });
        }
    }
    None
}

/// Looks up the cached title for a linked target, if it is still in the list.
pub fn find_title(target: &WindowTarget, windows: &[WindowInfo]) -> (title: Option<String>)
    ensures
        match title {
            Some(title) => cached_title(windows@, *target) == Some(title@),
            None => cached_title(windows@, *target) is None,
        },
{
    let mut i: usize = 0;
    while i < windows.len()
        invariant
            i <= windows@.len(),
            forall|j: int| 0 <= j < i ==> windows@[j].target != *target,
        decreases windows@.len() - i,
    {
        if windows[i].target == *target {
            proof {
                lemma_first_window_unique(windows@, *target, i as int);
            }
            return Some(windows[i].title.clone());
        }
        i += 1;
    }
    None
}

/// There is at most one first window for a target.
proof fn lemma_first_window_unique(windows: Seq<WindowInfo>, target: WindowTarget, i: int)
    requires
        is_first_window_for(windows, target, i),
    ensures
        cached_title(windows, target) == Some(windows[i].title@),
{
    let c = choose|c: int| is_first_window_for(windows, target, c);
    assert(c == i) by {
        if c < i {
            assert(windows[c].target != target);
        } else if i < c {
            assert(windows[i].target != target);
        }
    }
}

/// Describes a slot's linked window, preferring the cached title and prompting the
/// user to use the crosshair when the slot is empty.
pub fn link_label(slot: &Slot, windows: &[WindowInfo]) -> (text: String)
    ensures
        text@ == link_description(*slot, windows@),
{
    match &slot.target {
        Some(target) => match find_title(target, windows) {
            Some(title) => title,
            None => String::from_str("linked (refresh to see title)"),
        },
        None => String::from_str("not linked — drag the ✛ onto a window"),
    }
}

} // verus!
