//! The controller state the user interface drives: the configuration being edited,
//! the routing mode, the cached window list, and the save/status indicators.
//!
//! Every transition here is a decision: the application performs the outside work
//! (drawing, enumerating windows, injecting keys, writing the config file) and hands
//! the outcome back to one of these methods.

pub mod bindings_panel;
pub mod slots_panel;
pub mod status_bar;

use vstd::prelude::*;
use crate::config::{
    binding_keys, first_repeated_key, numbered_toon_label, Config, Slot, SlotIndex, WindowTarget,
    MAX_SLOTS, MIN_SLOTS,
};
use crate::key::{key_label, Key};
use crate::platform::{Highlight, WindowInfo};
use crate::router::{route, routed, Dispatch, RoutingMode};
use crate::text::{decimal, decimal_string};

verus! {

/// What the slots panel wants highlighted this frame, before the window is resolved.
#[derive(Debug)]
pub enum HighlightIntent {
    /// Frame a slot's already-linked window (crosshair hovered).
    Linked {
        /// The linked window to outline.
        target: WindowTarget,
        /// Label to show in the bubble.
        label: String,
    },
    /// Frame whatever window is under the cursor right now (crosshair being dragged).
    DragPreview {
        /// Label to show in the bubble.
        label: String,
    },
}

/// One key event to inject: press or release `output_key` in the window of slot
/// `slot_index`.
#[derive(Debug, Clone, Copy, PartialEq, Eq, Structural)]
pub struct Delivery {
    /// The receiving slot.
    pub slot_index: SlotIndex,
    /// The window linked to that slot.
    pub target: WindowTarget,
    /// The key to inject.
    pub output_key: Key,
    /// Whether this is a press (`true`) or a release.
    pub pressed: bool,
}

/// All runtime state of the controller except its platform backend and file path.
#[derive(Debug)]
pub struct MultiToonApp {
    /// The configuration currently being edited.
    pub config: Config,
    /// How keystrokes are currently routed.
    pub mode: RoutingMode,
    /// Windows from the most recent enumeration or pick.
    pub windows: Vec<WindowInfo>,
    /// Whether the config has unsaved edits.
    pub is_dirty: bool,
    /// A short transient message shown in the status bar.
    pub status_message: Option<String>,
    /// What to highlight this frame, set by the slots panel and applied after layout.
    pub requested_highlight: Option<HighlightIntent>,
    /// Desired toon count for the quick-setup generator.
    pub quick_setup_count: usize,
}

/// The window linked to slot `index`, if the slot exists and is linked.
pub open spec fn slot_target(slots: Seq<Slot>, index: int) -> Option<WindowTarget> {
    if 0 <= index < slots.len() {
        slots[index].target
    } else {
        None
    }
}

/// The key events a list of dispatches becomes: one per dispatch whose slot has a
/// window, in dispatch order; dispatches to missing or unlinked slots are skipped.
pub open spec fn deliveries_for(slots: Seq<Slot>, dispatches: Seq<Dispatch>, pressed: bool) -> Seq<
    Delivery,
>
    decreases dispatches.len(),
{
    if dispatches.len() == 0 {
        Seq::empty()
    } else {
        let earlier = deliveries_for(slots, dispatches.drop_last(), pressed);
        let last = dispatches.last();
        match slot_target(slots, last.slot_index as int) {
            Some(target) => earlier.push(
                Delivery { slot_index: last.slot_index, target, output_key: last.output_key, pressed },
            ),
            None => earlier,
        }
    }
}

/// The mode after the toggle hotkey: multi-toon switches to individual mode on the
/// first slot, individual mode switches back to multi-toon.
pub open spec fn toggled(mode: RoutingMode) -> RoutingMode {
    match mode {
        RoutingMode::MultiToon => RoutingMode::Individual { active_slot: 0 },
        RoutingMode::Individual { .. } => RoutingMode::MultiToon,
    }
}

/// The mode after the cycle hotkey with `slot_count` slots: in individual mode the
/// active slot advances by one, wrapping around; multi-toon mode is unaffected.
pub open spec fn cycled(mode: RoutingMode, slot_count: nat) -> RoutingMode {
    match mode {
        RoutingMode::MultiToon => RoutingMode::MultiToon,
        RoutingMode::Individual { active_slot } => RoutingMode::Individual {
            active_slot: ((active_slot + 1) % (slot_count as int)) as SlotIndex,
        },
    }
}

/// The mode after pressing the cycle hotkey `presses` times.
pub open spec fn cycled_times(mode: RoutingMode, slot_count: nat, presses: nat) -> RoutingMode
    decreases presses,
{
    if presses == 0 {
        mode
    } else {
        cycled(cycled_times(mode, slot_count, (presses - 1) as nat), slot_count)
    }
}

/// The slot list the controller works with, derived from a loaded one: short lists
/// are padded with unlinked `Toon <n>` slots up to the minimum, long ones cut at the
/// maximum, and the slots kept are unchanged.
pub open spec fn is_normalized(loaded: Seq<Slot>, slots: Seq<Slot>) -> bool {
    &&& slots.len() == if loaded.len() < MIN_SLOTS {
        MIN_SLOTS as int
    } else if loaded.len() > MAX_SLOTS {
        MAX_SLOTS as int
    } else {
        loaded.len() as int
    }
    &&& forall|i: int| 0 <= i < slots.len() && i < loaded.len() ==> slots[i] == loaded[i]
    &&& forall|i: int|
        loaded.len() <= i < slots.len() ==> slots[i].label@ == numbered_toon_label((i + 1) as nat)
            && slots[i].target is None
}

/// Whether the status bar shows exactly `text`.
pub open spec fn shows_status(app: MultiToonApp, text: Seq<char>) -> bool {
    app.status_message matches Some(message) && message@ == text
}

/// Whether a window list already holds a window with `target`.
pub open spec fn knows_target(windows: Seq<WindowInfo>, target: WindowTarget) -> bool {
    exists|i: int| 0 <= i < windows.len() && windows[i].target == target
}

/// Pads or truncates the slot list so its length lands within the supported range.
pub fn normalize_slot_count(config: &mut Config)
    ensures
        is_normalized(old(config).slots@, final(config).slots@),
        final(config).bindings == old(config).bindings,
        final(config).toggle_individual_mode_hotkey == old(config).toggle_individual_mode_hotkey,
        final(config).cycle_individual_slot_hotkey == old(config).cycle_individual_slot_hotkey,
{
    let ghost loaded = config.slots@;
    while config.slots.len() < MIN_SLOTS
        invariant
            loaded.len() <= config.slots@.len(),
            config.slots@.len() <= if loaded.len() < MIN_SLOTS {
                MIN_SLOTS as int
            } else {
                loaded.len() as int
            },
            forall|i: int| 0 <= i < loaded.len() ==> config.slots@[i] == loaded[i],
            forall|i: int|
                loaded.len() <= i < config.slots@.len() ==> config.slots@[i].label@
                    == numbered_toon_label((i + 1) as nat) && config.slots@[i].target is None,
            config.bindings == old(config).bindings,
            config.toggle_individual_mode_hotkey == old(config).toggle_individual_mode_hotkey,
            config.cycle_individual_slot_hotkey == old(config).cycle_individual_slot_hotkey,
        decreases MIN_SLOTS - config.slots@.len(),
    {
        let next = config.slots.len() + 1;
        config.slots.push(Slot::numbered(next));
    }
    config.slots.truncate(MAX_SLOTS);
}

impl MultiToonApp {
    /// The state's invariant: the slot count is within the supported range, and an
    /// individual-mode active slot is below the maximum slot count.
    pub open spec fn wf(&self) -> bool {
        &&& MIN_SLOTS <= self.config.slots@.len() <= MAX_SLOTS
        &&& self.mode matches RoutingMode::Individual { active_slot } ==> active_slot < MAX_SLOTS
    }

    /// Everything but the status message is as in `other`.
    pub open spec fn same_except_status(&self, other: &Self) -> bool {
        &&& self.config.slots == other.config.slots
        &&& self.config.bindings == other.config.bindings
        &&& self.config.toggle_individual_mode_hotkey == other.config.toggle_individual_mode_hotkey
        &&& self.config.cycle_individual_slot_hotkey == other.config.cycle_individual_slot_hotkey
        &&& self.mode == other.mode
        &&& self.windows == other.windows
        &&& self.is_dirty == other.is_dirty
        &&& self.requested_highlight == other.requested_highlight
        &&& self.quick_setup_count == other.quick_setup_count
    }

    /// Everything but the routing mode is as in `other`.
    pub open spec fn same_except_mode(&self, other: &Self) -> bool {
        &&& self.config.slots == other.config.slots
        &&& self.config.bindings == other.config.bindings
        &&& self.config.toggle_individual_mode_hotkey == other.config.toggle_individual_mode_hotkey
        &&& self.config.cycle_individual_slot_hotkey == other.config.cycle_individual_slot_hotkey
        &&& self.windows == other.windows
        &&& self.is_dirty == other.is_dirty
        &&& self.status_message == other.status_message
        &&& self.requested_highlight == other.requested_highlight
        &&& self.quick_setup_count == other.quick_setup_count
    }

    /// The hotkeys, the pending highlight and the quick-setup count are as in `other`.
    pub open spec fn same_extras(&self, other: &Self) -> bool {
        &&& self.config.toggle_individual_mode_hotkey == other.config.toggle_individual_mode_hotkey
        &&& self.config.cycle_individual_slot_hotkey == other.config.cycle_individual_slot_hotkey
        &&& self.requested_highlight == other.requested_highlight
        &&& self.quick_setup_count == other.quick_setup_count
    }

    /// Builds the state from a loaded config, normalizing the slot count into the
    /// supported range; the controller starts in multi-toon mode with nothing unsaved.
    pub fn new(config: Config) -> (app: Self)
        ensures
            app.wf(),
            is_normalized(config.slots@, app.config.slots@),
            app.config.bindings == config.bindings,
            app.config.toggle_individual_mode_hotkey == config.toggle_individual_mode_hotkey,
            app.config.cycle_individual_slot_hotkey == config.cycle_individual_slot_hotkey,
            app.mode == RoutingMode::MultiToon,
            app.windows@.len() == 0,
            !app.is_dirty,
            app.status_message is None,
            app.requested_highlight is None,
            app.quick_setup_count == app.config.slots@.len(),
    {
        let mut config = config;
        normalize_slot_count(&mut config);
        let quick_setup_count = config.slots.len();
        MultiToonApp {
            config,
            mode: RoutingMode::MultiToon,
            windows: Vec::new(),
            is_dirty: false,
            status_message: None,
            requested_highlight: None,
            quick_setup_count,
        }
    }

    /// Flips between multi-toon and individual control, starting individual mode on
    /// the first slot.
    pub fn toggle_mode(&mut self)
        ensures
            final(self).mode == toggled(old(self).mode),
            final(self).same_except_mode(old(self)),
            old(self).wf() ==> final(self).wf(),
    {
        self.mode = match self.mode {
            RoutingMode::MultiToon => RoutingMode::Individual { active_slot: 0 },
            RoutingMode::Individual { .. } => RoutingMode::MultiToon,
        };
    }

    /// In individual mode, advances the active slot, wrapping around the slot list.
    pub fn cycle_active_slot(&mut self)
        requires
            old(self).wf(),
        ensures
            final(self).wf(),
            final(self).mode == cycled(old(self).mode, old(self).config.slots@.len()),
            final(self).same_except_mode(old(self)),
    {
        if let RoutingMode::Individual { active_slot } = self.mode {
            let slot_count = self.config.slots.len() as SlotIndex;
            self.mode = RoutingMode::Individual { active_slot: (active_slot + 1) % slot_count };
        }
    }

    /// The key events one physical key press or release turns into: the routed
    /// dispatches whose slots are linked to a window, in order.
    pub fn deliveries(&self, physical_key: Key, pressed: bool) -> (deliveries: Vec<Delivery>)
        ensures
            deliveries@ == deliveries_for(
                self.config.slots@,
                routed(self.mode, self.config.bindings@, physical_key),
                pressed,
            ),
    {
        let dispatches = route(&self.mode, self.config.bindings.as_slice(), physical_key);
        let mut deliveries: Vec<Delivery> = Vec::new();
        let mut i: usize = 0;
        while i < dispatches.len()
            invariant
                i <= dispatches@.len(),
                deliveries@ == deliveries_for(self.config.slots@, dispatches@.take(i as int), pressed),
            decreases dispatches@.len() - i,
        {
            let dispatch = dispatches[i];
            let index = dispatch.slot_index as usize;
            let target = if index < self.config.slots.len() {
                self.config.slots[index].target
            } else {
                None
            };
            assert(dispatches@.take(i + 1).drop_last() =~= dispatches@.take(i as int));
            if let Some(target) = target {
                deliveries.push(
                    Delivery {
                        slot_index: dispatch.slot_index,
                        target,
                        output_key: dispatch.output_key,
                        pressed,
                    },
                );
            }
            i += 1;
        }
        assert(dispatches@.take(i as int) =~= dispatches@);
        deliveries
    }

    /// Handles one key event from the focused controller window. The two mode hotkeys
    /// are consumed entirely (acting only on a fresh press) and never reach a game
    /// window; any other key becomes the deliveries the current mode routes it to.
    pub fn handle_key(&mut self, key: Key, pressed: bool, repeat: bool) -> (deliveries: Vec<Delivery>)
        requires
            old(self).wf(),
        ensures
            final(self).wf(),
            final(self).same_except_mode(old(self)),
            key == old(self).config.toggle_individual_mode_hotkey ==> {
                &&& deliveries@.len() == 0
                &&& final(self).mode == if pressed && !repeat {
                    toggled(old(self).mode)
                } else {
                    old(self).mode
                }
            },
            key != old(self).config.toggle_individual_mode_hotkey && key
                == old(self).config.cycle_individual_slot_hotkey ==> {
                &&& deliveries@.len() == 0
                &&& final(self).mode == if pressed && !repeat {
                    cycled(old(self).mode, old(self).config.slots@.len())
                } else {
                    old(self).mode
                }
            },
            key != old(self).config.toggle_individual_mode_hotkey && key
                != old(self).config.cycle_individual_slot_hotkey ==> {
                &&& deliveries@ == deliveries_for(
                    old(self).config.slots@,
                    routed(old(self).mode, old(self).config.bindings@, key),
                    pressed,
                )
                &&& final(self).mode == old(self).mode
            },
    {
        if key == self.config.toggle_individual_mode_hotkey {
            if pressed && !repeat {
                self.toggle_mode();
            }
            return Vec::new();
        }
        if key == self.config.cycle_individual_slot_hotkey {
            if pressed && !repeat {
                self.cycle_active_slot();
            }
            return Vec::new();
        }
        self.deliveries(key, pressed)
    }

    /// Records a successful window enumeration, replacing the cached list.
    pub fn finish_refresh(&mut self, windows: Vec<WindowInfo>)
        ensures
            final(self).windows == windows,
            shows_status(
                *final(self),
                "Found "@ + decimal(windows@.len()) + " Toontown window(s)"@,
            ),
            final(self).config.slots == old(self).config.slots,
            final(self).config.bindings == old(self).config.bindings,
            final(self).mode == old(self).mode,
            final(self).is_dirty == old(self).is_dirty,
            final(self).same_extras(old(self)),
            old(self).wf() ==> final(self).wf(),
    {
        let count = windows.len();
        self.windows = windows;
        let mut message = String::from_str("Found ");
        message.append(decimal_string(count).as_str());
        message.append(" Toontown window(s)");
        self.status_message = Some(message);
    }

    /// Records a failed window enumeration, keeping the cached list.
    pub fn refresh_failed(&mut self, error: &str)
        ensures
            shows_status(*final(self), "Enumeration error: "@ + error@),
            final(self).same_except_status(old(self)),
    {
        self.set_status("Enumeration error: ", error);
    }

    /// Links the window found under the cursor when slot `slot_index`'s crosshair was
    /// released. The window is also cached so its title shows without a refresh; a
    /// missing slot index links nothing.
    pub fn link_picked_window(&mut self, slot_index: usize, picked: Option<WindowInfo>)
        requires
            old(self).wf(),
        ensures
            final(self).wf(),
            final(self).config.bindings == old(self).config.bindings,
            final(self).mode == old(self).mode,
            final(self).same_extras(old(self)),
            match picked {
                Some(window) => {
                    &&& final(self).windows@ == if knows_target(old(self).windows@, window.target) {
                        old(self).windows@
                    } else {
                        old(self).windows@.push(window)
                    }
                    &&& if slot_index < old(self).config.slots@.len() {
                        &&& final(self).config.slots@ == old(self).config.slots@.update(
                            slot_index as int,
                            Slot {
                                label: old(self).config.slots@[slot_index as int].label,
                                target: Some(window.target),
                            },
                        )
                        &&& final(self).is_dirty
                        &&& shows_status(*final(self), "Linked \""@ + window.title@ + "\""@)
                    } else {
                        &&& final(self).config.slots == old(self).config.slots
                        &&& final(self).is_dirty == old(self).is_dirty
                        &&& final(self).status_message == old(self).status_message
                    }
                },
                None => {
                    &&& shows_status(*final(self), "No Toontown window under the cursor"@)
                    &&& final(self).same_except_status(old(self))
                },
            },
    {
        match picked {
            Some(window) => {
                let target = window.target;
                let title = window.title.clone();
                let mut known = false;
                let mut i: usize = 0;
                while i < self.windows.len()
                    invariant
                        i <= self.windows@.len(),
                        known == exists|j: int| 0 <= j < i && self.windows@[j].target == target,
                    decreases self.windows@.len() - i,
                {
                    if self.windows[i].target == target {
                        known = true;
                    }
                    i += 1;
                }
                if !known {
                    self.windows.push(window);
                }
                if slot_index < self.config.slots.len() {
                    let mut slot = self.config.slots.remove(slot_index);
                    slot.target = Some(target);
                    self.config.slots.insert(slot_index, slot);
                    assert(self.config.slots@ =~= old(self).config.slots@.update(
                        slot_index as int,
                        Slot {
                            label: old(self).config.slots@[slot_index as int].label,
                            target: Some(target),
                        },
                    ));
                    self.is_dirty = true;
                    let mut message = String::from_str("Linked \"");
                    message.append(title.as_str());
                    message.append("\"");
                    self.status_message = Some(message);
                }
            },
            None => {
                self.status_message = Some(String::from_str("No Toontown window under the cursor"));
            },
        }
    }

    /// Records a failed cursor pick.
    pub fn pick_failed(&mut self, error: &str)
        ensures
            shows_status(*final(self), "Pick error: "@ + error@),
            final(self).same_except_status(old(self)),
    {
        self.set_status("Pick error: ", error);
    }

    /// Validates the config before a save: refuses (with a status message naming the
    /// key) while a physical key is bound more than once. Returns whether the save
    /// may proceed.
    pub fn begin_save(&mut self) -> (may_save: bool)
        ensures
            may_save == (first_repeated_key(binding_keys(old(self).config.bindings@)) is None),
            match first_repeated_key(binding_keys(old(self).config.bindings@)) {
                Some(key) => shows_status(
                    *final(self),
                    "Cannot save: key "@ + key_label(key) + " is bound twice"@,
                ),
                None => final(self).status_message == old(self).status_message,
            },
            final(self).same_except_status(old(self)),
    {
        match self.config.duplicate_binding_key() {
            Some(duplicate) => {
                let mut message = String::from_str("Cannot save: key ");
                message.append(duplicate.to_string().as_str());
                message.append(" is bound twice");
                self.status_message = Some(message);
                false
            },
            None => true,
        }
    }

    /// Records that the config was written: nothing is unsaved any more.
    pub fn save_succeeded(&mut self)
        ensures
            !final(self).is_dirty,
            shows_status(*final(self), "Config saved"@),
            final(self).config.slots == old(self).config.slots,
            final(self).config.bindings == old(self).config.bindings,
            final(self).mode == old(self).mode,
            final(self).windows == old(self).windows,
            final(self).same_extras(old(self)),
            old(self).wf() ==> final(self).wf(),
    {
        self.is_dirty = false;
        self.status_message = Some(String::from_str("Config saved"));
    }

    /// Records a failed config write; the edits stay unsaved.
    pub fn save_failed(&mut self, error: &str)
        ensures
            shows_status(*final(self), "Save error: "@ + error@),
            final(self).same_except_status(old(self)),
    {
        self.set_status("Save error: ", error);
    }

    /// Records a failed key injection.
    pub fn send_failed(&mut self, error: &str)
        ensures
            shows_status(*final(self), "Send error: "@ + error@),
            final(self).same_except_status(old(self)),
    {
        self.set_status("Send error: ", error);
    }

    /// Shows `prefix` followed by `detail` in the status bar.
    fn set_status(&mut self, prefix: &str, detail: &str)
        ensures
            shows_status(*final(self), prefix@ + detail@),
            final(self).same_except_status(old(self)),
    {
        let mut message = String::from_str(prefix);
        message.append(detail);
        self.status_message = Some(message);
    }
}

impl HighlightIntent {
    /// Whether resolving this intent needs the window under the cursor.
    pub fn wants_cursor_window(&self) -> (wants: bool)
        ensures
            wants == (*self is DragPreview),
    {
        match self {
            HighlightIntent::Linked { .. } => false,
            HighlightIntent::DragPreview { .. } => true,
        }
    }

    /// The highlight to draw: a linked window is framed as is; a drag preview frames
    /// the window under the cursor, or nothing when there is none.
    pub fn resolve(self, cursor_window: Option<WindowInfo>) -> (highlight: Option<Highlight>)
        ensures
            match self {
                HighlightIntent::Linked { target, label } => highlight == Some(
                    Highlight { target, label },
                ),
                HighlightIntent::DragPreview { label } => match cursor_window {
                    Some(window) => highlight == Some(Highlight { target: window.target, label }),
                    None => highlight is None,
                },
            },
    {
        match self {
            HighlightIntent::Linked { target, label } => Some(Highlight { target, label }),
            HighlightIntent::DragPreview { label } => match cursor_window {
                Some(window) => Some(Highlight { target: window.target, label }),
                None => None,
            },
        }
    }
}

/// A keystroke reaches exactly the linked slots it is routed to: every delivery goes
/// to the window linked to its slot, and every routed dispatch whose slot is linked
/// is delivered there.
pub proof fn lemma_deliveries_follow_links(slots: Seq<Slot>, dispatches: Seq<Dispatch>, pressed: bool)
    ensures
        forall|i: int|
            0 <= i < deliveries_for(slots, dispatches, pressed).len() ==> {
                let delivery = #[trigger] deliveries_for(slots, dispatches, pressed)[i];
                &&& slot_target(slots, delivery.slot_index as int) == Some(delivery.target)
                &&& delivery.pressed == pressed
            },
        forall|k: int|
            0 <= k < dispatches.len() && #[trigger] slot_target(slots, dispatches[k].slot_index as int)
                is Some ==> deliveries_for(slots, dispatches, pressed).contains(
                Delivery {
                    slot_index: dispatches[k].slot_index,
                    target: slot_target(slots, dispatches[k].slot_index as int)->0,
                    output_key: dispatches[k].output_key,
                    pressed,
                },
            ),
    decreases dispatches.len(),
{
    if dispatches.len() > 0 {
        let earlier = dispatches.drop_last();
        lemma_deliveries_follow_links(slots, earlier, pressed);
        let before = deliveries_for(slots, earlier, pressed);
        let after = deliveries_for(slots, dispatches, pressed);
        assert forall|k: int|
            0 <= k < dispatches.len() && #[trigger] slot_target(slots, dispatches[k].slot_index as int)
                is Some implies after.contains(
            Delivery {
                slot_index: dispatches[k].slot_index,
                target: slot_target(slots, dispatches[k].slot_index as int)->0,
                output_key: dispatches[k].output_key,
                pressed,
            },
        ) by {
            let wanted = Delivery {
                slot_index: dispatches[k].slot_index,
                target: slot_target(slots, dispatches[k].slot_index as int)->0,
                output_key: dispatches[k].output_key,
                pressed,
            };
            if k < dispatches.len() - 1 {
                assert(earlier[k] == dispatches[k]);
                assert(slot_target(slots, earlier[k].slot_index as int) is Some);
                let j = choose|j: int| 0 <= j < before.len() && before[j] == wanted;
                assert(after[j] == wanted);
            } else {
                assert(after[after.len() - 1] == wanted);
            }
        }
    }
}

/// Toggling twice from multi-toon mode comes back to multi-toon mode.
pub proof fn lemma_toggle_twice_from_multitoon()
    ensures
        toggled(toggled(RoutingMode::MultiToon)) == RoutingMode::MultiToon,
{
}

/// The toggle hotkey always leaves individual mode for multi-toon mode, whatever slot
/// is active, and always enters individual mode on the first slot from multi-toon
/// mode.
pub proof fn lemma_toggle_switches_modes(mode: RoutingMode)
    ensures
        (toggled(mode) is Individual) <==> (mode is MultiToon),
        mode is Individual ==> toggled(mode) == RoutingMode::MultiToon,
        mode is MultiToon ==> toggled(mode) == (RoutingMode::Individual { active_slot: 0 }),
{
}

/// Pressing the cycle hotkey `presses` times from active slot `start` lands on slot
/// `(start + presses) mod slot_count`.
pub proof fn lemma_cycling_advances(start: SlotIndex, slot_count: nat, presses: nat)
    requires
        start < slot_count,
        slot_count <= MAX_SLOTS,
    ensures
        cycled_times(RoutingMode::Individual { active_slot: start }, slot_count, presses)
            == (RoutingMode::Individual {
            active_slot: ((start + presses) % (slot_count as int)) as SlotIndex,
        }),
    decreases presses,
{
    if presses > 0 {
        lemma_cycling_advances(start, slot_count, (presses - 1) as nat);
        let previous = (start + presses - 1) % (slot_count as int);
        assert(0 <= previous < slot_count) by (nonlinear_arith)
            requires
                previous == (start + presses - 1) % (slot_count as int),
                slot_count > 0,
        ;
        assert(((previous + 1) % (slot_count as int)) == (start + presses) % (slot_count as int))
            by (nonlinear_arith)
            requires
                previous == (start + presses - 1) % (slot_count as int),
                slot_count > 0,
                presses > 0,
        ;
        assert(0 <= (start + presses) % (slot_count as int) < slot_count) by (nonlinear_arith)
            requires
                slot_count > 0,
        ;
        assert((previous as SlotIndex) as int == previous);
        let next = ((previous as SlotIndex) + 1) % (slot_count as int);
        assert(next == (start + presses) % (slot_count as int));
    } else {
        assert((start as int) % (slot_count as int) == start) by (nonlinear_arith)
            requires
                start < slot_count,
        ;
    }
}

/// Pressing the cycle hotkey once per slot comes back to the starting slot.
pub proof fn lemma_cycling_wraps_around(start: SlotIndex, slot_count: nat)
    requires
        start < slot_count,
        slot_count <= MAX_SLOTS,
    ensures
        cycled_times(RoutingMode::Individual { active_slot: start }, slot_count, slot_count)
            == (RoutingMode::Individual { active_slot: start }),
{
    lemma_cycling_advances(start, slot_count, slot_count);
    assert((start + slot_count) % (slot_count as int) == start) by (nonlinear_arith)
        requires
            start < slot_count,
    ;
}

} // verus!
