//! The status bar's mode description.

use vstd::prelude::*;
use crate::config::Slot;
use crate::router::RoutingMode;
use crate::text::{decimal, decimal_string};
use crate::ui::MultiToonApp;

verus! {

/// The label shown for the active slot: the slot's own label, or `?` when the slot
/// no longer exists.
pub open spec fn active_slot_label(slots: Seq<Slot>, active_slot: int) -> Seq<char> {
    if 0 <= active_slot < slots.len() {
        slots[active_slot].label@
    } else {
        "?"@
    }
}

/// The human-readable mode description.
pub open spec fn mode_description(mode: RoutingMode, slots: Seq<Slot>) -> Seq<char> {
    match mode {
        RoutingMode::MultiToon => "Mode: Multi-toon (all bound slots)"@,
        RoutingMode::Individual { active_slot } => "Mode: Individual → slot #"@ + decimal(
            active_slot as nat,
        ) + " ("@ + active_slot_label(slots, active_slot as int) + ")"@,
    }
}

/// Builds the human-readable mode description, including the active slot's label
/// when in individual mode.
pub fn mode_text(app: &MultiToonApp) -> (text: String)
    ensures
        text@ == mode_description(app.mode, app.config.slots@),
{
    match app.mode {
        RoutingMode::MultiToon => String::from_str("Mode: Multi-toon (all bound slots)"),
        RoutingMode::Individual { active_slot } => {
            let index = active_slot as usize;
            let mut text = String::from_str("Mode: Individual → slot #");
            text.append(decimal_string(index).as_str());
            text.append(" (");
            if index < app.config.slots.len() {
                text.append(app.config.slots[index].label.as_str());
            } else {
                text.append("?");
            }
            text.append(")");
            text
        },
    }
}

} // verus!
