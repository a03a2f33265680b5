//! The binding table's edits: adding a binding for the first unbound key, and the
//! structural edits (add or remove an output, remove a binding) queued while the
//! table is drawn and applied afterwards.

use vstd::prelude::*;
use crate::config::{binding_keys, bindings_model, Binding, KeyOutput};
use crate::key::{all_keys, key_count, lemma_all_keys_lists_each_key_once, Key};
use crate::ui::{shows_status, MultiToonApp};

verus! {

/// Structural edits collected while the binding table is drawn, applied once the
/// drawing no longer borrows the binding list.
#[derive(Debug, Default)]
pub struct PendingEdits {
    /// Remove the binding at this position.
    pub binding_to_remove: Option<usize>,
    /// Remove output `.1` of binding `.0`.
    pub output_to_remove: Option<(usize, usize)>,
    /// Append a passthrough output on slot 0 to the binding at this position.
    pub add_output_to: Option<usize>,
}

/// A binding model after appending a passthrough output on slot 0 to binding `i`
/// (no change when there is no such binding).
pub open spec fn with_output_added(model: Seq<(Key, Seq<KeyOutput>)>, i: int) -> Seq<
    (Key, Seq<KeyOutput>),
> {
    if 0 <= i < model.len() {
        model.update(
            i,
            (model[i].0, model[i].1.push(KeyOutput { slot_index: 0, output_key: model[i].0 })),
        )
    } else {
        model
    }
}

/// A binding model after removing output `j` of binding `i` (no change when there is
/// no such output).
pub open spec fn with_output_removed(model: Seq<(Key, Seq<KeyOutput>)>, i: int, j: int) -> Seq<
    (Key, Seq<KeyOutput>),
> {
    if 0 <= i < model.len() && 0 <= j < model[i].1.len() {
        model.update(i, (model[i].0, model[i].1.remove(j)))
    } else {
        model
    }
}

/// A binding model after removing binding `i` (no change when there is none).
pub open spec fn with_binding_removed(model: Seq<(Key, Seq<KeyOutput>)>, i: int) -> Seq<
    (Key, Seq<KeyOutput>),
> {
    if 0 <= i < model.len() {
        model.remove(i)
    } else {
        model
    }
}

/// The binding model after applying the pending edits in order: add an output, then
/// remove an output, then remove a binding.
pub open spec fn after_edits(model: Seq<(Key, Seq<KeyOutput>)>, pending: PendingEdits) -> Seq<
    (Key, Seq<KeyOutput>),
> {
    let added = match pending.add_output_to {
        Some(i) => with_output_added(model, i as int),
        None => model,
    };
    let trimmed = match pending.output_to_remove {
        Some((i, j)) => with_output_removed(added, i as int, j as int),
        None => added,
    };
    match pending.binding_to_remove {
        Some(i) => with_binding_removed(trimmed, i as int),
        None => trimmed,
    }
}

/// Whether at least one pending edit names something that exists when its turn comes.
pub open spec fn edits_apply(model: Seq<(Key, Seq<KeyOutput>)>, pending: PendingEdits) -> bool {
    let added = match pending.add_output_to {
        Some(i) => with_output_added(model, i as int),
        None => model,
    };
    let trimmed = match pending.output_to_remove {
        Some((i, j)) => with_output_removed(added, i as int, j as int),
        None => added,
    };
    ||| pending.add_output_to matches Some(i) && i < model.len()
    ||| pending.output_to_remove matches Some((i, j)) && i < added.len() && j < added[i as int].1.len()
    ||| pending.binding_to_remove matches Some(i) && i < trimmed.len()
}

/// Display position `i` holds the first key that `used` does not contain.
pub open spec fn is_first_unused(used: Seq<Key>, i: int) -> bool {
    &&& 0 <= i < key_count()
    &&& !used.contains(all_keys()[i])
    &&& forall|j: int| 0 <= j < i ==> used.contains(all_keys()[j])
}

/// The first key in display order that `used` does not contain, if any.
pub open spec fn first_unused_key(used: Seq<Key>) -> Option<Key> {
    if exists|i: int| is_first_unused(used, i) {
        Some(all_keys()[choose|i: int| is_first_unused(used, i)])
    } else {
        None
    }
}

/// Everything but the bindings, the dirty flag and the status message is unchanged.
pub open spec fn same_except_binding_edits(app: MultiToonApp, other: MultiToonApp) -> bool {
    &&& app.config.slots == other.config.slots
    &&& app.config.toggle_individual_mode_hotkey == other.config.toggle_individual_mode_hotkey
    &&& app.config.cycle_individual_slot_hotkey == other.config.cycle_individual_slot_hotkey
    &&& app.mode == other.mode
    &&& app.windows == other.windows
    &&& app.requested_highlight == other.requested_highlight
    &&& app.quick_setup_count == other.quick_setup_count
}

/// Applies the structural edits queued while drawing. Returns whether anything
/// changed.
pub fn apply_pending(app: &mut MultiToonApp, pending: PendingEdits) -> (changed: bool)
    ensures
        bindings_model(final(app).config.bindings@) == after_edits(
            bindings_model(old(app).config.bindings@),
            pending,
        ),
        changed == edits_apply(bindings_model(old(app).config.bindings@), pending),
        final(app).is_dirty == old(app).is_dirty,
        final(app).status_message == old(app).status_message,
        same_except_binding_edits(*final(app), *old(app)),
        old(app).wf() ==> final(app).wf(),
{
    let ghost model = bindings_model(app.config.bindings@);
    let mut changed = false;
    if let Some(binding_index) = pending.add_output_to {
        if binding_index < app.config.bindings.len() {
            let mut binding = app.config.bindings.remove(binding_index);
            binding.outputs.push(KeyOutput { slot_index: 0, output_key: binding.physical_key });
            app.config.bindings.insert(binding_index, binding);
            assert(bindings_model(app.config.bindings@) =~= with_output_added(
                model,
                binding_index as int,
            ));
            changed = true;
        }
    }
    let ghost added = bindings_model(app.config.bindings@);
    assert(added == match pending.add_output_to {
        Some(i) => with_output_added(model, i as int),
        None => model,
    });
    if let Some((binding_index, output_index)) = pending.output_to_remove {
        if binding_index < app.config.bindings.len() {
            if output_index < app.config.bindings[binding_index].outputs.len() {
                let mut binding = app.config.bindings.remove(binding_index);
                binding.outputs.remove(output_index);
                app.config.bindings.insert(binding_index, binding);
                assert(bindings_model(app.config.bindings@) =~= with_output_removed(
                    added,
                    binding_index as int,
                    output_index as int,
                ));
                changed = true;
            }
        }
    }
    let ghost trimmed = bindings_model(app.config.bindings@);
    assert(trimmed == match pending.output_to_remove {
        Some((i, j)) => with_output_removed(added, i as int, j as int),
        None => added,
    });
    if let Some(binding_index) = pending.binding_to_remove {
        if binding_index < app.config.bindings.len() {
            app.config.bindings.remove(binding_index);
            assert(bindings_model(app.config.bindings@) =~= trimmed.remove(binding_index as int));
            changed = true;
        }
    }
    changed
}

/// Whether `key` is the physical key of some binding.
fn key_is_bound(bindings: &Vec<Binding>, key: Key) -> (bound: bool)
    ensures
        bound == binding_keys(bindings@).contains(key),
{
    let mut i: usize = 0;
    while i < bindings.len()
        invariant
            i <= bindings@.len(),
            forall|j: int| 0 <= j < i ==> bindings@[j].physical_key != key,
        decreases bindings@.len() - i,
    {
        if bindings[i].physical_key == key {
            assert(binding_keys(bindings@)[i as int] == key);
            return true;
        }
        i += 1;
    }
    false
}

/// Adds a binding for the first key (in display order) not already bound, with one
/// passthrough output on slot 0; reports in the status bar when every key is bound.
pub fn add_binding(app: &mut MultiToonApp)
    ensures
        match first_unused_key(binding_keys(old(app).config.bindings@)) {
            Some(key) => {
                &&& bindings_model(final(app).config.bindings@) == bindings_model(
                    old(app).config.bindings@,
                ).push((key, seq![KeyOutput { slot_index: 0, output_key: key }]))
                &&& final(app).is_dirty
                &&& final(app).status_message == old(app).status_message
            },
            None => {
                &&& final(app).config.bindings == old(app).config.bindings
                &&& final(app).is_dirty == old(app).is_dirty
                &&& shows_status(*final(app), "All keys are already bound"@)
            },
        },
        binding_keys(old(app).config.bindings@).no_duplicates() ==> binding_keys(
            final(app).config.bindings@,
        ).no_duplicates(),
        same_except_binding_edits(*final(app), *old(app)),
        old(app).wf() ==> final(app).wf(),
{
    let ghost used = binding_keys(app.config.bindings@);
    let keys = Key::all();
    let mut i: usize = 0;
    while i < keys.len()
        invariant
            keys@ == all_keys(),
            i <= keys@.len(),
            *app == *old(app),
            used == binding_keys(app.config.bindings@),
            forall|j: int| 0 <= j < i ==> used.contains(all_keys()[j]),
        decreases keys@.len() - i,
    {
        let candidate = keys[i];
        if !key_is_bound(&app.config.bindings, candidate) {
            assert(is_first_unused(used, i as int));
            proof {
                lemma_first_unused_unique(used, i as int);
            }
            let output = KeyOutput { slot_index: 0, output_key: candidate };
            let outputs = vec![output];
            assert(outputs@ =~= seq![output]);
            app.config.bindings.push(Binding { physical_key: candidate, outputs });
            assert(bindings_model(app.config.bindings@) =~= bindings_model(
                old(app).config.bindings@,
            ).push((candidate, seq![output])));
            assert(binding_keys(app.config.bindings@) =~= used.push(candidate));
            app.is_dirty = true;
            return;
        }
        i += 1;
    }
    assert(!exists|j: int| is_first_unused(used, j));
    app.status_message = Some(String::from_str("All keys are already bound"));
}

/// There is at most one first unused position.
proof fn lemma_first_unused_unique(used: Seq<Key>, i: int)
    requires
        is_first_unused(used, i),
    ensures
        first_unused_key(used) == Some(all_keys()[i]),
{
    let c = choose|c: int| is_first_unused(used, c);
    if c < i {
        assert(used.contains(all_keys()[c]));
    } else if i < c {
        assert(used.contains(all_keys()[i]));
    }
}

/// No binding can be added exactly when every key the controller knows is already
/// bound.
pub proof fn lemma_add_binding_fails_only_when_every_key_is_bound(used: Seq<Key>)
    ensures
        first_unused_key(used) is None <==> forall|key: Key| used.contains(key),
{
    if first_unused_key(used) is None {
        assert forall|key: Key| used.contains(key) by {
            lemma_all_keys_lists_each_key_once(key);
            let position = crate::key::key_index(key);
            if !used.contains(key) {
                lemma_first_unused_exists(used, position);
            }
        }
    } else {
        let i = choose|i: int| is_first_unused(used, i);
        assert(!used.contains(all_keys()[i]));
    }
}

/// If some key at or before display position `bound` is unused, there is a first one.
proof fn lemma_first_unused_exists(used: Seq<Key>, bound: int)
    requires
        0 <= bound < key_count(),
        !used.contains(all_keys()[bound]),
    ensures
        exists|i: int| is_first_unused(used, i),
    decreases bound,
{
    if forall|j: int| 0 <= j < bound ==> used.contains(all_keys()[j]) {
        assert(is_first_unused(used, bound));
    } else {
        let j = choose|j: int| 0 <= j < bound && !used.contains(all_keys()[j]);
        lemma_first_unused_exists(used, j);
    }
}

} // verus!
