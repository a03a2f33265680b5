//! Key routing: given the current mode and the binding table, decide which slots
//! receive which key for one physical keystroke. No platform calls, no state.

use vstd::prelude::*;
use crate::config::{binding_keys, first_repeated_key, Binding, KeyOutput, SlotIndex};
use crate::key::Key;

verus! {

/// How captured keystrokes are routed to slots.
#[derive(Debug, Clone, Copy, PartialEq, Eq, Structural)]
pub enum RoutingMode {
    /// Each key is looked up in the binding table and fanned out to every output
    /// slot the binding names.
    MultiToon,
    /// Every key goes verbatim to a single chosen slot, bypassing the binding table.
    Individual {
        /// The slot currently receiving all keystrokes.
        active_slot: SlotIndex,
    },
}

/// One resolved delivery: send `output_key` to the slot at `slot_index`.
#[derive(Debug, Clone, Copy, PartialEq, Eq, Structural)]
pub struct Dispatch {
    /// The destination slot's index.
    pub slot_index: SlotIndex,
    /// The key to deliver to that slot.
    pub output_key: Key,
}

/// The dispatch that delivers one binding output.
pub open spec fn output_dispatch(output: KeyOutput) -> Dispatch {
    Dispatch { slot_index: output.slot_index, output_key: output.output_key }
}

/// The dispatches of a binding's outputs, in output order.
pub open spec fn output_dispatches(outputs: Seq<KeyOutput>) -> Seq<Dispatch> {
    outputs.map_values(|output: KeyOutput| output_dispatch(output))
}

/// Binding `i` is the first one in `bindings` whose physical key is `key`.
pub open spec fn is_first_binding_for(bindings: Seq<Binding>, key: Key, i: int) -> bool {
    &&& 0 <= i < bindings.len()
    &&& bindings[i].physical_key == key
    &&& forall|j: int| 0 <= j < i ==> bindings[j].physical_key != key
}

/// The dispatches one keystroke produces: in multi-toon mode, the outputs of the
/// first binding for the key (none if the key is unbound); in individual mode, the
/// key itself sent to the active slot.
pub open spec fn routed(mode: RoutingMode, bindings: Seq<Binding>, key: Key) -> Seq<Dispatch> {
    match mode {
        RoutingMode::MultiToon => {
            if exists|i: int| is_first_binding_for(bindings, key, i) {
                let i = choose|i: int| is_first_binding_for(bindings, key, i);
                output_dispatches(bindings[i].outputs@)
            } else {
                Seq::empty()
            }
        },
        RoutingMode::Individual { active_slot } => seq![
            Dispatch { slot_index: active_slot, output_key: key },
        ],
    }
}

/// The first binding for a key is unique.
proof fn lemma_first_binding_unique(bindings: Seq<Binding>, key: Key, i: int)
    requires
        is_first_binding_for(bindings, key, i),
    ensures
        routed(RoutingMode::MultiToon, bindings, key) == output_dispatches(bindings[i].outputs@),
{
    let c = choose|c: int| is_first_binding_for(bindings, key, c);
    assert(c == i) by {
        if c < i {
            assert(bindings[c].physical_key != key);
        } else if i < c {
            assert(bindings[i].physical_key != key);
        }
    }
}

/// Resolves one physical keystroke into the per-slot dispatches it produces.
///
/// In multi-toon mode the key is matched against `bindings` and expands to one
/// dispatch per output, preserving output order; an unbound key yields an empty list.
/// In individual mode the binding table is ignored and the key is forwarded as-is to
/// the single active slot.
pub fn route(mode: &RoutingMode, bindings: &[Binding], physical_key: Key) -> (dispatches: Vec<
    Dispatch,
>)
    ensures
        dispatches@ == routed(*mode, bindings@, physical_key),
{
    match mode {
        RoutingMode::MultiToon => {
            let mut i: usize = 0;
            while i < bindings.len()
                invariant
                    *mode == RoutingMode::MultiToon,
                    i <= bindings@.len(),
                    forall|j: int| 0 <= j < i ==> bindings@[j].physical_key != physical_key,
                decreases bindings@.len() - i,
            {
                if bindings[i].physical_key == physical_key {
                    let outputs = &bindings[i].outputs;
                    let mut dispatches: Vec<Dispatch> = Vec::new();
                    let mut k: usize = 0;
                    while k < outputs.len()
                        invariant
                            k <= outputs@.len(),
                            dispatches@ == output_dispatches(outputs@.take(k as int)),
                        decreases outputs@.len() - k,
                    {
                        let output = outputs[k];
                        dispatches.push(
                            Dispatch { slot_index: output.slot_index, output_key: output.output_key },
                        );
                        assert(outputs@.take(k + 1) =~= outputs@.take(k as int).push(output));
                        assert(dispatches@ =~= output_dispatches(outputs@.take(k + 1)));
                        k += 1;
                    }
                    assert(outputs@.take(k as int) =~= outputs@);
                    proof {
                        lemma_first_binding_unique(bindings@, physical_key, i as int);
                    }
                    return dispatches;
                }
                i += 1;
            }
            assert(!exists|c: int| is_first_binding_for(bindings@, physical_key, c));
            let empty: Vec<Dispatch> = Vec::new();
            assert(empty@ =~= Seq::<Dispatch>::empty());
            empty
        },
        RoutingMode::Individual { active_slot } => {
            let dispatches = vec![Dispatch { slot_index: *active_slot, output_key: physical_key }];
            assert(dispatches@ =~= seq![
                Dispatch { slot_index: *active_slot, output_key: physical_key },
            ]);
            dispatches
        },
    }
}

/// Individual mode bypasses the binding table: whatever the bindings, a keystroke
/// becomes exactly one dispatch of the key itself to the active slot.
pub proof fn lemma_individual_ignores_bindings(
    active_slot: SlotIndex,
    bindings: Seq<Binding>,
    other_bindings: Seq<Binding>,
    key: Key,
)
    ensures
        routed(RoutingMode::Individual { active_slot }, bindings, key)
            == routed(RoutingMode::Individual { active_slot }, other_bindings, key),
        routed(RoutingMode::Individual { active_slot }, bindings, key).len() == 1,
        routed(RoutingMode::Individual { active_slot }, bindings, key)[0] == (Dispatch {
            slot_index: active_slot,
            output_key: key,
        }),
{
}

/// In multi-toon mode a key that no binding names produces no dispatch.
pub proof fn lemma_unbound_key_routes_nowhere(bindings: Seq<Binding>, key: Key)
    requires
        !binding_keys(bindings).contains(key),
    ensures
        routed(RoutingMode::MultiToon, bindings, key).len() == 0,
{
    if exists|i: int| is_first_binding_for(bindings, key, i) {
        let i = choose|i: int| is_first_binding_for(bindings, key, i);
        assert(binding_keys(bindings)[i] == key);
    }
}

/// When no physical key is bound twice (the condition under which a config may be
/// saved), pressing a binding's key fans out to exactly that binding's outputs, in
/// order.
pub proof fn lemma_unique_bindings_route_to_their_outputs(bindings: Seq<Binding>, i: int)
    requires
        first_repeated_key(binding_keys(bindings)) is None,
        0 <= i < bindings.len(),
    ensures
        routed(RoutingMode::MultiToon, bindings, bindings[i].physical_key)
            == output_dispatches(bindings[i].outputs@),
{
    let keys = binding_keys(bindings);
    assert(keys.no_duplicates()) by {
        if !keys.no_duplicates() {
            lemma_some_first_repeat(keys);
        }
    }
    assert forall|j: int| 0 <= j < i implies bindings[j].physical_key != bindings[i].physical_key by {
        assert(keys[j] != keys[i]);
    }
    lemma_first_binding_unique(bindings, bindings[i].physical_key, i);
}

/// A sequence with a repeated key has a first repetition.
proof fn lemma_some_first_repeat(keys: Seq<Key>)
    requires
        !keys.no_duplicates(),
    ensures
        first_repeated_key(keys) is Some,
    decreases keys.len(),
{
    let last = keys.len() - 1;
    let prefix = keys.take(last);
    if prefix.no_duplicates() {
        let (a, b) = choose|a: int, b: int|
            0 <= a < keys.len() && 0 <= b < keys.len() && a != b && keys[a] == keys[b];
        let (lo, hi) = if a < b { (a, b) } else { (b, a) };
        if hi < last {
            assert(prefix[lo] == prefix[hi]);
        } else {
            assert(prefix[lo] == keys[last]);
            assert(crate::config::is_first_repeat(keys, last));
        }
    } else {
        lemma_some_first_repeat(prefix);
        let j = choose|j: int| crate::config::is_first_repeat(prefix, j);
        assert(prefix.take(j) =~= keys.take(j));
        assert(crate::config::is_first_repeat(keys, j));
    }
}

} // verus!
