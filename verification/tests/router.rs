use multitoon::config::{Binding, KeyOutput};
use multitoon::key::Key;
use multitoon::router::{route, Dispatch, RoutingMode};

/// Builds a `W` binding that walks slots 0, 1, and 2 forward together.
fn multi_output_binding() -> Vec<Binding> {
    vec![Binding {
        physical_key: Key::W,
        outputs: vec![
            KeyOutput {
                slot_index: 0,
                output_key: Key::W,
            },
            KeyOutput {
                slot_index: 1,
                output_key: Key::W,
            },
            KeyOutput {
                slot_index: 2,
                output_key: Key::ArrowUp,
            },
        ],
    }]
}

#[test]
fn multitoon_expands_multi_output_binding_in_order() {
    let dispatches = route(&RoutingMode::MultiToon, &multi_output_binding(), Key::W);
    assert_eq!(
        dispatches,
        vec![
            Dispatch {
                slot_index: 0,
                output_key: Key::W
            },
            Dispatch {
                slot_index: 1,
                output_key: Key::W
            },
            Dispatch {
                slot_index: 2,
                output_key: Key::ArrowUp
            },
        ]
    );
}

#[test]
fn multitoon_unbound_key_returns_empty() {
    let dispatches = route(&RoutingMode::MultiToon, &multi_output_binding(), Key::Q);
    assert!(dispatches.is_empty());
}

#[test]
fn individual_ignores_bindings_and_targets_active_slot() {
    let mode = RoutingMode::Individual { active_slot: 3 };
    // `W` is bound in multi-toon mode, but individual mode must bypass that.
    let dispatches = route(&mode, &multi_output_binding(), Key::W);
    assert_eq!(
        dispatches,
        vec![Dispatch {
            slot_index: 3,
            output_key: Key::W
        }]
    );

    // An unbound key still produces exactly one passthrough dispatch.
    let unbound = route(&mode, &multi_output_binding(), Key::Q);
    assert_eq!(
        unbound,
        vec![Dispatch {
            slot_index: 3,
            output_key: Key::Q
        }]
    );
}

#[test]
fn multitoon_uses_first_binding_for_a_duplicated_key() {
    let mut bindings = multi_output_binding();
    bindings.push(Binding {
        physical_key: Key::W,
        outputs: vec![KeyOutput {
            slot_index: 5,
            output_key: Key::S,
        }],
    });
    let dispatches = route(&RoutingMode::MultiToon, &bindings, Key::W);
    assert_eq!(dispatches.len(), 3);
    assert_eq!(dispatches[2].output_key, Key::ArrowUp);
}

#[test]
fn multitoon_reaches_each_unique_binding() {
    let mut bindings = multi_output_binding();
    bindings.push(Binding {
        physical_key: Key::Space,
        outputs: vec![KeyOutput {
            slot_index: 1,
            output_key: Key::Enter,
        }],
    });
    let dispatches = route(&RoutingMode::MultiToon, &bindings, Key::Space);
    assert_eq!(
        dispatches,
        vec![Dispatch {
            slot_index: 1,
            output_key: Key::Enter
        }]
    );
}

#[test]
fn multitoon_binding_without_outputs_routes_nowhere() {
    let bindings = vec![Binding {
        physical_key: Key::A,
        outputs: Vec::new(),
    }];
    assert!(route(&RoutingMode::MultiToon, &bindings, Key::A).is_empty());
    assert!(route(&RoutingMode::MultiToon, &[], Key::A).is_empty());
}
