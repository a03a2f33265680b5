use multitoon::config::{Binding, Config, KeyOutput, Slot, WindowTarget};
use multitoon::key::Key;
use multitoon::platform::{Highlight, WindowInfo};
use multitoon::router::RoutingMode;
use multitoon::ui::bindings_panel::{add_binding, apply_pending, PendingEdits};
use multitoon::ui::slots_panel::{
    add_slot, crosshair_highlight, find_title, link_label, quick_setup, remove_slot,
    CrosshairState,
};
use multitoon::ui::status_bar::mode_text;
use multitoon::ui::{normalize_slot_count, Delivery, HighlightIntent, MultiToonApp};

fn window(id: u32, title: &str) -> WindowInfo {
    WindowInfo {
        title: title.to_string(),
        target: WindowTarget::Linux { window_id: id },
    }
}

fn walk_binding() -> Binding {
    Binding {
        physical_key: Key::W,
        outputs: vec![
            KeyOutput {
                slot_index: 0,
                output_key: Key::W,
            },
            KeyOutput {
                slot_index: 1,
                output_key: Key::ArrowUp,
            },
        ],
    }
}

fn status(app: &MultiToonApp) -> &str {
    app.status_message.as_deref().unwrap_or("")
}

#[test]
fn new_app_normalizes_short_and_long_slot_lists() {
    let mut config = Config::default();
    config.slots = vec![Slot::new("Solo")];
    let app = MultiToonApp::new(config);
    assert_eq!(app.config.slots.len(), 2);
    assert_eq!(app.config.slots[0].label, "Solo");
    assert_eq!(app.config.slots[1].label, "Toon 2");
    assert_eq!(app.mode, RoutingMode::MultiToon);
    assert!(!app.is_dirty);
    assert_eq!(app.quick_setup_count, 2);

    let mut config = Config::default();
    config.slots = (1..=13).map(|n| Slot::new(&format!("T{n}"))).collect();
    normalize_slot_count(&mut config);
    assert_eq!(config.slots.len(), 10);
    assert_eq!(config.slots[9].label, "T10");

    let mut empty = Config::default();
    empty.slots.clear();
    normalize_slot_count(&mut empty);
    assert_eq!(empty.slots[0].label, "Toon 1");
    assert_eq!(empty.slots[1].label, "Toon 2");
}

#[test]
fn toggle_and_cycle_modes() {
    let mut config = Config::default();
    config.slots.push(Slot::new("Toon 3"));
    let mut app = MultiToonApp::new(config);
    app.cycle_active_slot();
    assert_eq!(app.mode, RoutingMode::MultiToon);
    app.toggle_mode();
    assert_eq!(app.mode, RoutingMode::Individual { active_slot: 0 });
    app.cycle_active_slot();
    app.cycle_active_slot();
    assert_eq!(app.mode, RoutingMode::Individual { active_slot: 2 });
    app.cycle_active_slot();
    assert_eq!(app.mode, RoutingMode::Individual { active_slot: 0 });
    app.toggle_mode();
    assert_eq!(app.mode, RoutingMode::MultiToon);
}

#[test]
fn hotkeys_are_consumed_and_act_on_fresh_presses() {
    let mut app = MultiToonApp::new(Config::default());
    assert!(app.handle_key(Key::PageUp, true, true).is_empty());
    assert_eq!(app.mode, RoutingMode::MultiToon);
    assert!(app.handle_key(Key::PageUp, false, false).is_empty());
    assert_eq!(app.mode, RoutingMode::MultiToon);
    assert!(app.handle_key(Key::PageUp, true, false).is_empty());
    assert_eq!(app.mode, RoutingMode::Individual { active_slot: 0 });
    assert!(app.handle_key(Key::PageDown, true, false).is_empty());
    assert_eq!(app.mode, RoutingMode::Individual { active_slot: 1 });
}

#[test]
fn keystrokes_reach_only_linked_slots() {
    let mut config = Config::default();
    config.bindings.push(walk_binding());
    let mut app = MultiToonApp::new(config);
    // Nothing linked yet: the binding routes, but no window receives it.
    assert!(app.handle_key(Key::W, true, false).is_empty());
    app.link_picked_window(1, Some(window(77, "Toontown B")));
    let deliveries = app.handle_key(Key::W, true, false);
    assert_eq!(
        deliveries,
        vec![Delivery {
            slot_index: 1,
            target: WindowTarget::Linux { window_id: 77 },
            output_key: Key::ArrowUp,
            pressed: true,
        }]
    );
    app.link_picked_window(0, Some(window(76, "Toontown A")));
    let released = app.deliveries(Key::W, false);
    assert_eq!(released.len(), 2);
    assert_eq!(released[0].target, WindowTarget::Linux { window_id: 76 });
    assert!(!released[0].pressed);
    // Unbound keys go nowhere in multi-toon mode.
    assert!(app.handle_key(Key::Q, true, false).is_empty());
    // Individual mode forwards to the active slot only.
    app.toggle_mode();
    assert_eq!(
        app.handle_key(Key::Q, true, false),
        vec![Delivery {
            slot_index: 0,
            target: WindowTarget::Linux { window_id: 76 },
            output_key: Key::Q,
            pressed: true,
        }]
    );
}

#[test]
fn linking_caches_the_window_and_marks_dirty() {
    let mut app = MultiToonApp::new(Config::default());
    app.link_picked_window(0, Some(window(5, "Toontown Rewritten")));
    assert_eq!(app.windows.len(), 1);
    assert!(app.is_dirty);
    assert_eq!(status(&app), "Linked \"Toontown Rewritten\"");
    assert_eq!(
        app.config.slots[0].target,
        Some(WindowTarget::Linux { window_id: 5 })
    );
    // The same window again is not cached twice.
    app.link_picked_window(1, Some(window(5, "Toontown Rewritten")));
    assert_eq!(app.windows.len(), 1);
    // A missing slot links nothing but still caches a new window.
    app.is_dirty = false;
    app.status_message = None;
    app.link_picked_window(9, Some(window(6, "Toontown 2")));
    assert_eq!(app.windows.len(), 2);
    assert!(!app.is_dirty);
    assert!(app.status_message.is_none());
    app.link_picked_window(0, None);
    assert_eq!(status(&app), "No Toontown window under the cursor");
}

#[test]
fn status_messages() {
    let mut app = MultiToonApp::new(Config::default());
    app.finish_refresh(vec![window(1, "Toontown"), window(2, "Toontown")]);
    assert_eq!(status(&app), "Found 2 Toontown window(s)");
    assert_eq!(app.windows.len(), 2);
    app.refresh_failed("no display");
    assert_eq!(status(&app), "Enumeration error: no display");
    assert_eq!(app.windows.len(), 2);
    app.pick_failed("boom");
    assert_eq!(status(&app), "Pick error: boom");
    app.send_failed("gone");
    assert_eq!(status(&app), "Send error: gone");
    app.save_failed("disk full");
    assert_eq!(status(&app), "Save error: disk full");
}

#[test]
fn saving_is_blocked_by_duplicate_bindings() {
    let mut config = Config::default();
    config.bindings.push(walk_binding());
    config.bindings.push(walk_binding());
    let mut app = MultiToonApp::new(config);
    app.is_dirty = true;
    assert!(!app.begin_save());
    assert_eq!(status(&app), "Cannot save: key W is bound twice");
    assert!(app.is_dirty);
    app.config.bindings.pop();
    assert!(app.begin_save());
    app.save_succeeded();
    assert!(!app.is_dirty);
    assert_eq!(status(&app), "Config saved");
}

#[test]
fn duplicate_digit_key_message_uses_short_label() {
    let mut config = Config::default();
    let digit = Binding {
        physical_key: Key::Num3,
        outputs: Vec::new(),
    };
    config.bindings = vec![digit.clone(), digit];
    let mut app = MultiToonApp::new(config);
    assert!(!app.begin_save());
    assert_eq!(status(&app), "Cannot save: key 3 is bound twice");
}

#[test]
fn add_binding_picks_first_unbound_key() {
    let mut app = MultiToonApp::new(Config::default());
    add_binding(&mut app);
    add_binding(&mut app);
    assert_eq!(app.config.bindings.len(), 2);
    assert_eq!(app.config.bindings[0].physical_key, Key::A);
    assert_eq!(app.config.bindings[1].physical_key, Key::B);
    assert_eq!(
        app.config.bindings[1].outputs,
        vec![KeyOutput {
            slot_index: 0,
            output_key: Key::B
        }]
    );
    assert!(app.is_dirty);
    assert_eq!(app.config.duplicate_binding_key(), None);
}

#[test]
fn add_binding_reports_when_every_key_is_bound() {
    let mut config = Config::default();
    config.bindings = Key::all()
        .into_iter()
        .map(|key| Binding {
            physical_key: key,
            outputs: Vec::new(),
        })
        .collect();
    let mut app = MultiToonApp::new(config);
    add_binding(&mut app);
    assert_eq!(app.config.bindings.len(), 63);
    assert!(!app.is_dirty);
    assert_eq!(status(&app), "All keys are already bound");
}

#[test]
fn pending_edits_apply_in_order() {
    let mut config = Config::default();
    config.bindings = vec![walk_binding(), walk_binding()];
    config.bindings[1].physical_key = Key::S;
    let mut app = MultiToonApp::new(config);
    let changed = apply_pending(
        &mut app,
        PendingEdits {
            binding_to_remove: Some(1),
            output_to_remove: Some((0, 0)),
            add_output_to: Some(0),
        },
    );
    assert!(changed);
    assert_eq!(app.config.bindings.len(), 1);
    assert_eq!(
        app.config.bindings[0].outputs,
        vec![
            KeyOutput {
                slot_index: 1,
                output_key: Key::ArrowUp
            },
            KeyOutput {
                slot_index: 0,
                output_key: Key::W
            },
        ]
    );
    let nothing = apply_pending(
        &mut app,
        PendingEdits {
            binding_to_remove: Some(4),
            output_to_remove: Some((0, 9)),
            add_output_to: None,
        },
    );
    assert!(!nothing);
    assert_eq!(app.config.bindings.len(), 1);
    assert!(!apply_pending(&mut app, PendingEdits::default()));
}

#[test]
fn slot_count_stays_within_range() {
    let mut app = MultiToonApp::new(Config::default());
    remove_slot(&mut app, 0);
    assert_eq!(app.config.slots.len(), 2);
    assert!(!app.is_dirty);
    for _ in 0..12 {
        add_slot(&mut app);
    }
    assert_eq!(app.config.slots.len(), 10);
    assert_eq!(app.config.slots[9].label, "Toon 10");
    assert!(app.is_dirty);
    remove_slot(&mut app, 0);
    assert_eq!(app.config.slots.len(), 9);
    assert_eq!(app.config.slots[0].label, "Toon 2");
}

#[test]
fn crosshair_highlight_prefers_drag_preview() {
    let mut slot = Slot::new("Healer");
    let dragging = CrosshairState {
        released: false,
        hovered: true,
        dragged: true,
    };
    let hovering = CrosshairState {
        released: false,
        hovered: true,
        dragged: false,
    };
    assert!(matches!(
        crosshair_highlight(&dragging, &slot),
        Some(HighlightIntent::DragPreview { label }) if label == "Healer"
    ));
    assert!(crosshair_highlight(&hovering, &slot).is_none());
    slot.target = Some(WindowTarget::Windows { hwnd: 12 });
    assert!(matches!(
        crosshair_highlight(&hovering, &slot),
        Some(HighlightIntent::Linked { target: WindowTarget::Windows { hwnd: 12 }, label }) if label == "Healer"
    ));
    assert!(crosshair_highlight(&CrosshairState::default(), &slot).is_none());
}

#[test]
fn highlight_intents_resolve() {
    let linked = HighlightIntent::Linked {
        target: WindowTarget::Linux { window_id: 3 },
        label: "Tank".to_string(),
    };
    assert!(!linked.wants_cursor_window());
    let highlight: Option<Highlight> = linked.resolve(None);
    let highlight = highlight.expect("linked windows are framed");
    assert_eq!(highlight.target, WindowTarget::Linux { window_id: 3 });
    assert_eq!(highlight.label, "Tank");

    let preview = HighlightIntent::DragPreview {
        label: "Tank".to_string(),
    };
    assert!(preview.wants_cursor_window());
    assert!(preview.resolve(None).is_none());
    let preview = HighlightIntent::DragPreview {
        label: "Tank".to_string(),
    };
    let framed = preview.resolve(Some(window(8, "Toontown"))).unwrap();
    assert_eq!(framed.target, WindowTarget::Linux { window_id: 8 });
    assert_eq!(framed.label, "Tank");
}

#[test]
fn link_labels_describe_the_link() {
    let windows = vec![window(1, "Toontown A"), window(2, "Toontown B"), window(2, "Other")];
    let mut slot = Slot::new("Toon 1");
    assert_eq!(link_label(&slot, &windows), "not linked — drag the ✛ onto a window");
    slot.target = Some(WindowTarget::Linux { window_id: 2 });
    assert_eq!(link_label(&slot, &windows), "Toontown B");
    slot.target = Some(WindowTarget::Linux { window_id: 9 });
    assert_eq!(link_label(&slot, &windows), "linked (refresh to see title)");
    assert_eq!(
        find_title(&WindowTarget::Linux { window_id: 1 }, &windows),
        Some("Toontown A".to_string())
    );
    assert_eq!(find_title(&WindowTarget::Windows { hwnd: 1 }, &windows), None);
}

#[test]
fn mode_text_names_the_active_slot() {
    let mut app = MultiToonApp::new(Config::default());
    assert_eq!(mode_text(&app), "Mode: Multi-toon (all bound slots)");
    app.toggle_mode();
    app.cycle_active_slot();
    assert_eq!(mode_text(&app), "Mode: Individual → slot #1 (Toon 2)");
    app.mode = RoutingMode::Individual { active_slot: 7 };
    assert_eq!(mode_text(&app), "Mode: Individual → slot #7 (?)");
}

#[test]
fn quick_setup_generates_broadcast_bindings() {
    let mut config = Config::default();
    config.slots[0].target = Some(WindowTarget::Linux { window_id: 4 });
    config.bindings.push(walk_binding());
    let mut app = MultiToonApp::new(config);
    quick_setup(&mut app, 4);
    assert_eq!(app.config.slots.len(), 4);
    for (i, slot) in app.config.slots.iter().enumerate() {
        assert_eq!(slot.label, format!("Toon {}", i + 1));
        assert!(slot.target.is_none());
    }
    let keys: Vec<Key> = app.config.bindings.iter().map(|b| b.physical_key).collect();
    assert_eq!(keys, vec![Key::W, Key::A, Key::S, Key::D, Key::Space]);
    for binding in &app.config.bindings {
        let expected: Vec<KeyOutput> = (0..4)
            .map(|slot_index| KeyOutput {
                slot_index,
                output_key: binding.physical_key,
            })
            .collect();
        assert_eq!(binding.outputs, expected);
    }
    assert!(app.is_dirty);
    assert_eq!(app.quick_setup_count, 4);
    assert_eq!(app.config.duplicate_binding_key(), None);
    assert_eq!(app.config.toggle_individual_mode_hotkey, Key::PageUp);
}

#[test]
fn quick_setup_clamps_the_toon_count() {
    let mut app = MultiToonApp::new(Config::default());
    quick_setup(&mut app, 0);
    assert_eq!(app.config.slots.len(), 2);
    assert_eq!(app.config.bindings[4].outputs.len(), 2);
    quick_setup(&mut app, 25);
    assert_eq!(app.config.slots.len(), 10);
    assert_eq!(app.config.slots[9].label, "Toon 10");
    assert_eq!(app.config.bindings[0].outputs[9].slot_index, 9);
}
