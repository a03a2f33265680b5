use multitoon::config::{Binding, Config, KeyOutput, Slot, WindowTarget, MAX_SLOTS, MIN_SLOTS};
use multitoon::key::Key;

fn binding(key: Key) -> Binding {
    Binding {
        physical_key: key,
        outputs: vec![KeyOutput {
            slot_index: 0,
            output_key: key,
        }],
    }
}

#[test]
fn default_config_has_two_toons_and_page_hotkeys() {
    let config = Config::default();
    assert_eq!(config.slots.len(), 2);
    assert_eq!(config.slots[0].label, "Toon 1");
    assert_eq!(config.slots[1].label, "Toon 2");
    assert!(config.slots.iter().all(|slot| slot.target.is_none()));
    assert!(config.bindings.is_empty());
    assert_eq!(config.toggle_individual_mode_hotkey, Key::PageUp);
    assert_eq!(config.cycle_individual_slot_hotkey, Key::PageDown);
    assert_eq!((MIN_SLOTS, MAX_SLOTS), (2, 10));
}

#[test]
fn new_slot_is_unlinked() {
    let slot = Slot::new("Tank");
    assert_eq!(slot.label, "Tank");
    assert!(slot.target.is_none());
    assert_eq!(Slot::numbered(12).label, "Toon 12");
}

#[test]
fn unique_bindings_have_no_duplicate() {
    let mut config = Config::default();
    assert_eq!(config.duplicate_binding_key(), None);
    config.bindings = vec![binding(Key::W), binding(Key::A), binding(Key::S)];
    assert_eq!(config.duplicate_binding_key(), None);
}

#[test]
fn duplicate_reports_the_first_repeated_key() {
    let mut config = Config::default();
    config.bindings = vec![
        binding(Key::W),
        binding(Key::A),
        binding(Key::S),
        binding(Key::A),
        binding(Key::W),
    ];
    assert_eq!(config.duplicate_binding_key(), Some(Key::A));
}

#[test]
fn window_targets_compare_by_platform_and_handle() {
    assert_eq!(
        WindowTarget::Linux { window_id: 42 },
        WindowTarget::Linux { window_id: 42 }
    );
    assert_ne!(
        WindowTarget::Linux { window_id: 42 },
        WindowTarget::MacOs {
            pid: 42,
            window_id: 42
        }
    );
}

#[test]
fn decimal_rendering() {
    assert_eq!(multitoon::text::decimal_string(0), "0");
    assert_eq!(multitoon::text::decimal_string(7), "7");
    assert_eq!(multitoon::text::decimal_string(10), "10");
    assert_eq!(multitoon::text::decimal_string(4096), "4096");
}
