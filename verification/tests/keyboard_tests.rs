use keyboard_input::compose::{ComposeSequence, ComposeTable};
use keyboard_input::keyboard::{
    BootstrapInput, InitError, Keyboard, KeymapCandidate, ReloadError, XkbEventAction,
};
use keyboard_input::keymap::{KeyMapping, Keymap, KeymapStateContainer, XkbState};
use keyboard_input::keysyms::KeyCode;
use keyboard_input::modifiers::ModifierSet;
use keyboard_input::protocol::{RawKeyEvent, StateNotifyEvent, XkbGenericEvent};

const KEY_C: u8 = 54;
const KEY_ENTER: u8 = 36;
const KEY_A: u8 = 38;
const KEY_DEAD_ACUTE: u8 = 48;
const KEY_F1: u8 = 67;
const KEY_EURO: u8 = 60;

const SYM_DEAD_ACUTE: u32 = 0xfe51;
const SYM_A_ACUTE: u32 = 0xe1;

fn standard_mod_names() -> Vec<String> {
    vec![
        "Shift".to_string(),
        "Lock".to_string(),
        "Control".to_string(),
        "Mod1".to_string(),
        "Mod2".to_string(),
        "Mod3".to_string(),
        "Mod4".to_string(),
        "Mod5".to_string(),
    ]
}

fn us_keymap() -> Keymap {
    Keymap {
        keys: vec![
            KeyMapping {
                keycode: KEY_C as u32,
                groups: vec![vec!['c' as u32, 'C' as u32]],
            },
            KeyMapping {
                keycode: KEY_ENTER as u32,
                groups: vec![vec![0xff0d]],
            },
            KeyMapping {
                keycode: KEY_A as u32,
                groups: vec![vec!['a' as u32, 'A' as u32]],
            },
            KeyMapping {
                keycode: KEY_DEAD_ACUTE as u32,
                groups: vec![vec![SYM_DEAD_ACUTE]],
            },
            KeyMapping {
                keycode: KEY_F1 as u32,
                groups: vec![vec![0xffbe]],
            },
            KeyMapping {
                keycode: KEY_EURO as u32,
                groups: vec![vec![0x0100_0000 + 0x20ac]],
            },
        ],
        num_groups: 1,
        mod_names: standard_mod_names(),
    }
}

fn accent_table() -> ComposeTable {
    ComposeTable {
        sequences: vec![ComposeSequence {
            keys: vec![SYM_DEAD_ACUTE, 'a' as u32],
            result: SYM_A_ACUTE,
        }],
    }
}

fn idle_state() -> XkbState {
    XkbState {
        base_mods: 0,
        latched_mods: 0,
        locked_mods: 0,
        base_group: 0,
        latched_group: 0,
        locked_group: 0,
    }
}

fn bootstrap_input() -> BootstrapInput {
    BootstrapInput {
        first_event: Some(85),
        extension_supported: true,
        device_id: 3,
        keymap: us_keymap(),
        state: idle_state(),
        compose_table: Some(accent_table()),
        events_selected: true,
    }
}

fn new_session() -> Keyboard {
    let (kbd, first_event) = Keyboard::new(bootstrap_input()).expect("bootstrap");
    assert_eq!(first_event, 85);
    kbd
}

fn press(detail: u8) -> RawKeyEvent {
    RawKeyEvent {
        response_type: 2,
        detail,
    }
}

fn release(detail: u8) -> RawKeyEvent {
    RawKeyEvent {
        response_type: 3,
        detail,
    }
}

/// A state-notify wire event for the given device: sub-type 2, with the
/// masks at their fixed offsets.
fn state_notify_bytes(device: u8, base_mods: u8, locked_group: u8) -> Vec<u8> {
    let mut raw = vec![0u8; 32];
    raw[0] = 85;
    raw[1] = 2;
    raw[8] = device;
    raw[10] = base_mods;
    raw[18] = locked_group;
    raw
}

fn new_keyboard_notify_bytes(device: u8) -> Vec<u8> {
    let mut raw = vec![0u8; 32];
    raw[0] = 85;
    raw[1] = 0;
    raw[8] = device;
    raw
}

#[test]
fn bootstrap_reports_first_event_and_device() {
    let kbd = new_session();
    assert_eq!(kbd.get_device_id(), 3);
}

#[test]
fn bootstrap_errors_in_handshake_order() {
    let mut input = bootstrap_input();
    input.first_event = None;
    assert_eq!(
        Keyboard::new(input).unwrap_err(),
        InitError::ExtensionDataUnavailable
    );

    let mut input = bootstrap_input();
    input.extension_supported = false;
    assert_eq!(
        Keyboard::new(input).unwrap_err(),
        InitError::ExtensionUnsupported
    );

    let mut input = bootstrap_input();
    input.device_id = -1;
    assert_eq!(
        Keyboard::new(input).unwrap_err(),
        InitError::NoCoreKeyboardDevice
    );

    let mut input = bootstrap_input();
    input.compose_table = None;
    assert_eq!(
        Keyboard::new(input).unwrap_err(),
        InitError::ComposeTableUnavailable
    );

    let mut input = bootstrap_input();
    input.events_selected = false;
    assert_eq!(
        Keyboard::new(input).unwrap_err(),
        InitError::EventSelectionRejected
    );
}

#[test]
fn idle_symbol_passes_through_unchanged() {
    let mut kbd = new_session();
    let ev = kbd.process_key_event(&press(KEY_C)).expect("event");
    assert_eq!(ev.key, KeyCode::Char('c'));
    assert_eq!(ev.modifiers, ModifierSet::empty());
    assert_eq!(ev.raw_modifiers, ModifierSet::empty());
    assert_eq!(ev.raw_code, Some(KEY_C as u32));
    assert_eq!(ev.repeat_count, 1);
    assert!(ev.key_is_down);
    assert_eq!(ev.raw_key, None);
}

#[test]
fn shift_c_reports_capital_without_shift() {
    let mut kbd = new_session();
    let raw = state_notify_bytes(3, 1, 0);
    assert_eq!(
        kbd.process_xkb_event(&raw),
        XkbEventAction::StateRefreshed
    );
    let ev = kbd.process_key_event(&press(KEY_C)).expect("event");
    assert_eq!(ev.key, KeyCode::Char('C'));
    assert_eq!(ev.modifiers, ModifierSet::empty());
    assert_eq!(
        ev.raw_modifiers,
        ModifierSet {
            shift: true,
            ctrl: false,
            alt: false,
            sup: false
        }
    );
    assert!(ev.key_is_down);
}

#[test]
fn shift_enter_keeps_shift() {
    let mut kbd = new_session();
    let raw = state_notify_bytes(3, 1, 0);
    kbd.process_xkb_event(&raw);
    let ev = kbd.process_key_event(&press(KEY_ENTER)).expect("event");
    assert_eq!(ev.key, KeyCode::Enter);
    let shifted = ModifierSet {
        shift: true,
        ctrl: false,
        alt: false,
        sup: false,
    };
    assert_eq!(ev.modifiers, shifted);
    assert_eq!(ev.raw_modifiers, shifted);
}

#[test]
fn shift_function_key_keeps_shift() {
    let mut kbd = new_session();
    let raw = state_notify_bytes(3, 1, 0);
    kbd.process_xkb_event(&raw);
    let ev = kbd.process_key_event(&press(KEY_F1)).expect("event");
    assert_eq!(ev.key, KeyCode::Function(1));
    assert_eq!(ev.modifiers, ev.raw_modifiers);
    assert!(ev.modifiers.shift);
}

#[test]
fn accent_sequence_composes_once_then_passes_fresh() {
    let mut kbd = new_session();
    assert_eq!(kbd.process_key_event(&press(KEY_DEAD_ACUTE)), None);
    let ev = kbd.process_key_event(&press(KEY_A)).expect("event");
    assert_eq!(ev.key, KeyCode::Char('\u{e1}'));
    let ev = kbd.process_key_event(&press(KEY_C)).expect("event");
    assert_eq!(ev.key, KeyCode::Char('c'));
}

#[test]
fn completed_sequence_leaves_machine_ready_for_another() {
    let mut kbd = new_session();
    for _ in 0..2 {
        assert_eq!(kbd.process_key_event(&press(KEY_DEAD_ACUTE)), None);
        let ev = kbd.process_key_event(&press(KEY_A)).expect("event");
        assert_eq!(ev.key, KeyCode::Char('\u{e1}'));
    }
}

#[test]
fn cancelled_sequence_swallows_the_cancelling_press() {
    let mut kbd = new_session();
    assert_eq!(kbd.process_key_event(&press(KEY_DEAD_ACUTE)), None);
    assert_eq!(kbd.process_key_event(&press(KEY_ENTER)), None);
    let ev = kbd.process_key_event(&press(KEY_ENTER)).expect("event");
    assert_eq!(ev.key, KeyCode::Enter);
}

#[test]
fn release_never_touches_the_compose_machine() {
    let mut kbd = new_session();
    assert_eq!(kbd.process_key_event(&press(KEY_DEAD_ACUTE)), None);
    let ev = kbd.process_key_event(&release(KEY_A)).expect("event");
    assert_eq!(ev.key, KeyCode::Char('a'));
    assert!(!ev.key_is_down);
    let ev = kbd.process_key_event(&press(KEY_A)).expect("event");
    assert_eq!(ev.key, KeyCode::Char('\u{e1}'));
}

#[test]
fn unicode_keysym_resolves_to_its_character() {
    let mut kbd = new_session();
    let ev = kbd.process_key_event(&press(KEY_EURO)).expect("event");
    assert_eq!(ev.key, KeyCode::Char('\u{20ac}'));
}

#[test]
fn unmapped_key_is_dropped() {
    let mut kbd = new_session();
    assert_eq!(kbd.process_key_event(&press(99)), None);
}

#[test]
fn state_notify_updates_modifiers_without_reload() {
    let mut kbd = new_session();
    assert_eq!(kbd.get_key_modifiers(), ModifierSet::empty());
    let raw = state_notify_bytes(3, 1, 0);
    assert_eq!(
        kbd.process_xkb_event(&raw),
        XkbEventAction::StateRefreshed
    );
    assert!(kbd.get_key_modifiers().shift);
    let raw = state_notify_bytes(3, 0, 1);
    assert_eq!(
        kbd.process_xkb_event(&raw),
        XkbEventAction::StateRefreshed
    );
    assert_eq!(kbd.get_key_modifiers(), ModifierSet::empty());
}

#[test]
fn events_for_other_devices_are_ignored() {
    let mut kbd = new_session();
    let raw = state_notify_bytes(9, 1, 0);
    assert_eq!(kbd.process_xkb_event(&raw), XkbEventAction::Ignored);
    assert_eq!(kbd.get_key_modifiers(), ModifierSet::empty());
}

#[test]
fn short_or_unknown_events_are_ignored() {
    let mut kbd = new_session();
    assert_eq!(kbd.process_xkb_event(&[85, 2]), XkbEventAction::Ignored);
    let mut raw = state_notify_bytes(3, 1, 0);
    raw[1] = 7;
    assert_eq!(kbd.process_xkb_event(&raw), XkbEventAction::Ignored);
}

#[test]
fn failed_reload_leaves_layout_and_state_intact() {
    let mut kbd = new_session();
    let raw = state_notify_bytes(3, 1, 0);
    kbd.process_xkb_event(&raw);

    let err = kbd
        .update_keymap(KeymapCandidate {
            keymap: None,
            state: Some(idle_state()),
        })
        .unwrap_err();
    assert_eq!(err, ReloadError::InvalidKeymap);

    let err = kbd
        .update_keymap(KeymapCandidate {
            keymap: Some(us_keymap()),
            state: None,
        })
        .unwrap_err();
    assert_eq!(err, ReloadError::InvalidState);

    let ev = kbd.process_key_event(&press(KEY_C)).expect("event");
    assert_eq!(ev.key, KeyCode::Char('C'));
    assert!(kbd.get_key_modifiers().shift);
}

#[test]
fn new_keyboard_notify_replaces_pair_and_keeps_compose_in_flight() {
    let mut kbd = new_session();
    assert_eq!(kbd.process_key_event(&press(KEY_DEAD_ACUTE)), None);

    let raw = new_keyboard_notify_bytes(3);
    assert_eq!(kbd.process_xkb_event(&raw), XkbEventAction::ReloadNeeded);

    let mut new_keymap = us_keymap();
    new_keymap.keys[0].groups = vec![vec!['d' as u32]];
    assert_eq!(
        kbd.update_keymap(KeymapCandidate {
            keymap: Some(new_keymap),
            state: Some(idle_state()),
        }),
        Ok(())
    );

    let ev = kbd.process_key_event(&press(KEY_A)).expect("event");
    assert_eq!(ev.key, KeyCode::Char('\u{e1}'));

    let ev = kbd.process_key_event(&press(KEY_C)).expect("event");
    assert_eq!(ev.key, KeyCode::Char('d'));
}

#[test]
fn unknown_modifier_names_count_as_inactive() {
    let container = KeymapStateContainer {
        keymap: us_keymap(),
        state: XkbState {
            base_mods: 0xff,
            latched_mods: 0,
            locked_mods: 0,
            base_group: 0,
            latched_group: 0,
            locked_group: 0,
        },
    };
    assert!(container.mod_name_is_active("Shift"));
    assert!(!container.mod_name_is_active("Hyper"));
}

#[test]
fn super_comes_from_either_physical_modifier() {
    let mut kbd = new_session();
    let raw = state_notify_bytes(3, 1 << 6, 0);
    kbd.process_xkb_event(&raw);
    assert!(kbd.get_key_modifiers().sup);
    let raw = state_notify_bytes(3, 1 << 5, 0);
    kbd.process_xkb_event(&raw);
    assert!(kbd.get_key_modifiers().sup);
    let raw = state_notify_bytes(3, 1 << 2, 0);
    kbd.process_xkb_event(&raw);
    let mods = kbd.get_key_modifiers();
    assert!(mods.ctrl && !mods.sup && !mods.shift && !mods.alt);
}

#[test]
fn generic_event_accessors_read_the_wire_fields() {
    let raw = state_notify_bytes(3, 1, 0);
    let ev = XkbGenericEvent::parse(&raw).expect("parse");
    assert_eq!(ev.xkb_type(), 2);
    assert_eq!(ev.device_id(), 3);
    assert_eq!(XkbGenericEvent::parse(&raw[..5]), None);

    let sn = StateNotifyEvent::parse(&raw).expect("parse");
    assert_eq!(sn.base_mods, 1);
    assert_eq!(sn.locked_group, 0);
    assert_eq!(StateNotifyEvent::parse(&raw[..18]), None);
}

#[test]
fn group_wraps_around_the_layout_group_count() {
    let mut keymap = us_keymap();
    keymap.num_groups = 2;
    keymap.keys[0].groups = vec![vec!['c' as u32, 'C' as u32], vec!['d' as u32]];
    let mut kbd = Keyboard::new(BootstrapInput {
        keymap,
        ..bootstrap_input()
    })
    .expect("bootstrap")
    .0;

    let raw = state_notify_bytes(3, 0, 1);
    kbd.process_xkb_event(&raw);
    let ev = kbd.process_key_event(&press(KEY_C)).expect("event");
    assert_eq!(ev.key, KeyCode::Char('d'));

    let raw = state_notify_bytes(3, 0, 2);
    kbd.process_xkb_event(&raw);
    let ev = kbd.process_key_event(&press(KEY_C)).expect("event");
    assert_eq!(ev.key, KeyCode::Char('c'));
}
