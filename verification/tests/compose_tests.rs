use keyboard_input::compose::{
    ComposeSequence, ComposeStateMachine, ComposeStatus, ComposeTable,
};
use keyboard_input::keysyms::{keysym_to_keycode, KeyCode};

fn table() -> ComposeTable {
    ComposeTable {
        sequences: vec![
            ComposeSequence {
                keys: vec![0xfe51, 'a' as u32],
                result: 0xe1,
            },
            ComposeSequence {
                keys: vec![0xfe51, 'e' as u32],
                result: 0xe9,
            },
        ],
    }
}

#[test]
fn idle_machine_ignores_unrelated_symbols() {
    let mut m = ComposeStateMachine::new(table());
    assert_eq!(m.status(), ComposeStatus::Nothing);
    m.feed('x' as u32);
    assert_eq!(m.status(), ComposeStatus::Nothing);
    assert_eq!(m.keysym(), None);
}

#[test]
fn sequence_composes_and_reset_readies_the_machine() {
    let mut m = ComposeStateMachine::new(table());
    m.feed(0xfe51);
    assert_eq!(m.status(), ComposeStatus::Composing);
    assert_eq!(m.keysym(), None);
    m.feed('e' as u32);
    assert_eq!(m.status(), ComposeStatus::Composed);
    assert_eq!(m.keysym(), Some(0xe9));
    m.reset();
    assert_eq!(m.status(), ComposeStatus::Nothing);
    assert_eq!(m.keysym(), None);
}

#[test]
fn unrelated_symbol_mid_sequence_cancels() {
    let mut m = ComposeStateMachine::new(table());
    m.feed(0xfe51);
    m.feed('z' as u32);
    assert_eq!(m.status(), ComposeStatus::Cancelled);
    assert_eq!(m.keysym(), None);
}

#[test]
fn empty_table_never_composes() {
    let mut m = ComposeStateMachine::new(ComposeTable { sequences: vec![] });
    m.feed(0xfe51);
    assert_eq!(m.status(), ComposeStatus::Nothing);
}

#[test]
fn keysyms_map_to_their_logical_keys() {
    assert_eq!(keysym_to_keycode(0xff0d), Some(KeyCode::Enter));
    assert_eq!(keysym_to_keycode(0xff09), Some(KeyCode::Tab));
    assert_eq!(keysym_to_keycode(0xff1b), Some(KeyCode::Escape));
    assert_eq!(keysym_to_keycode(0xff08), Some(KeyCode::Backspace));
    assert_eq!(keysym_to_keycode(0xffff), Some(KeyCode::Delete));
    assert_eq!(keysym_to_keycode(0xff50), Some(KeyCode::Home));
    assert_eq!(keysym_to_keycode(0xff57), Some(KeyCode::End));
    assert_eq!(keysym_to_keycode(0xff55), Some(KeyCode::PageUp));
    assert_eq!(keysym_to_keycode(0xff56), Some(KeyCode::PageDown));
    assert_eq!(keysym_to_keycode(0xff51), Some(KeyCode::LeftArrow));
    assert_eq!(keysym_to_keycode(0xff53), Some(KeyCode::RightArrow));
    assert_eq!(keysym_to_keycode(0xff52), Some(KeyCode::UpArrow));
    assert_eq!(keysym_to_keycode(0xff54), Some(KeyCode::DownArrow));
    assert_eq!(keysym_to_keycode(0xff63), Some(KeyCode::Insert));
    assert_eq!(keysym_to_keycode(0xffbe), Some(KeyCode::Function(1)));
    assert_eq!(keysym_to_keycode(0xffc9), Some(KeyCode::Function(12)));
    assert_eq!(keysym_to_keycode('q' as u32), Some(KeyCode::Char('q')));
    assert_eq!(keysym_to_keycode(0xe9), Some(KeyCode::Char('\u{e9}')));
    assert_eq!(
        keysym_to_keycode(0x0100_0000 + 0x20ac),
        Some(KeyCode::Char('\u{20ac}'))
    );
    // A keysym naming a surrogate code point has no character.
    assert_eq!(keysym_to_keycode(0x0100_0000 + 0xd800), None);
    // The dead-key range has no logical mapping of its own.
    assert_eq!(keysym_to_keycode(0xfe51), None);
    assert_eq!(keysym_to_keycode(0), None);
}
