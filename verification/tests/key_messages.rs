use flion::events::{KeyAction, KeyEvent};
use flion::flags::{KeyModifier, KeyModifiers};
use flion::key_messages::{
    KeyOutcome, Keyboard, SystemKeyEvent, VK_LCONTROL, VK_RSHIFT, VK_SHIFT, WM_CHAR, WM_DEADCHAR,
    WM_KEYDOWN, WM_KEYUP,
};
use flion::utf16::decode_utf16;

fn lparam(scan: u64, was_down: bool) -> u64 {
    (scan << 16) | ((was_down as u64) << 30)
}

fn event(outcome: KeyOutcome) -> KeyEvent {
    match outcome {
        KeyOutcome::Event(event) => event,
        other => panic!("no event: {other:?}"),
    }
}

#[test]
fn fields_of_a_message() {
    let message = SystemKeyEvent {
        msg: WM_KEYDOWN,
        wparam: 0x41,
        lparam: 0x401E_0001,
    };
    assert_eq!(message.code(), 0x41);
    assert_eq!(message.scan_code(), 0x1E);
    assert!(message.was_down());
    assert!(!SystemKeyEvent { lparam: 0x1E_0001, ..message }.was_down());
}

#[test]
fn key_without_text() {
    let mut keyboard = Keyboard::new();
    let down = event(keyboard.handle_message(WM_KEYDOWN, 0x70, lparam(0x3B, false), None));
    assert_eq!(down.action, KeyAction::Down);
    assert_eq!(down.logical, Some(0x70));
    assert_eq!(down.physical, Some(0x3B));
    assert_eq!(down.character, None);
    assert_eq!(down.modifiers.bits(), 0);
    let up = event(keyboard.handle_message(WM_KEYUP, 0x70, lparam(0x3B, true), None));
    assert_eq!(up.action, KeyAction::Up);
}

#[test]
fn key_with_text() {
    let mut keyboard = Keyboard::new();
    let first = keyboard.handle_message(WM_KEYDOWN, 0x41, lparam(0x1E, false), Some(WM_CHAR));
    assert!(matches!(first, KeyOutcome::Consumed));
    let down = event(keyboard.handle_message(WM_CHAR, 0x61, lparam(0x1E, false), None));
    assert_eq!(down.action, KeyAction::Down);
    assert_eq!(down.logical, Some(0x41));
    assert_eq!(down.character.as_deref(), Some("a"));
}

#[test]
fn text_of_two_code_units() {
    let mut keyboard = Keyboard::new();
    keyboard.handle_message(WM_KEYDOWN, 0xE7, lparam(0, false), Some(WM_CHAR));
    let first = keyboard.handle_message(WM_CHAR, 0xD83D, lparam(0, false), Some(WM_CHAR));
    assert!(matches!(first, KeyOutcome::Consumed));
    let down = event(keyboard.handle_message(WM_CHAR, 0xDE00, lparam(0, false), None));
    assert_eq!(down.character.as_deref(), Some("\u{1F600}"));
}

#[test]
fn unpaired_code_unit_is_replaced() {
    assert_eq!(decode_utf16(&vec![0xD83D, 0x61]), vec!['\u{FFFD}', 'a']);
    assert_eq!(decode_utf16(&vec![0xDE00]), vec!['\u{FFFD}']);
    assert_eq!(decode_utf16(&vec![0x20AC]), vec!['€']);
}

#[test]
fn repeats_are_reported() {
    let mut keyboard = Keyboard::new();
    event(keyboard.handle_message(WM_KEYDOWN, 0x70, lparam(0x3B, false), None));
    let repeat = event(keyboard.handle_message(WM_KEYDOWN, 0x70, lparam(0x3B, true), None));
    assert_eq!(repeat.action, KeyAction::Repeat);
    let second = keyboard.handle_message(WM_KEYDOWN, 0x70, lparam(0x3B, false), None);
    assert!(matches!(second, KeyOutcome::Consumed));
}

#[test]
fn release_without_press_is_not_reported() {
    let mut keyboard = Keyboard::new();
    let up = keyboard.handle_message(WM_KEYUP, 0x70, lparam(0x3B, true), None);
    assert!(matches!(up, KeyOutcome::Consumed));
}

#[test]
fn modifiers_follow_their_keys() {
    let mut keyboard = Keyboard::new();
    let shift = event(keyboard.handle_message(WM_KEYDOWN, VK_SHIFT as u64, lparam(0x2A, false), None));
    assert_eq!(shift.modifiers.bits(), 1);
    let right = event(keyboard.handle_message(WM_KEYDOWN, VK_RSHIFT as u64, lparam(0x36, false), None));
    assert_eq!(right.modifiers.bits(), 0b101);
    let control =
        event(keyboard.handle_message(WM_KEYDOWN, VK_LCONTROL as u64, lparam(0x1D, false), None));
    assert_eq!(control.modifiers.bits(), 0b1_0101);
    let up = event(keyboard.handle_message(WM_KEYUP, VK_SHIFT as u64, lparam(0x2A, true), None));
    assert_eq!(up.modifiers.bits(), 0b1_0100);
}

#[test]
fn text_without_key() {
    let mut keyboard = Keyboard::new();
    let outcome = keyboard.handle_message(WM_CHAR, 0x61, 0, None);
    assert!(matches!(outcome, KeyOutcome::CharWithoutKeyDown));
}

#[test]
fn other_messages_are_left() {
    let mut keyboard = Keyboard::new();
    let outcome = keyboard.handle_message(WM_DEADCHAR, 0x5E, 0, None);
    assert!(matches!(outcome, KeyOutcome::Unhandled));
    assert!(Keyboard::needs_next_message(WM_KEYDOWN));
    assert!(Keyboard::needs_next_message(WM_CHAR));
    assert!(!Keyboard::needs_next_message(WM_KEYUP));
}

#[test]
fn sets_of_modifiers() {
    let mut set = KeyModifiers::empty();
    set.set(KeyModifier::ScrollLock, true);
    set.set(KeyModifier::Alt, true);
    assert_eq!(set.bits(), (1 << 13) | (1 << 6));
    assert!(set.contains(KeyModifier::Alt));
    set.set(KeyModifier::Alt, false);
    assert!(!set.contains(KeyModifier::Alt));
    assert_eq!(KeyModifiers::default().bits(), 0);
    assert_eq!(KeyModifier::WinRight.index(), 10);
}
