use flion::events::{
    ElementState, Key, KeyAction, KeyEvent, MouseAction, MouseEvent, NamedKey, Scroll, TouchAction,
    TouchEvent,
};
use flion::flags::{KeyModifier, KeyModifiers, MouseButtons};
use flion::keyboard::{
    channel_key_event, code_point, embedder_key_event, next_stage, KeyEventType, KeyInput, KeyStage,
    text_field_event, Keyboard, StageReply,
};
use flion::pointer::{
    client_size, on_mouse_event, on_touch_event, CursorInput, CursorTracker, MouseMessage,
    PointerDeviceKind, PointerPhase, MOUSE_DEVICE,
};
use flion::window::{Answer, Window, WindowAction, WM_MOUSELEAVE, WM_MOUSEMOVE};
use smol_str::SmolStr;

fn key_event(action: KeyAction, text: Option<&str>) -> KeyEvent {
    let mut modifiers = KeyModifiers::empty();
    modifiers.set(KeyModifier::Shift, true);
    KeyEvent {
        action,
        logical: Some(0x41),
        physical: Some(0x1E),
        character: text.map(SmolStr::new),
        modifiers,
    }
}

#[test]
fn code_points() {
    assert_eq!(code_point("a"), Some(0x61));
    assert_eq!(code_point("é"), Some(0xA9C3));
    assert_eq!(code_point("€"), Some(0xAC82E2));
    assert_eq!(code_point("\u{1F600}"), Some(0x80989FF0));
    assert_eq!(code_point("abcd"), Some(0x64636261));
    assert_eq!(code_point(""), None);
    assert_eq!(code_point("abcde"), None);
}

#[test]
fn key_for_the_engine() {
    let event = key_event(KeyAction::Repeat, Some("é"));
    let mapped = embedder_key_event(&event, Some(0x61));
    assert_eq!(mapped.event_type, KeyEventType::Repeat);
    assert!(!mapped.synthesized);
    assert_eq!(mapped.character.as_deref(), Some("é"));
    assert_eq!(mapped.logical, Some(0x61));
    assert_eq!(mapped.physical, Some(0x1E));
    assert_eq!(embedder_key_event(&event, None).logical, Some(0x41));
    let mut unknown = key_event(KeyAction::Up, None);
    unknown.logical = None;
    unknown.physical = None;
    let unknown = embedder_key_event(&unknown, Some(0x61));
    assert_eq!(unknown.logical, None);
    assert_eq!(unknown.event_type, KeyEventType::Up);
    assert_eq!(unknown.raw_keys(), (0, 0));
    assert_eq!(mapped.raw_keys(), (0x61, 0x1E));
}

#[test]
fn key_for_the_framework() {
    let message = channel_key_event(&key_event(KeyAction::Repeat, Some("é")));
    assert_eq!(message.keymap, "windows");
    assert_eq!(message.event_type, "keydown");
    assert_eq!(message.character_code_point, Some(0xA9C3));
    assert_eq!(message.key_code, Some(0x41));
    assert_eq!(message.scan_code, Some(0x1E));
    assert_eq!(message.modifiers, 1);
    assert_eq!(channel_key_event(&key_event(KeyAction::Down, None)).event_type, "keydown");
    let up = channel_key_event(&key_event(KeyAction::Up, None));
    assert_eq!(up.event_type, "keyup");
    assert_eq!(up.character_code_point, None);
}

#[test]
fn key_for_the_text_field() {
    let (state, key) = text_field_event(&key_event(KeyAction::Down, Some("a")));
    assert_eq!(state, ElementState::Pressed);
    assert!(matches!(key, Key::Character(text) if text == "a"));
    let (state, key) = text_field_event(&key_event(KeyAction::Up, None));
    assert_eq!(state, ElementState::Released);
    assert!(matches!(key, Key::Unidentified));
    let mut event = key_event(KeyAction::Repeat, Some(" "));
    event.logical = Some(0x20);
    let (state, key) = text_field_event(&event);
    assert_eq!(state, ElementState::Pressed);
    assert!(matches!(key, Key::Named(NamedKey::Space)));
    event.logical = Some(0x0D);
    assert!(matches!(text_field_event(&event).1, Key::Named(NamedKey::Enter)));
    event.logical = None;
    assert!(matches!(text_field_event(&event).1, Key::Character(text) if text == " "));
}

#[test]
fn stages_of_a_key() {
    let no = StageReply::NotHandled;
    assert_eq!(next_stage(KeyStage::Embedder, no), KeyStage::Channel);
    assert_eq!(next_stage(KeyStage::Channel, no), KeyStage::TextInput);
    assert_eq!(next_stage(KeyStage::TextInput, no), KeyStage::Done);
    for reply in [StageReply::Handled, StageReply::Failed] {
        assert_eq!(next_stage(KeyStage::Embedder, reply), KeyStage::Done);
        assert_eq!(next_stage(KeyStage::Channel, reply), KeyStage::Done);
    }
}

fn input(key: Key, state: ElementState, repeat: bool) -> KeyInput {
    KeyInput {
        key,
        state,
        repeat,
        is_synthetic: true,
        logical: Some(5),
        scan_code: Some(6),
    }
}

#[test]
fn keys_of_a_window_library() {
    let mut keyboard = Keyboard::new();
    let text = Key::Character(SmolStr::new("b"));
    let (engine, channel) =
        keyboard.handle_keyboard_input(&input(text.clone(), ElementState::Pressed, false));
    assert_eq!(engine.event_type, KeyEventType::Down);
    assert!(engine.synthesized);
    assert_eq!(engine.character.as_deref(), Some("b"));
    assert_eq!(channel.event_type, "keydown");
    assert_eq!(channel.character_code_point, Some(0x62));
    let (engine, _) =
        keyboard.handle_keyboard_input(&input(text.clone(), ElementState::Pressed, true));
    assert_eq!(engine.event_type, KeyEventType::Repeat);
    let (engine, channel) = keyboard.handle_keyboard_input(&input(text, ElementState::Released, false));
    assert_eq!(engine.event_type, KeyEventType::Up);
    assert_eq!(engine.character, None);
    assert_eq!(channel.event_type, "keyup");
    assert_eq!(channel.character_code_point, Some(0x62));
    assert_eq!((channel.key_code, channel.scan_code), (Some(5), Some(6)));
}

#[test]
fn modifiers_of_a_window_library() {
    let mut keyboard = Keyboard::new();
    keyboard.handle_modifiers_changed(true, false, true);
    let caps = Key::Named(NamedKey::CapsLock);
    let (_, channel) = keyboard.handle_keyboard_input(&input(caps.clone(), ElementState::Pressed, false));
    assert_eq!(channel.modifiers, 1 | (1 << 6) | (1 << 11));
    keyboard.handle_modifiers_changed(false, true, false);
    let (_, channel) = keyboard.handle_keyboard_input(&input(caps, ElementState::Released, false));
    assert_eq!(channel.modifiers, 1 << 3);
    let (_, channel) =
        keyboard.handle_keyboard_input(&input(Key::Named(NamedKey::NumLock), ElementState::Pressed, false));
    assert_eq!(channel.modifiers, (1 << 3) | (1 << 12));
}

fn mouse_event(action: MouseAction, bits: u8) -> MouseEvent {
    MouseEvent {
        action,
        x: 3,
        y: 4,
        buttons: MouseButtons { bits },
        scroll: None,
    }
}

#[test]
fn events_of_the_mouse() {
    for (action, bits, phase) in [
        (MouseAction::Enter, 0, PointerPhase::Add),
        (MouseAction::Exit, 1, PointerPhase::Remove),
        (MouseAction::Down, 1, PointerPhase::Down),
        (MouseAction::Up, 0, PointerPhase::Up),
        (MouseAction::Move, 0, PointerPhase::Hover),
        (MouseAction::Move, 4, PointerPhase::Move),
    ] {
        match on_mouse_event(&mouse_event(action, bits)) {
            MouseMessage::Pointer(event) => {
                assert_eq!(event.phase, phase);
                assert_eq!(event.device_kind, PointerDeviceKind::Mouse);
                assert_eq!(event.device_id, MOUSE_DEVICE);
                assert_eq!((event.x, event.y), (3, 4));
                assert_eq!(event.buttons.bits(), bits);
            }
            MouseMessage::Scroll { .. } => panic!("not a scroll"),
        }
    }
    let scroll = Some(Scroll { units_x: 0, units_y: 120, lines: 3 });
    let event = MouseEvent { scroll, ..mouse_event(MouseAction::Scroll, 0) };
    assert_eq!(on_mouse_event(&event), MouseMessage::Scroll { x: 3, y: 4, scroll });
}

#[test]
fn events_of_a_finger() {
    let touch = |action, touch_id| {
        let events = on_touch_event(&TouchEvent { action, touch_id, x: 1, y: 2 });
        assert!(events.iter().all(|e| e.device_kind == PointerDeviceKind::Touch));
        assert!(events.iter().all(|e| e.buttons.is_empty() && (e.x, e.y) == (1, 2)));
        let phases: Vec<_> = events.iter().map(|e| e.phase).collect();
        (events[0].device_id, phases)
    };
    assert_eq!(touch(TouchAction::Down, 9), (9, vec![PointerPhase::Add, PointerPhase::Down]));
    assert_eq!(
        touch(TouchAction::Up, 0xFFFF_FFFF),
        (-1, vec![PointerPhase::Up, PointerPhase::Remove])
    );
    assert_eq!(
        touch(TouchAction::Move, 0x8000_0000),
        (i32::MIN, vec![PointerPhase::Move])
    );
}

#[test]
fn cursor_of_a_window_library() {
    let mut cursor = CursorTracker::new();
    let phases: Vec<_> = [
        CursorInput::Entered,
        CursorInput::Moved,
        CursorInput::Pressed,
        CursorInput::Moved,
        CursorInput::Released,
        CursorInput::Moved,
        CursorInput::Left,
    ]
    .into_iter()
    .map(|input| cursor.handle(input))
    .collect();
    assert_eq!(
        phases,
        vec![
            PointerPhase::Add,
            PointerPhase::Hover,
            PointerPhase::Down,
            PointerPhase::Move,
            PointerPhase::Up,
            PointerPhase::Hover,
            PointerPhase::Remove,
        ]
    );
}

#[test]
fn sizes_of_client_areas() {
    assert_eq!(client_size(-10, 5, 20, 6), Some((30, 1)));
    assert_eq!(client_size(0, 0, 0, 5), None);
    assert_eq!(client_size(0, 5, 5, 5), None);
    assert_eq!(client_size(i32::MAX, 0, i32::MIN, 1), None);
}

#[test]
fn mouse_of_a_window() {
    let mut window = Window::new(100, 100, None);
    let mut phases = Vec::new();
    for msg in [WM_MOUSEMOVE, WM_MOUSEMOVE, WM_MOUSELEAVE, WM_MOUSEMOVE] {
        for action in window.wnd_proc(msg, 0, 0, Answer::ExtraInfo(0)).actions {
            if let WindowAction::Mouse(event) = action {
                if let MouseMessage::Pointer(event) = on_mouse_event(&event) {
                    phases.push(event.phase);
                }
            }
        }
    }
    assert_eq!(
        phases,
        vec![
            PointerPhase::Add,
            PointerPhase::Hover,
            PointerPhase::Hover,
            PointerPhase::Remove,
            PointerPhase::Add,
            PointerPhase::Hover,
        ]
    );
}
