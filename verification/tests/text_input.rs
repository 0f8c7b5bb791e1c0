use flion::events::{ElementState, Key, NamedKey};
use flion::text_input::{TextEditingValue, TextInputHandler, TextInputRequest, TextInputState};
use smol_str::SmolStr;

fn value(text: &str, base: usize, extent: usize) -> TextEditingValue {
    TextEditingValue {
        text: text.to_owned(),
        selection_base: base,
        selection_extent: extent,
        selection_affinity: "TextAffinity.downstream".to_owned(),
        selection_is_directional: false,
        composing_base: -1,
        composing_extent: -1,
    }
}

fn state(text: &str, base: usize, extent: usize) -> TextInputState {
    TextInputState {
        client: Some(7),
        value: value(text, base, extent),
    }
}

#[test]
fn new_state_is_empty() {
    let state = TextInputState::new();
    assert_eq!(state.client, None);
    assert_eq!(state.value.text, "");
    assert_eq!(state.value.selection_base, 0);
    assert_eq!(state.value.selection_extent, 0);
    assert_eq!(state.value.selection_affinity, "");
    assert!(!state.value.selection_is_directional);
    assert_eq!(state.value.composing_base, 0);
    assert_eq!(state.value.composing_extent, 0);
    assert!(state.value.is_editable());
}

#[test]
fn typing_moves_the_cursor() {
    let mut state = TextInputState::new();
    state.insert_text("ab");
    assert_eq!(state.value.text, "ab");
    assert_eq!(state.value.selection_base, 2);
    assert_eq!(state.value.selection_extent, 2);
}

#[test]
fn typing_replaces_the_selection() {
    let mut forward = state("abcdef", 1, 4);
    forward.insert_text("X");
    assert_eq!(forward.value.text, "aXef");
    assert_eq!(forward.value.selection_base, 2);
    assert_eq!(forward.value.selection_extent, 2);

    let mut backward = state("abcdef", 4, 1);
    backward.insert_text("XY");
    assert_eq!(backward.value.text, "aXYef");
    assert_eq!(backward.value.selection_base, 3);
}

#[test]
fn typing_counts_bytes() {
    let mut state = state("né", 3, 3);
    state.insert_text("€");
    assert_eq!(state.value.text, "né€");
    assert_eq!(state.value.selection_base, 6);
}

#[test]
fn typing_twice_is_typing_once() {
    let mut twice = state("héllo", 3, 1);
    twice.insert_text("a");
    twice.insert_text("bc");
    let mut once = state("héllo", 3, 1);
    once.insert_text("abc");
    assert_eq!(twice.value.text, "habcllo");
    assert_eq!(twice.value.text, once.value.text);
    assert_eq!(twice.value.selection_base, once.value.selection_base);
}

#[test]
fn retyping_the_selection_restores_the_text() {
    let mut state = state("abcdef", 2, 5);
    state.insert_text("cde");
    assert_eq!(state.value.text, "abcdef");
    assert_eq!(state.value.selection_base, 5);
}

#[test]
fn deleting_keeps_the_ends_of_the_selection() {
    let mut state = state("abcdef", 4, 1);
    state.delete_selected();
    assert_eq!(state.value.text, "aef");
    assert_eq!(state.value.selection_base, 1);
    assert_eq!(state.value.selection_extent, 4);
}

#[test]
fn deleting_nothing_changes_nothing() {
    let mut state = state("abc", 2, 2);
    state.delete_selected();
    assert_eq!(state.value.text, "abc");
    assert_eq!(state.value.selection_base, 2);
}

#[test]
fn deleting_nothing_outside_the_text_changes_nothing() {
    let mut state = state("\u{e9}", 1, 1);
    state.delete_selected();
    assert_eq!(state.value.text, "\u{e9}");
    assert_eq!(state.value.selection_base, 1);
    state.value.selection_base = 9;
    state.value.selection_extent = 9;
    state.delete_selected();
    assert_eq!(state.client, Some(7));
    assert_eq!(state.value.text, "\u{e9}");
    assert_eq!(state.value.selection_base, 9);
    assert_eq!(state.value.selection_extent, 9);
}

#[test]
fn only_keys_with_text_need_a_selection_within_the_text() {
    let outside = state("ab", 0, 3);
    let letter = Key::Character(SmolStr::new("x"));
    let space = Key::Named(NamedKey::Space);
    assert!(!outside.accepts(ElementState::Pressed, &letter));
    assert!(!outside.accepts(ElementState::Pressed, &space));
    assert!(outside.accepts(ElementState::Released, &letter));
    assert!(outside.accepts(ElementState::Pressed, &Key::Named(NamedKey::Enter)));
    assert!(outside.accepts(ElementState::Pressed, &Key::Unidentified));
    let inside = state("ab", 0, 2);
    assert!(inside.accepts(ElementState::Pressed, &letter));
    assert!(inside.accepts(ElementState::Pressed, &space));
}

#[test]
fn selection_inside_a_character_is_not_editable() {
    assert!(!value("é", 1, 1).is_editable());
    assert!(!value("ab", 0, 3).is_editable());
    assert!(value("é", 0, 2).is_editable());
}

#[test]
fn keys_type_text() {
    let mut state = state("", 0, 0);
    let key = Key::Character(SmolStr::new("ö"));
    assert_eq!(
        state.process_key_event(ElementState::Pressed, &key),
        Some(7)
    );
    assert_eq!(
        state.process_key_event(ElementState::Pressed, &Key::Named(NamedKey::Space)),
        Some(7)
    );
    assert_eq!(state.value.text, "ö ");
    assert_eq!(state.value.selection_base, 3);
}

#[test]
fn other_keys_are_not_reported() {
    let mut state = state("a", 1, 1);
    for key in [
        Key::Named(NamedKey::Enter),
        Key::Named(NamedKey::CapsLock),
        Key::Unidentified,
        Key::Dead,
    ] {
        assert_eq!(state.process_key_event(ElementState::Pressed, &key), None);
    }
    assert_eq!(state.value.text, "a");
}

#[test]
fn released_keys_are_reported_without_typing() {
    let mut state = state("a", 1, 1);
    let key = Key::Character(SmolStr::new("b"));
    assert_eq!(
        state.process_key_event(ElementState::Released, &key),
        Some(7)
    );
    assert_eq!(state.value.text, "a");
    let mut lonely = TextInputState::new();
    assert_eq!(lonely.process_key_event(ElementState::Released, &key), None);
}

#[test]
fn requests_set_the_state() {
    let mut handler = TextInputHandler::new(TextInputState::new());
    let reply = handler.handle(Some(TextInputRequest::SetClient(3)));
    assert_eq!(reply, Some(b"[null]".to_vec()));
    assert_eq!(handler.state.client, Some(3));

    let reply = handler.handle(Some(TextInputRequest::SetEditingState(value("xy", 1, 2))));
    assert_eq!(reply, Some(b"[null]".to_vec()));
    assert_eq!(handler.state.client, Some(3));
    assert_eq!(handler.state.value.text, "xy");
    assert_eq!(handler.state.value.selection_extent, 2);

    let reply = handler.handle(Some(TextInputRequest::ClearClient));
    assert_eq!(reply, Some(b"[null]".to_vec()));
    assert_eq!(handler.state.client, None);
    assert_eq!(handler.state.value.text, "xy");
}

#[test]
fn other_requests_are_not_implemented() {
    let mut handler = TextInputHandler::new(state("ab", 1, 1));
    assert_eq!(handler.handle(Some(TextInputRequest::Show)), None);
    assert_eq!(handler.handle(Some(TextInputRequest::Hide)), None);
    assert_eq!(handler.handle(None), None);
    assert_eq!(handler.state.client, Some(7));
    assert_eq!(handler.state.value.text, "ab");
}
