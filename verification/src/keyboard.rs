//! The way of a key event: to the engine, then to the framework, and then to the text field,
//! until one of them has handled it.
use crate::events::{ElementState, Key, KeyAction, KeyEvent, KeyEventView, KeyView, NamedKey};
use crate::flags::{lemma_modifier_bits, lemma_updated, KeyModifier, KeyModifiers};
use crate::small_string::{optional_text, smol_str_as_str};
use smol_str::SmolStr;
use vstd::prelude::*;
use vstd::string::*;
use vstd::utf8::encode_utf8;

verus! {

/// What a key did, in the terms of the engine.
#[derive(Clone, Copy, Debug, PartialEq, Eq, Structural)]
pub enum KeyEventType {
    Up,
    Down,
    Repeat,
}

/// A key event for the engine.
#[derive(Debug)]
pub struct EngineKeyEvent {
    pub event_type: KeyEventType,
    pub synthesized: bool,
    pub character: Option<SmolStr>,
    pub logical: Option<u64>,
    pub physical: Option<u64>,
}

/// The model of an [`EngineKeyEvent`].
pub struct EngineKeyView {
    pub event_type: KeyEventType,
    pub synthesized: bool,
    pub character: Option<Seq<char>>,
    pub logical: Option<u64>,
    pub physical: Option<u64>,
}

impl View for EngineKeyEvent {
    type V = EngineKeyView;

    open spec fn view(&self) -> EngineKeyView {
        EngineKeyView {
            event_type: self.event_type,
            synthesized: self.synthesized,
            character: optional_text(self.character),
            logical: self.logical,
            physical: self.physical,
        }
    }
}

impl EngineKeyEvent {
    /// The two keys of the event as the engine takes them: 0 where a key is not known.
    pub fn raw_keys(&self) -> (res: (u64, u64))
        ensures
            res.0 == (match self@.logical {
                Some(key) => key,
                None => 0,
            }),
            res.1 == (match self@.physical {
                Some(key) => key,
                None => 0,
            }),
    {
        let logical: u64 = match self.logical {
            Some(key) => key,
            None => 0,
        };
        let physical: u64 = match self.physical {
            Some(key) => key,
            None => 0,
        };
        (logical, physical)
    }
}

/// A key event for the framework.
#[derive(Clone, Copy, Debug)]
pub struct ChannelKeyEvent {
    pub keymap: &'static str,
    pub event_type: &'static str,
    pub character_code_point: Option<u64>,
    pub key_code: Option<u64>,
    pub scan_code: Option<u64>,
    pub modifiers: u32,
}

/// The number that the bytes make, the first one being the lowest.
pub open spec fn little_endian(bytes: Seq<u8>) -> nat
    decreases bytes.len(),
{
    if bytes.len() == 0 {
        0
    } else {
        bytes[0] as nat + 256 * little_endian(bytes.skip(1))
    }
}

/// The number by which the framework is told a text: its UTF-8 bytes, if they are one to four.
pub open spec fn code_point_of(text: Seq<char>) -> Option<u64> {
    let bytes = encode_utf8(text);
    if 1 <= bytes.len() <= 4 {
        Some(little_endian(bytes) as u64)
    } else {
        None
    }
}

/// The number by which the framework is told a text.
pub fn code_point(text: &str) -> (res: Option<u64>)
    ensures
        res == code_point_of(text@),
{
    let bytes = text.as_bytes();
    let n: usize = bytes.len();
    if 1 <= n && n <= 4 {
        let mut value: u64 = 0;
        let mut i: usize = n;
        assert(bytes@.skip(n as int) =~= Seq::empty());
        while i > 0
            invariant
                i <= n <= 4,
                n == bytes@.len(),
                value == little_endian(bytes@.skip(i as int)),
                i == 4 ==> value == 0,
                i == 3 ==> value < 0x100,
                i == 2 ==> value < 0x1_0000,
                i == 1 ==> value < 0x100_0000,
                i == 0 ==> value < 0x1_0000_0000,
            decreases i,
        {
            i -= 1;
            assert(bytes@.skip(i as int).skip(1) =~= bytes@.skip(i + 1));
            value = bytes[i] as u64 + 256 * value;
        }
        assert(bytes@.skip(0) =~= bytes@);
        Some(value)
    } else {
        None
    }
}

/// The event for the engine. `mapped` is the logical key of the framework for the logical key of
/// the event, where there is one.
pub open spec fn engine_event(event: KeyEventView, mapped: Option<u64>) -> EngineKeyView {
    EngineKeyView {
        event_type: match event.action {
            KeyAction::Up => KeyEventType::Up,
            KeyAction::Down => KeyEventType::Down,
            KeyAction::Repeat => KeyEventType::Repeat,
        },
        synthesized: false,
        character: event.character,
        logical: match event.logical {
            Some(key) => match mapped {
                Some(mapped) => Some(mapped),
                None => Some(key),
            },
            None => None,
        },
        physical: event.physical,
    }
}

/// The event for the engine.
pub fn embedder_key_event(event: &KeyEvent, mapped: Option<u64>) -> (res: EngineKeyEvent)
    ensures
        res@ == engine_event(event@, mapped),
{
    EngineKeyEvent {
        event_type: match event.action {
            KeyAction::Up => KeyEventType::Up,
            KeyAction::Down => KeyEventType::Down,
            KeyAction::Repeat => KeyEventType::Repeat,
        },
        synthesized: false,
        character: match &event.character {
            Some(text) => Some(text.clone()),
            None => None,
        },
        logical: match event.logical {
            Some(key) => match mapped {
                Some(mapped) => Some(mapped),
                None => Some(key),
            },
            None => None,
        },
        physical: event.physical,
    }
}

/// The name of what a key did, for the framework.
pub open spec fn channel_type(is_up: bool) -> &'static str {
    if is_up {
        "keyup"
    } else {
        "keydown"
    }
}

/// The event for the framework.
pub open spec fn channel_event(event: KeyEventView) -> ChannelKeyEvent {
    ChannelKeyEvent {
        keymap: "windows",
        event_type: channel_type(event.action is Up),
        character_code_point: match event.character {
            Some(text) => code_point_of(text),
            None => None,
        },
        key_code: event.logical,
        scan_code: event.physical,
        modifiers: event.modifiers.bits,
    }
}

/// The event for the framework.
pub fn channel_key_event(event: &KeyEvent) -> (res: ChannelKeyEvent)
    ensures
        res == channel_event(event@),
{
    ChannelKeyEvent {
        keymap: "windows",
        event_type: match event.action {
            KeyAction::Up => "keyup",
            KeyAction::Down | KeyAction::Repeat => "keydown",
        },
        character_code_point: match &event.character {
            Some(text) => code_point(smol_str_as_str(text)),
            None => None,
        },
        key_code: event.logical,
        scan_code: event.physical,
        modifiers: event.modifiers.bits(),
    }
}

/// The number of the space bar among the keys of the system.
pub const SPACE_KEY: u64 = 0x20;

/// The number of the return key among the keys of the system.
pub const RETURN_KEY: u64 = 0x0d;

/// The key that the text field is told for an event.
pub open spec fn text_field_key(event: KeyEventView) -> KeyView {
    if event.logical == Some(SPACE_KEY) {
        KeyView::Named(NamedKey::Space)
    } else if event.logical == Some(RETURN_KEY) {
        KeyView::Named(NamedKey::Enter)
    } else {
        match event.character {
            Some(text) => KeyView::Character(text),
            None => KeyView::Unidentified,
        }
    }
}

/// Whether the key is held, and which key it is, as the text field is told.
pub fn text_field_event(event: &KeyEvent) -> (res: (ElementState, Key))
    ensures
        res.0 == (if event@.action is Up {
            ElementState::Released
        } else {
            ElementState::Pressed
        }),
        res.1@ == text_field_key(event@),
{
    let state = match event.action {
        KeyAction::Up => ElementState::Released,
        KeyAction::Down | KeyAction::Repeat => ElementState::Pressed,
    };
    let key = match event.logical {
        Some(SPACE_KEY) => Key::Named(NamedKey::Space),
        Some(RETURN_KEY) => Key::Named(NamedKey::Enter),
        _ => match &event.character {
            Some(text) => Key::Character(text.clone()),
            None => Key::Unidentified,
        },
    };
    (state, key)
}

/// Who is asked to handle a key event.
#[derive(Clone, Copy, Debug, PartialEq, Eq, Structural)]
pub enum KeyStage {
    /// The engine.
    Embedder,
    /// The framework.
    Channel,
    /// The text field.
    TextInput,
    /// Nobody any longer.
    Done,
}

/// What came back from who was asked.
#[derive(Clone, Copy, Debug, PartialEq, Eq, Structural)]
pub enum StageReply {
    Handled,
    NotHandled,
    /// The event could not be sent, or the reply could not be read.
    Failed,
}

/// Who is asked next.
pub open spec fn stage_after(stage: KeyStage, reply: StageReply) -> KeyStage {
    match (stage, reply) {
        (KeyStage::Embedder, StageReply::NotHandled) => KeyStage::Channel,
        (KeyStage::Channel, StageReply::NotHandled) => KeyStage::TextInput,
        _ => KeyStage::Done,
    }
}

/// Who is asked next.
pub fn next_stage(stage: KeyStage, reply: StageReply) -> (res: KeyStage)
    ensures
        res == stage_after(stage, reply),
{
    match reply {
        StageReply::NotHandled => match stage {
            KeyStage::Embedder => KeyStage::Channel,
            KeyStage::Channel => KeyStage::TextInput,
            KeyStage::TextInput | KeyStage::Done => KeyStage::Done,
        },
        StageReply::Handled | StageReply::Failed => KeyStage::Done,
    }
}

/// Who is asked after some replies, the engine being asked first.
pub open spec fn stage_of(replies: Seq<StageReply>) -> KeyStage
    decreases replies.len(),
{
    if replies.len() == 0 {
        KeyStage::Embedder
    } else {
        stage_after(stage_of(replies.drop_last()), replies.last())
    }
}

/// The text field is asked exactly when the engine and the framework both did not handle the
/// event, and whoever comes after one who handled it, or failed, is not asked.
pub proof fn text_field_is_asked_last(replies: Seq<StageReply>)
    ensures
        stage_of(replies) == KeyStage::TextInput <==> replies == seq![
            StageReply::NotHandled,
            StageReply::NotHandled,
        ],
        stage_of(replies) == KeyStage::Channel <==> replies == seq![StageReply::NotHandled],
        stage_of(replies) == KeyStage::Embedder <==> replies.len() == 0,
    decreases replies.len(),
{
    if replies.len() > 0 {
        let fewer = replies.drop_last();
        text_field_is_asked_last(fewer);
        assert(replies =~= fewer.push(replies.last()));
        if stage_of(replies) == KeyStage::TextInput {
            assert(replies =~= seq![StageReply::NotHandled, StageReply::NotHandled]);
        }
        if stage_of(replies) == KeyStage::Channel {
            assert(replies =~= seq![StageReply::NotHandled]);
        }
        if replies == seq![StageReply::NotHandled, StageReply::NotHandled] {
            assert(fewer =~= seq![StageReply::NotHandled]);
        }
        if replies == seq![StageReply::NotHandled] {
            assert(fewer.len() == 0);
        }
    }
}

/// A key that went up or down, as a window library reports it.
#[derive(Debug)]
pub struct KeyInput {
    pub key: Key,
    pub state: ElementState,
    pub repeat: bool,
    pub is_synthetic: bool,
    /// The logical key of the framework for the key.
    pub logical: Option<u64>,
    pub scan_code: Option<u64>,
}

/// The lock that a key sets.
pub open spec fn lock_of(key: KeyView) -> Option<KeyModifier> {
    match key {
        KeyView::Named(NamedKey::CapsLock) => Some(KeyModifier::CapsLock),
        KeyView::Named(NamedKey::NumLock) => Some(KeyModifier::NumLock),
        KeyView::Named(NamedKey::ScrollLock) => Some(KeyModifier::ScrollLock),
        _ => None,
    }
}

/// The modifiers after a key went up or down: a lock key is on while it is held.
pub open spec fn modifiers_with_key(
    modifiers: KeyModifiers,
    key: KeyView,
    state: ElementState,
) -> KeyModifiers {
    match lock_of(key) {
        Some(lock) => modifiers.updated(lock, state == ElementState::Pressed),
        None => modifiers,
    }
}

/// The text of a key that has one.
pub open spec fn key_text(key: KeyView) -> Option<Seq<char>> {
    match key {
        KeyView::Character(text) => Some(text),
        _ => None,
    }
}

/// The event for the engine, from what a window library reports. A released key has no text.
pub open spec fn engine_event_of_input(input: KeyInput) -> EngineKeyView {
    EngineKeyView {
        event_type: match input.state {
            ElementState::Pressed => if input.repeat {
                KeyEventType::Repeat
            } else {
                KeyEventType::Down
            },
            ElementState::Released => KeyEventType::Up,
        },
        synthesized: input.is_synthetic,
        character: if input.state == ElementState::Pressed {
            key_text(input.key@)
        } else {
            None
        },
        logical: input.logical,
        physical: input.scan_code,
    }
}

/// The event for the framework, from what a window library reports.
pub open spec fn channel_event_of_input(input: KeyInput, modifiers: KeyModifiers) -> ChannelKeyEvent {
    ChannelKeyEvent {
        keymap: "windows",
        event_type: channel_type(input.state == ElementState::Released),
        character_code_point: match key_text(input.key@) {
            Some(text) => code_point_of(text),
            None => None,
        },
        key_code: input.logical,
        scan_code: input.scan_code,
        modifiers: modifiers.bits,
    }
}

/// The modifiers of the keyboard, where a window library reports keys and modifiers apart.
pub struct Keyboard {
    modifiers: KeyModifiers,
}

impl View for Keyboard {
    type V = KeyModifiers;

    closed spec fn view(&self) -> KeyModifiers {
        self.modifiers
    }
}

impl Keyboard {
    /// No modifier is on.
    pub fn new() -> (res: Keyboard)
        ensures
            res@.bits == 0,
            forall|m: KeyModifier| !#[trigger] res@.has(m),
    {
        Keyboard { modifiers: KeyModifiers::empty() }
    }

    /// Takes in a key that went up or down, and gives the events for the engine and for the
    /// framework.
    pub fn handle_keyboard_input(&mut self, input: &KeyInput) -> (res: (
        EngineKeyEvent,
        ChannelKeyEvent,
    ))
        ensures
            final(self)@ == modifiers_with_key(old(self)@, input.key@, input.state),
            res.0@ == engine_event_of_input(*input),
            res.1 == channel_event_of_input(*input, final(self)@),
    {
        let is_pressed = input.state == ElementState::Pressed;
        if let Key::Named(name) = &input.key {
            match name {
                NamedKey::CapsLock => self.modifiers.set(KeyModifier::CapsLock, is_pressed),
                NamedKey::NumLock => self.modifiers.set(KeyModifier::NumLock, is_pressed),
                NamedKey::ScrollLock => self.modifiers.set(KeyModifier::ScrollLock, is_pressed),
                _ => {},
            }
        }
        let engine = EngineKeyEvent {
            event_type: match input.state {
                ElementState::Pressed => if input.repeat {
                    KeyEventType::Repeat
                } else {
                    KeyEventType::Down
                },
                ElementState::Released => KeyEventType::Up,
            },
            synthesized: input.is_synthetic,
            character: match &input.key {
                Key::Character(text) => if is_pressed {
                    Some(text.clone())
                } else {
                    None
                },
                _ => None,
            },
            logical: input.logical,
            physical: input.scan_code,
        };
        let channel = ChannelKeyEvent {
            keymap: "windows",
            event_type: if is_pressed {
                "keydown"
            } else {
                "keyup"
            },
            character_code_point: match &input.key {
                Key::Character(text) => code_point(smol_str_as_str(text)),
                _ => None,
            },
            key_code: input.logical,
            scan_code: input.scan_code,
            modifiers: self.modifiers.bits(),
        };
        (engine, channel)
    }

    /// Takes in which of the modifiers are on.
    pub fn handle_modifiers_changed(&mut self, shift: bool, control: bool, alt: bool)
        ensures
            final(self)@ == old(self)@.updated(KeyModifier::Shift, shift).updated(
                KeyModifier::Control,
                control,
            ).updated(KeyModifier::Alt, alt),
    {
        self.modifiers.set(KeyModifier::Shift, shift);
        self.modifiers.set(KeyModifier::Control, control);
        self.modifiers.set(KeyModifier::Alt, alt);
    }
}

/// The modifiers that are reported are the ones that are on, and no other modifier changes.
pub proof fn reported_modifiers(
    modifiers: KeyModifiers,
    shift: bool,
    control: bool,
    alt: bool,
    m: KeyModifier,
)
    ensures
        modifiers.updated(KeyModifier::Shift, shift).updated(
            KeyModifier::Control,
            control,
        ).updated(KeyModifier::Alt, alt).has(m) == (match m {
            KeyModifier::Shift => shift,
            KeyModifier::Control => control,
            KeyModifier::Alt => alt,
            _ => modifiers.has(m),
        }),
{
    let first = modifiers.updated(KeyModifier::Shift, shift);
    let second = first.updated(KeyModifier::Control, control);
    lemma_updated(modifiers, KeyModifier::Shift, shift);
    lemma_updated(first, KeyModifier::Control, control);
    lemma_updated(second, KeyModifier::Alt, alt);
}

/// A lock key that is pressed and released leaves its lock off, and all other modifiers as they
/// were.
pub proof fn lock_key_is_on_while_held(modifiers: KeyModifiers, key: KeyView, m: KeyModifier)
    requires
        lock_of(key) is Some,
    ensures
        modifiers_with_key(modifiers, key, ElementState::Pressed).has(m) == (lock_of(key) == Some(m)
            || modifiers.has(m)),
        modifiers_with_key(
            modifiers_with_key(modifiers, key, ElementState::Pressed),
            key,
            ElementState::Released,
        ).has(m) == (lock_of(key) != Some(m) && modifiers.has(m)),
{
    let lock = lock_of(key)->0;
    lemma_updated(modifiers, lock, true);
    lemma_updated(modifiers.updated(lock, true), lock, false);
}

/// Two texts of the same few bytes are told apart: the number gives back the bytes.
pub proof fn code_points_differ(a: Seq<u8>, b: Seq<u8>)
    requires
        a.len() == b.len(),
        little_endian(a) == little_endian(b),
    ensures
        a == b,
    decreases a.len(),
{
    if a.len() > 0 {
        code_points_differ(a.skip(1), b.skip(1));
        assert(a =~= seq![a[0]] + a.skip(1));
        assert(b =~= seq![b[0]] + b.skip(1));
    }
}

/// The engine is told what the key did: that it went down, came up or repeats, exactly as it is.
/// It is told the text and the place of the key on the keyboard as they are, and the meaning of the
/// key in its own numbers, where it has one for it.
pub proof fn engine_is_told_what_the_key_did(
    event: KeyEvent,
    mapped: Option<u64>,
    told: EngineKeyEvent,
)
    requires
        call_ensures(embedder_key_event, (&event, mapped), told),
    ensures
        told.event_type is Down <==> event.action is Down,
        told.event_type is Up <==> event.action is Up,
        told.event_type is Repeat <==> event.action is Repeat,
        !told.synthesized,
        optional_text(told.character) == optional_text(event.character),
        told.physical == event.physical,
        told.logical is Some <==> event.logical is Some,
        event.logical is Some && mapped is Some ==> told.logical == mapped,
        event.logical is Some && mapped is None ==> told.logical == event.logical,
{
    assert(told@ == engine_event(event@, mapped));
    assert(told@.character == optional_text(told.character));
}

/// The framework is told that a key came up exactly if it did, and else that it went down, with the
/// numbers of the key and the modifiers as they are.
pub proof fn framework_is_told_what_the_key_did(event: KeyEvent, told: ChannelKeyEvent)
    requires
        call_ensures(channel_key_event, (&event,), told),
    ensures
        told.keymap@ == "windows"@,
        event.action is Up ==> told.event_type@ == "keyup"@,
        !(event.action is Up) ==> told.event_type@ == "keydown"@,
        told.key_code == event.logical,
        told.scan_code == event.physical,
        told.modifiers == event.modifiers.bits,
        told.character_code_point == (match optional_text(event.character) {
            Some(text) => code_point_of(text),
            None => None,
        }),
{
}

/// A text of one to four bytes is told by the number whose lowest byte is the first byte of the
/// text, and so on. A text of no bytes or more of them is not told.
pub proof fn texts_are_told_by_their_bytes(text: &str, number: Option<u64>)
    requires
        call_ensures(code_point, (text,), number),
    ensures
        ({
            let bytes = encode_utf8(text@);
            &&& number is Some <==> 1 <= bytes.len() <= 4
            &&& bytes.len() == 1 ==> number->0 == bytes[0]
            &&& bytes.len() == 2 ==> number->0 == bytes[0] + 0x100 * bytes[1]
            &&& bytes.len() == 3 ==> number->0 == bytes[0] + 0x100 * bytes[1] + 0x1_0000 * bytes[2]
            &&& bytes.len() == 4 ==> number->0 == bytes[0] + 0x100 * bytes[1] + 0x1_0000 * bytes[2]
                + 0x100_0000 * bytes[3]
        }),
{
    let bytes = encode_utf8(text@);
    if 1 <= bytes.len() <= 4 {
        reveal_with_fuel(little_endian, 5);
        if bytes.len() >= 2 {
            assert(bytes.skip(1).skip(1) =~= bytes.skip(2));
        }
        if bytes.len() >= 3 {
            assert(bytes.skip(2).skip(1) =~= bytes.skip(3));
        }
        if bytes.len() >= 4 {
            assert(bytes.skip(3).skip(1) =~= bytes.skip(4));
        }
    }
}

/// The text field is told that the key is released exactly if it came up. The space bar and the
/// return key are told by name, any other key by its text, and one without a text not by its
/// meaning.
pub proof fn text_field_is_told_the_key(event: KeyEvent, told: (ElementState, Key))
    requires
        call_ensures(text_field_event, (&event,), told),
    ensures
        told.0 is Released <==> event.action is Up,
        event.logical == Some(0x20u64) ==> told.1 == Key::Named(NamedKey::Space),
        event.logical == Some(0x0du64) ==> told.1 == Key::Named(NamedKey::Enter),
        event.logical != Some(0x20u64) && event.logical != Some(0x0du64) ==> {
            &&& event.character is None ==> told.1 is Unidentified
            &&& event.character is Some ==> {
                &&& told.1 is Character
                &&& Some(told.1@->Character_0) == optional_text(event.character)
            }
        },
{
    assert(told.1@ == text_field_key(event@));
}

/// Where a key is not known, the engine is told 0 for it, and else the key.
pub proof fn unknown_keys_are_zero(event: EngineKeyEvent, keys: (u64, u64))
    requires
        call_ensures(EngineKeyEvent::raw_keys, (&event,), keys),
    ensures
        event.logical is Some ==> keys.0 == event.logical->0,
        event.logical is None ==> keys.0 == 0,
        event.physical is Some ==> keys.1 == event.physical->0,
        event.physical is None ==> keys.1 == 0,
{
}

/// The event goes on exactly if it was not handled, from the engine to the framework and from there
/// to the text field, and no further.
pub proof fn unhandled_events_go_on(stage: KeyStage, reply: StageReply, next: KeyStage)
    requires
        call_ensures(next_stage, (stage, reply), next),
    ensures
        next is Channel <==> stage is Embedder && reply is NotHandled,
        next is TextInput <==> stage is Channel && reply is NotHandled,
        !(next is Embedder),
{
}

/// What a window library reports of a key is told to the engine and to the framework: whether the
/// key went down, repeats or came up, its numbers, and its text, which the engine is told only
/// while the key is held.
pub proof fn reported_key_is_told(
    keyboard: &mut Keyboard,
    input: KeyInput,
    told: (EngineKeyEvent, ChannelKeyEvent),
)
    requires
        call_ensures(Keyboard::handle_keyboard_input, (keyboard, &input), told),
    ensures
        told.0.event_type is Up <==> input.state is Released,
        told.0.event_type is Repeat <==> input.state is Pressed && input.repeat,
        told.0.event_type is Down <==> input.state is Pressed && !input.repeat,
        told.0.synthesized == input.is_synthetic,
        told.0.logical == input.logical,
        told.0.physical == input.scan_code,
        input.state is Pressed && input.key is Character ==> optional_text(told.0.character) == Some(
            input.key@->Character_0,
        ),
        input.state is Released || !(input.key is Character) ==> told.0.character is None,
        told.1.keymap@ == "windows"@,
        input.state is Released ==> told.1.event_type@ == "keyup"@,
        input.state is Pressed ==> told.1.event_type@ == "keydown"@,
        told.1.key_code == input.logical,
        told.1.scan_code == input.scan_code,
        told.1.modifiers == final(keyboard)@.bits,
        told.1.character_code_point == (if input.key is Character {
            code_point_of(input.key@->Character_0)
        } else {
            None
        }),
{
    assert(told.0@ == engine_event_of_input(input));
    assert(told.0@.character == optional_text(told.0.character));
}

/// A lock key sets its bit while it is held and clears it when it is released: bit 11 for the key
/// that locks capitals, 12 for the one that locks numbers and 13 for the one that locks scrolling.
/// No other key changes a bit.
pub proof fn lock_keys_switch_their_bits(
    keyboard: &mut Keyboard,
    input: KeyInput,
    told: (EngineKeyEvent, ChannelKeyEvent),
)
    requires
        call_ensures(Keyboard::handle_keyboard_input, (keyboard, &input), told),
    ensures
        ({
            let bit: u32 = match input.key {
                Key::Named(NamedKey::CapsLock) => 0x800,
                Key::Named(NamedKey::NumLock) => 0x1000,
                Key::Named(NamedKey::ScrollLock) => 0x2000,
                _ => 0,
            };
            final(keyboard)@.bits == if input.state is Pressed {
                old(keyboard)@.bits | bit
            } else {
                old(keyboard)@.bits & !bit
            }
        }),
{
    lemma_modifier_bits();
    let bits = old(keyboard)@.bits;
    assert(bits | 0 == bits) by (bit_vector);
    assert(bits & !0u32 == bits) by (bit_vector);
}

/// The reported modifiers set or clear their bits: bit 0 for shift, bit 3 for control and bit 6 for
/// alt. No other bit changes.
pub proof fn reported_modifiers_have_their_bits(
    keyboard: &mut Keyboard,
    shift: bool,
    control: bool,
    alt: bool,
)
    requires
        call_ensures(Keyboard::handle_modifiers_changed, (keyboard, shift, control, alt), ()),
    ensures
        final(keyboard)@.bits & 0x1 == if shift {
            0x1u32
        } else {
            0
        },
        final(keyboard)@.bits & 0x8 == if control {
            0x8u32
        } else {
            0
        },
        final(keyboard)@.bits & 0x40 == if alt {
            0x40u32
        } else {
            0
        },
        final(keyboard)@.bits & !0x49u32 == old(keyboard)@.bits & !0x49u32,
{
    lemma_modifier_bits();
    let before = old(keyboard)@.bits;
    let first = if shift {
        before | 0x1
    } else {
        before & !0x1u32
    };
    let second = if control {
        first | 0x8
    } else {
        first & !0x8u32
    };
    let third = if alt {
        second | 0x40
    } else {
        second & !0x40u32
    };
    lemma_three_bits(before, first, second, third, shift, control, alt);
}

proof fn lemma_three_bits(
    before: u32,
    first: u32,
    second: u32,
    third: u32,
    shift: bool,
    control: bool,
    alt: bool,
)
    by (bit_vector)
    requires
        first == (if shift {
            before | 0x1
        } else {
            before & !0x1u32
        }),
        second == (if control {
            first | 0x8
        } else {
            first & !0x8u32
        }),
        third == (if alt {
            second | 0x40
        } else {
            second & !0x40u32
        }),
    ensures
        third & 0x1 == (if shift {
            0x1u32
        } else {
            0
        }),
        third & 0x8 == (if control {
            0x8u32
        } else {
            0
        }),
        third & 0x40 == (if alt {
            0x40u32
        } else {
            0
        }),
        third & !0x49u32 == before & !0x49u32,
{
}

} // verus!
