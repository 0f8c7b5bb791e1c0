//! From the keyboard messages of a window to key events.
//!
//! A key press reaches a window as a key-down message, which may be followed by character
//! messages that carry the text of the key in UTF-16. The [`Keyboard`] gathers these messages
//! until the press is complete, keeps track of the keys that are held and of the modifiers,
//! and hands out one event per press, repeat or release.
use crate::events::{KeyAction, KeyEvent, KeyEventView};
use crate::flags::{lemma_updated, KeyModifier, KeyModifiers};
use crate::small_string::smol_str_from_chars;
use crate::utf16::{decode_utf16, utf16_text};
use std::collections::{BTreeSet, VecDeque};
use vstd::prelude::*;

verus! {

broadcast use {
    vstd::std_specs::btree::group_btree_axioms,
    vstd::std_specs::vecdeque::group_vec_dequeue_axioms,
};

/// A key was pressed, or is repeating.
pub const WM_KEYDOWN: u32 = 0x100;

/// A key was released.
pub const WM_KEYUP: u32 = 0x101;

/// A code unit of the text of the pressed key.
pub const WM_CHAR: u32 = 0x102;

/// A code unit of a dead key.
pub const WM_DEADCHAR: u32 = 0x103;

/// Virtual key code of either shift key.
pub const VK_SHIFT: u16 = 0x10;

/// Virtual key code of either control key.
pub const VK_CONTROL: u16 = 0x11;

/// Virtual key code of the left shift key.
pub const VK_LSHIFT: u16 = 0xA0;

/// Virtual key code of the right shift key.
pub const VK_RSHIFT: u16 = 0xA1;

/// Virtual key code of the left control key.
pub const VK_LCONTROL: u16 = 0xA2;

/// Virtual key code of the right control key.
pub const VK_RCONTROL: u16 = 0xA3;

/// A keyboard message, with its two parameters as 64-bit words.
#[derive(Clone, Copy, Debug, PartialEq, Eq, Structural)]
pub struct SystemKeyEvent {
    pub msg: u32,
    pub wparam: u64,
    pub lparam: u64,
}

impl SystemKeyEvent {
    /// Bits 16 to 23 of the second parameter.
    pub open spec fn spec_scan_code(self) -> u8 {
        ((self.lparam / 0x1_0000) % 0x100) as u8
    }

    /// Bit 30 of the second parameter.
    pub open spec fn spec_was_down(self) -> bool {
        (self.lparam / 0x4000_0000) % 2 == 1
    }

    /// The low 16 bits of the first parameter.
    pub open spec fn spec_unit(self) -> u16 {
        (self.wparam % 0x1_0000) as u16
    }

    /// The virtual key code of a key message, the code unit of a character message.
    pub fn code(&self) -> (res: u64)
        ensures
            res == self.wparam,
    {
        self.wparam
    }

    /// The code that the keyboard hardware gives the key.
    pub fn scan_code(&self) -> (res: u8)
        ensures
            res == self.spec_scan_code(),
    {
        let lparam = self.lparam;
        assert((lparam >> 16) & 0xff == (lparam / 0x1_0000) % 0x100) by (bit_vector);
        ((lparam >> 16) & 0xff) as u8
    }

    /// Whether the key was already down before the message.
    pub fn was_down(&self) -> (res: bool)
        ensures
            res == self.spec_was_down(),
    {
        let lparam = self.lparam;
        assert((lparam & (1u64 << 30) != 0) == ((lparam / 0x4000_0000) % 2 == 1)) by (bit_vector);
        lparam & (1u64 << 30) != 0
    }

    /// The code unit that a character message carries.
    fn unit(&self) -> (res: u16)
        ensures
            res == self.spec_unit(),
    {
        (self.wparam % 0x1_0000) as u16
    }
}

/// The modifier that the key with this code switches.
pub open spec fn modifier_of(code: u64) -> Option<KeyModifier> {
    let vk = (code % 0x1_0000) as u16;
    if vk == VK_CONTROL {
        Some(KeyModifier::Control)
    } else if vk == VK_LCONTROL {
        Some(KeyModifier::ControlLeft)
    } else if vk == VK_RCONTROL {
        Some(KeyModifier::ControlRight)
    } else if vk == VK_SHIFT {
        Some(KeyModifier::Shift)
    } else if vk == VK_LSHIFT {
        Some(KeyModifier::ShiftLeft)
    } else if vk == VK_RSHIFT {
        Some(KeyModifier::ShiftRight)
    } else {
        None
    }
}

/// The modifier that the key with this code switches.
fn modifier_for(code: u64) -> (res: Option<KeyModifier>)
    ensures
        res == modifier_of(code),
{
    let vk: u16 = (code % 0x1_0000) as u16;
    if vk == VK_CONTROL {
        Some(KeyModifier::Control)
    } else if vk == VK_LCONTROL {
        Some(KeyModifier::ControlLeft)
    } else if vk == VK_RCONTROL {
        Some(KeyModifier::ControlRight)
    } else if vk == VK_SHIFT {
        Some(KeyModifier::Shift)
    } else if vk == VK_LSHIFT {
        Some(KeyModifier::ShiftLeft)
    } else if vk == VK_RSHIFT {
        Some(KeyModifier::ShiftRight)
    } else {
        None
    }
}

/// What a keyboard message led to.
#[derive(Clone, Debug)]
pub enum KeyOutcome {
    /// The message is left to the system.
    Unhandled,
    /// The message was taken in, and there is nothing to report.
    Consumed,
    /// The message completed this event.
    Event(KeyEvent),
    /// A character message arrived with no key-down message before it.
    CharWithoutKeyDown,
}

/// A [`KeyOutcome`] with its text as a sequence of characters.
pub enum KeyOutcomeView {
    Unhandled,
    Consumed,
    Event(KeyEventView),
    CharWithoutKeyDown,
}

impl View for KeyOutcome {
    type V = KeyOutcomeView;

    open spec fn view(&self) -> KeyOutcomeView {
        match self {
            KeyOutcome::Unhandled => KeyOutcomeView::Unhandled,
            KeyOutcome::Consumed => KeyOutcomeView::Consumed,
            KeyOutcome::Event(event) => KeyOutcomeView::Event(event@),
            KeyOutcome::CharWithoutKeyDown => KeyOutcomeView::CharWithoutKeyDown,
        }
    }
}

/// The state of a [`Keyboard`].
#[verifier::ext_equal]
pub struct KeyboardView {
    pub modifiers: KeyModifiers,
    /// The messages of the press that is not complete yet.
    pub session: Seq<SystemKeyEvent>,
    /// The scan codes of the keys that are held.
    pub pressed: Set<u64>,
}

/// A press, repeat or release that the messages so far amount to.
pub struct Stroke {
    pub action: KeyAction,
    pub code: u64,
    pub scan: u64,
    pub text: Option<Seq<char>>,
}

/// How a key-down message acts on a key.
pub open spec fn down_action(key_down: SystemKeyEvent) -> KeyAction {
    if key_down.spec_was_down() {
        KeyAction::Repeat
    } else {
        KeyAction::Down
    }
}

/// The code units that character messages carry.
pub open spec fn units_of(messages: Seq<SystemKeyEvent>) -> Seq<u16> {
    messages.map_values(|e: SystemKeyEvent| e.spec_unit())
}

impl KeyboardView {
    /// Whether more messages of the same press are under way, `next` being the keyboard
    /// message that waits in the queue of the window.
    pub open spec fn is_incomplete(msg: u32, next: Option<u32>) -> bool {
        (msg == WM_KEYDOWN || msg == WM_CHAR) && next == Some(WM_CHAR)
    }

    /// The stroke that `event` completes, where it completes one.
    pub open spec fn stroke(self, event: SystemKeyEvent) -> Option<Stroke> {
        let session = self.session.push(event);
        if event.msg == WM_KEYDOWN {
            Some(
                Stroke {
                    action: down_action(event),
                    code: event.wparam,
                    scan: event.spec_scan_code() as u64,
                    text: None,
                },
            )
        } else if event.msg == WM_CHAR && session[0].msg == WM_KEYDOWN {
            Some(
                Stroke {
                    action: down_action(session[0]),
                    code: session[0].wparam,
                    scan: session[0].spec_scan_code() as u64,
                    text: Some(utf16_text(units_of(session.skip(1)))),
                },
            )
        } else if event.msg == WM_KEYUP {
            Some(
                Stroke {
                    action: KeyAction::Up,
                    code: event.wparam,
                    scan: event.spec_scan_code() as u64,
                    text: None,
                },
            )
        } else {
            None
        }
    }

    /// The modifiers after a stroke.
    pub open spec fn modifiers_after(self, stroke: Stroke) -> KeyModifiers {
        match modifier_of(stroke.code) {
            Some(modifier) => self.modifiers.updated(modifier, stroke.action != KeyAction::Up),
            None => self.modifiers,
        }
    }

    /// The held keys after a stroke.
    pub open spec fn pressed_after(self, stroke: Stroke) -> Set<u64> {
        if stroke.action == KeyAction::Up {
            self.pressed.remove(stroke.scan)
        } else {
            self.pressed.insert(stroke.scan)
        }
    }

    /// Whether a stroke is news: a release of a held key, a press of a key that is not held,
    /// or a repeat.
    pub open spec fn is_news(self, stroke: Stroke) -> bool {
        match stroke.action {
            KeyAction::Up => self.pressed.contains(stroke.scan),
            KeyAction::Down => !self.pressed.contains(stroke.scan),
            KeyAction::Repeat => true,
        }
    }

    /// The state after `event`, `next` being the keyboard message that waits in the queue.
    pub open spec fn after(self, event: SystemKeyEvent, next: Option<u32>) -> KeyboardView {
        let session = self.session.push(event);
        if Self::is_incomplete(event.msg, next) {
            KeyboardView { session, ..self }
        } else {
            match self.stroke(event) {
                Some(stroke) => KeyboardView {
                    modifiers: self.modifiers_after(stroke),
                    session: Seq::empty(),
                    pressed: self.pressed_after(stroke),
                },
                None => if event.msg == WM_CHAR {
                    KeyboardView { session: session.skip(1), ..self }
                } else {
                    KeyboardView { session, ..self }
                },
            }
        }
    }

    /// What `event` leads to, `next` being the keyboard message that waits in the queue.
    pub open spec fn outcome(self, event: SystemKeyEvent, next: Option<u32>) -> KeyOutcomeView {
        if Self::is_incomplete(event.msg, next) {
            KeyOutcomeView::Consumed
        } else {
            match self.stroke(event) {
                Some(stroke) => if self.is_news(stroke) {
                    KeyOutcomeView::Event(
                        KeyEventView {
                            action: stroke.action,
                            logical: Some(stroke.code),
                            physical: Some(stroke.scan),
                            character: stroke.text,
                            modifiers: self.modifiers_after(stroke),
                        },
                    )
                } else {
                    KeyOutcomeView::Consumed
                },
                None => if event.msg == WM_CHAR {
                    KeyOutcomeView::CharWithoutKeyDown
                } else {
                    KeyOutcomeView::Unhandled
                },
            }
        }
    }
}

/// Turns the keyboard messages of one window into key events.
pub struct Keyboard {
    modifiers: KeyModifiers,
    session: VecDeque<SystemKeyEvent>,
    pressed_keys: BTreeSet<u64>,
}

impl View for Keyboard {
    type V = KeyboardView;

    closed spec fn view(&self) -> KeyboardView {
        KeyboardView {
            modifiers: self.modifiers,
            session: self.session@,
            pressed: self.pressed_keys@,
        }
    }
}

impl Keyboard {
    /// A keyboard with no key held, no modifier on and no press under way.
    pub fn new() -> (res: Keyboard)
        ensures
            res@.modifiers.bits == 0,
            res@.session == Seq::<SystemKeyEvent>::empty(),
            res@.pressed == Set::<u64>::empty(),
    {
        Keyboard {
            modifiers: KeyModifiers::empty(),
            session: VecDeque::new(),
            pressed_keys: BTreeSet::new(),
        }
    }

    /// Whether [`Keyboard::handle_message`] looks at the message that waits in the queue.
    pub fn needs_next_message(msg: u32) -> (res: bool)
        ensures
            res == (msg == WM_KEYDOWN || msg == WM_CHAR),
    {
        msg == WM_KEYDOWN || msg == WM_CHAR
    }

    /// Takes in a keyboard message. `next_msg` is the keyboard message that waits in the
    /// queue of the window, where one waits.
    pub fn handle_message(
        &mut self,
        msg: u32,
        wparam: u64,
        lparam: u64,
        next_msg: Option<u32>,
    ) -> (res: KeyOutcome)
        ensures
            final(self)@ == old(self)@.after(SystemKeyEvent { msg, wparam, lparam }, next_msg),
            res@ == old(self)@.outcome(SystemKeyEvent { msg, wparam, lparam }, next_msg),
    {
        let event = SystemKeyEvent { msg, wparam, lparam };
        let ghost before = self@;
        self.session.push_back(event);

        let char_follows = match next_msg {
            Some(next) => next == WM_CHAR,
            None => false,
        };

        let key: KeyEvent = if msg == WM_KEYDOWN {
            if char_follows {
                return KeyOutcome::Consumed;
            }
            KeyEvent {
                action: if event.was_down() {
                    KeyAction::Repeat
                } else {
                    KeyAction::Down
                },
                character: None,
                logical: Some(event.code()),
                physical: Some(event.scan_code() as u64),
                modifiers: KeyModifiers::empty(),
            }
        } else if msg == WM_CHAR {
            if char_follows {
                return KeyOutcome::Consumed;
            }
            let key_down = match self.session.pop_front() {
                Some(first) => first,
                None => event,
            };
            assert(self.session@ =~= before.session.push(event).skip(1));
            if key_down.msg != WM_KEYDOWN {
                return KeyOutcome::CharWithoutKeyDown;
            }
            let units = self.session_units();
            let chars = decode_utf16(&units);
            KeyEvent {
                action: if key_down.was_down() {
                    KeyAction::Repeat
                } else {
                    KeyAction::Down
                },
                character: Some(smol_str_from_chars(&chars)),
                logical: Some(key_down.code()),
                physical: Some(key_down.scan_code() as u64),
                modifiers: KeyModifiers::empty(),
            }
        } else if msg == WM_KEYUP {
            KeyEvent {
                action: KeyAction::Up,
                character: None,
                logical: Some(event.code()),
                physical: Some(event.scan_code() as u64),
                modifiers: KeyModifiers::empty(),
            }
        } else {
            return KeyOutcome::Unhandled;
        };

        let ghost stroke = before.stroke(event).unwrap();

        let is_pressed = key.action != KeyAction::Up;
        if let Some(logical) = key.logical {
            if let Some(modifier) = modifier_for(logical) {
                self.modifiers.set(modifier, is_pressed);
            }
        }
        self.session.clear();

        if let Some(physical) = key.physical {
            if is_pressed {
                let inserted = self.pressed_keys.insert(physical);
                if key.action == KeyAction::Down && !inserted {
                    return KeyOutcome::Consumed;
                }
            } else {
                if !self.pressed_keys.remove(&physical) {
                    assert(before.pressed.remove(physical) =~= before.pressed);
                    return KeyOutcome::Consumed;
                }
            }
        }
        let modifiers = self.modifiers;
        let res = KeyOutcome::Event(
            KeyEvent {
                action: key.action,
                character: key.character,
                logical: key.logical,
                physical: key.physical,
                modifiers,
            },
        );
        res
    }

    /// The code units of the messages that were gathered.
    fn session_units(&self) -> (res: Vec<u16>)
        ensures
            res@ == units_of(self@.session),
    {
        let mut res: Vec<u16> = Vec::new();
        let mut i: usize = 0;
        while i < self.session.len()
            invariant
                i <= self.session@.len(),
                res@ =~= units_of(self.session@.take(i as int)),
            decreases self.session@.len() - i,
        {
            res.push(self.session[i].unit());
            i += 1;
        }
        assert(self.session@.take(i as int) =~= self.session@);
        res
    }
}

impl Default for Keyboard {
    fn default() -> (res: Keyboard)
        ensures
            res@.modifiers.bits == 0,
            res@.session == Seq::<SystemKeyEvent>::empty(),
            res@.pressed == Set::<u64>::empty(),
    {
        Keyboard::new()
    }
}

/// The queue of the window matters to key-down and character messages alone.
pub proof fn next_message_is_irrelevant(
    keyboard: KeyboardView,
    event: SystemKeyEvent,
    a: Option<u32>,
    b: Option<u32>,
)
    requires
        event.msg != WM_KEYDOWN,
        event.msg != WM_CHAR,
    ensures
        keyboard.after(event, a) == keyboard.after(event, b),
        keyboard.outcome(event, a) == keyboard.outcome(event, b),
{
}

/// A stroke switches the modifier of its key, on when the key goes down and off when it comes
/// up, and no other modifier.
pub proof fn stroke_switches_its_modifier(keyboard: KeyboardView, stroke: Stroke, m: KeyModifier)
    ensures
        keyboard.modifiers_after(stroke).has(m) == (if modifier_of(stroke.code) == Some(m) {
            stroke.action != KeyAction::Up
        } else {
            keyboard.modifiers.has(m)
        }),
{
    if let Some(modifier) = modifier_of(stroke.code) {
        lemma_updated(keyboard.modifiers, modifier, stroke.action != KeyAction::Up);
    }
}

/// Once an event is reported, nothing of the press that led to it is kept.
pub proof fn report_ends_the_session(
    keyboard: KeyboardView,
    event: SystemKeyEvent,
    next: Option<u32>,
)
    requires
        keyboard.outcome(event, next) is Event,
    ensures
        keyboard.after(event, next).session.len() == 0,
{
}

/// The state of a keyboard after a run of messages, each with the message that waited in the
/// queue behind it.
pub open spec fn state_after(
    keyboard: KeyboardView,
    inputs: Seq<(SystemKeyEvent, Option<u32>)>,
) -> KeyboardView
    decreases inputs.len(),
{
    if inputs.len() == 0 {
        keyboard
    } else {
        state_after(keyboard, inputs.drop_last()).after(inputs.last().0, inputs.last().1)
    }
}

/// The events that a keyboard reports over a run of messages, in order.
pub open spec fn reports(
    keyboard: KeyboardView,
    inputs: Seq<(SystemKeyEvent, Option<u32>)>,
) -> Seq<KeyEventView>
    decreases inputs.len(),
{
    if inputs.len() == 0 {
        Seq::empty()
    } else {
        let earlier = reports(keyboard, inputs.drop_last());
        match state_after(keyboard, inputs.drop_last()).outcome(inputs.last().0, inputs.last().1) {
            KeyOutcomeView::Event(event) => earlier.push(event),
            _ => earlier,
        }
    }
}

/// What the last of the events on the key `scan` reports of it.
pub open spec fn last_report(events: Seq<KeyEventView>, scan: u64) -> Option<KeyAction>
    decreases events.len(),
{
    if events.len() == 0 {
        None
    } else if events.last().physical == Some(scan) {
        Some(events.last().action)
    } else {
        last_report(events.drop_last(), scan)
    }
}

/// Whether the events on a key report it as held.
pub open spec fn reported_held(events: Seq<KeyEventView>, scan: u64) -> bool {
    match last_report(events, scan) {
        Some(action) => action != KeyAction::Up,
        None => false,
    }
}

/// The keys that a keyboard takes to be held are those whose last reported event is a press or
/// a repeat, whatever messages arrived.
pub proof fn held_keys_are_the_reported_ones(
    keyboard: KeyboardView,
    inputs: Seq<(SystemKeyEvent, Option<u32>)>,
    scan: u64,
)
    requires
        keyboard.pressed == Set::<u64>::empty(),
    ensures
        state_after(keyboard, inputs).pressed.contains(scan) == reported_held(
            reports(keyboard, inputs),
            scan,
        ),
    decreases inputs.len(),
{
    if inputs.len() > 0 {
        let earlier = reports(keyboard, inputs.drop_last());
        let state = state_after(keyboard, inputs.drop_last());
        held_keys_are_the_reported_ones(keyboard, inputs.drop_last(), scan);
        if let KeyOutcomeView::Event(event) = state.outcome(inputs.last().0, inputs.last().1) {
            assert(earlier.push(event).drop_last() =~= earlier);
        }
    }
}

/// In the events that a keyboard reports, a release follows a press or a repeat of the same
/// key, and a press follows a release of it or nothing.
pub proof fn reports_alternate(
    keyboard: KeyboardView,
    inputs: Seq<(SystemKeyEvent, Option<u32>)>,
    i: int,
)
    requires
        keyboard.pressed == Set::<u64>::empty(),
        0 <= i < reports(keyboard, inputs).len(),
    ensures
        reports(keyboard, inputs)[i].physical is Some,
        reports(keyboard, inputs)[i].action == KeyAction::Up ==> reported_held(
            reports(keyboard, inputs).take(i),
            reports(keyboard, inputs)[i].physical->0,
        ),
        reports(keyboard, inputs)[i].action == KeyAction::Down ==> !reported_held(
            reports(keyboard, inputs).take(i),
            reports(keyboard, inputs)[i].physical->0,
        ),
    decreases inputs.len(),
{
    let earlier = reports(keyboard, inputs.drop_last());
    let all = reports(keyboard, inputs);
    if i < earlier.len() {
        reports_alternate(keyboard, inputs.drop_last(), i);
        assert(all.take(i) =~= earlier.take(i));
    } else {
        assert(all.take(i) =~= earlier);
        held_keys_are_the_reported_ones(keyboard, inputs.drop_last(), all[i].physical->0);
    }
}

/// The scan code in the second parameter of a key message: its bits 16 to 23.
pub open spec fn scan_bits(lparam: u64) -> u64 {
    (lparam >> 16) & 0xff
}

/// The bit that stands for the modifier of a virtual key, or 0 where the key is no modifier: bit 0
/// for either shift key, 1 and 2 for the left and the right one, 3 for either control key, 4 and 5
/// for the left and the right one.
pub open spec fn modifier_mask(vk: u64) -> u32 {
    if vk == 0x10 {
        0x1
    } else if vk == 0xa0 {
        0x2
    } else if vk == 0xa1 {
        0x4
    } else if vk == 0x11 {
        0x8
    } else if vk == 0xa2 {
        0x10
    } else if vk == 0xa3 {
        0x20
    } else {
        0
    }
}

/// Whether `key_down` is the key-down message of the press that a message completes: the message
/// itself, or, where it is a character message, the first message that was gathered. No further
/// character is on its way.
pub open spec fn completes_press(
    before: KeyboardView,
    msg: u32,
    wparam: u64,
    lparam: u64,
    next_msg: Option<u32>,
    key_down: SystemKeyEvent,
) -> bool {
    &&& next_msg != Some(0x102u32)
    &&& key_down.msg == 0x100
    &&& {
        ||| msg == 0x100 && key_down == (SystemKeyEvent { msg, wparam, lparam })
        ||| msg == 0x102 && before.session.len() > 0 && key_down == before.session[0]
    }
}

/// What a completed press is reported as is told by its key-down message alone, whether or not
/// characters followed it. With bit 30 of the second parameter it is always reported, as a repeat.
/// Without that bit it is reported as a press, unless the key is held already. The report names
/// the key by the two parameters, and from then on the key is held.
pub proof fn completed_press_is_reported(
    keyboard: &mut Keyboard,
    msg: u32,
    wparam: u64,
    lparam: u64,
    next_msg: Option<u32>,
    res: KeyOutcome,
    key_down: SystemKeyEvent,
)
    requires
        call_ensures(Keyboard::handle_message, (keyboard, msg, wparam, lparam, next_msg), res),
        completes_press(old(keyboard)@, msg, wparam, lparam, next_msg, key_down),
    ensures
        key_down.lparam & 0x4000_0000 != 0 ==> {
            &&& res is Event
            &&& res->Event_0.action is Repeat
        },
        key_down.lparam & 0x4000_0000 == 0 ==> {
            &&& res is Event <==> !old(keyboard)@.pressed.contains(scan_bits(key_down.lparam))
            &&& res is Event ==> res->Event_0.action is Down
            &&& !(res is Event) ==> res is Consumed
        },
        res is Event ==> {
            &&& res->Event_0.logical == Some(key_down.wparam)
            &&& res->Event_0.physical == Some(scan_bits(key_down.lparam))
            &&& res->Event_0.character is Some <==> msg == 0x102
        },
        final(keyboard)@.pressed == old(keyboard)@.pressed.insert(scan_bits(key_down.lparam)),
        final(keyboard)@.session.len() == 0,
{
    lemma_parameter_bits(key_down.lparam);
    let event = SystemKeyEvent { msg, wparam, lparam };
    if msg == 0x102 {
        assert(old(keyboard)@.session.push(event)[0] == old(keyboard)@.session[0]);
    }
}

/// The text of a completed press is spelled by the low 16 bits of the first parameters of its
/// character messages, in the order in which they came.
pub proof fn text_is_that_of_the_characters(
    keyboard: &mut Keyboard,
    msg: u32,
    wparam: u64,
    lparam: u64,
    next_msg: Option<u32>,
    res: KeyOutcome,
    key_down: SystemKeyEvent,
    units: Seq<u16>,
)
    requires
        call_ensures(Keyboard::handle_message, (keyboard, msg, wparam, lparam, next_msg), res),
        completes_press(old(keyboard)@, msg, wparam, lparam, next_msg, key_down),
        msg == 0x102,
        res is Event,
        units.len() == old(keyboard)@.session.len(),
        forall|i: int|
            0 < i < units.len() ==> #[trigger] units[i - 1] == (old(keyboard)@.session[i].wparam
                & 0xffff),
        units.last() == (wparam & 0xffff),
    ensures
        res->Event_0@.character == Some(utf16_text(units)),
{
    let event = SystemKeyEvent { msg, wparam, lparam };
    let all = old(keyboard)@.session.push(event);
    assert(all[0] == old(keyboard)@.session[0]);
    let spelled = units_of(all.skip(1));
    assert(spelled.len() == units.len());
    assert forall|i: int| 0 <= i < units.len() implies units[i] == spelled[i] by {
        lemma_unit_bits(all[i + 1].wparam);
        if i + 1 < units.len() {
            assert(units[i + 1 - 1] == (old(keyboard)@.session[i + 1].wparam & 0xffff));
        }
    }
    assert(units =~= spelled);
}

/// A release is reported exactly if the key is held, without a text, and then the key is not held
/// any longer.
pub proof fn release_is_reported(
    keyboard: &mut Keyboard,
    wparam: u64,
    lparam: u64,
    next_msg: Option<u32>,
    res: KeyOutcome,
)
    requires
        call_ensures(Keyboard::handle_message, (keyboard, 0x101, wparam, lparam, next_msg), res),
    ensures
        res is Event <==> old(keyboard)@.pressed.contains(scan_bits(lparam)),
        !(res is Event) ==> res is Consumed,
        res is Event ==> {
            &&& res->Event_0.action is Up
            &&& res->Event_0.logical == Some(wparam)
            &&& res->Event_0.physical == Some(scan_bits(lparam))
            &&& res->Event_0.character is None
        },
        final(keyboard)@.pressed == old(keyboard)@.pressed.remove(scan_bits(lparam)),
        final(keyboard)@.session.len() == 0,
{
    lemma_parameter_bits(lparam);
}

/// A press or release of a modifier key switches the bit of that modifier, on as long as the key
/// goes down or repeats and off when it comes up, and no other bit. The event tells the modifiers
/// as they are after that.
pub proof fn modifier_keys_switch_their_bits(
    keyboard: &mut Keyboard,
    msg: u32,
    wparam: u64,
    lparam: u64,
    next_msg: Option<u32>,
    res: KeyOutcome,
    key: SystemKeyEvent,
)
    requires
        call_ensures(Keyboard::handle_message, (keyboard, msg, wparam, lparam, next_msg), res),
        msg == 0x101 && key == (SystemKeyEvent { msg, wparam, lparam }) || completes_press(
            old(keyboard)@,
            msg,
            wparam,
            lparam,
            next_msg,
            key,
        ),
    ensures
        final(keyboard)@.modifiers.bits == (if msg == 0x101 {
            old(keyboard)@.modifiers.bits & !modifier_mask(key.wparam & 0xffff)
        } else {
            old(keyboard)@.modifiers.bits | modifier_mask(key.wparam & 0xffff)
        }),
        res is Event ==> res->Event_0.modifiers == final(keyboard)@.modifiers,
{
    let event = SystemKeyEvent { msg, wparam, lparam };
    if msg == 0x102 {
        assert(old(keyboard)@.session.push(event)[0] == old(keyboard)@.session[0]);
    }
    lemma_unit_bits(key.wparam);
    lemma_modifier_bits(old(keyboard)@.modifiers.bits);
}

/// A key-down or character message behind which a character waits is kept for later, and changes
/// nothing else.
pub proof fn unfinished_press_is_kept(
    keyboard: &mut Keyboard,
    msg: u32,
    wparam: u64,
    lparam: u64,
    res: KeyOutcome,
)
    requires
        call_ensures(
            Keyboard::handle_message,
            (keyboard, msg, wparam, lparam, Some(0x102u32)),
            res,
        ),
        msg == 0x100 || msg == 0x102,
    ensures
        res is Consumed,
        final(keyboard)@.modifiers == old(keyboard)@.modifiers,
        final(keyboard)@.pressed == old(keyboard)@.pressed,
        final(keyboard)@.session == old(keyboard)@.session + seq![
            SystemKeyEvent { msg, wparam, lparam },
        ],
{
    assert(old(keyboard)@.session.push(SystemKeyEvent { msg, wparam, lparam }) =~= old(
        keyboard,
    )@.session + seq![SystemKeyEvent { msg, wparam, lparam }]);
}

/// A message that is neither a key going down or up nor a character is left to the system, and a
/// character for which no key went down is an error. Neither changes the held keys or the
/// modifiers.
pub proof fn other_messages_change_no_key(
    keyboard: &mut Keyboard,
    msg: u32,
    wparam: u64,
    lparam: u64,
    next_msg: Option<u32>,
    res: KeyOutcome,
)
    requires
        call_ensures(Keyboard::handle_message, (keyboard, msg, wparam, lparam, next_msg), res),
        msg != 0x100,
        msg != 0x101,
        msg == 0x102 ==> next_msg != Some(0x102u32) && (old(keyboard)@.session.len() > 0 ==> old(
            keyboard,
        )@.session[0].msg != 0x100),
    ensures
        msg == 0x102 ==> res is CharWithoutKeyDown,
        msg != 0x102 ==> res is Unhandled,
        final(keyboard)@.modifiers == old(keyboard)@.modifiers,
        final(keyboard)@.pressed == old(keyboard)@.pressed,
        final(keyboard)@.session == (if msg == 0x102 {
            (old(keyboard)@.session + seq![SystemKeyEvent { msg, wparam, lparam }]).skip(1)
        } else {
            old(keyboard)@.session + seq![SystemKeyEvent { msg, wparam, lparam }]
        }),
{
    let event = SystemKeyEvent { msg, wparam, lparam };
    assert(old(keyboard)@.session.push(event) =~= old(keyboard)@.session + seq![event]);
    if old(keyboard)@.session.len() > 0 {
        assert(old(keyboard)@.session.push(event)[0] == old(keyboard)@.session[0]);
    }
}

/// The queue of the window is looked at for key-down and character messages, and for no others.
pub proof fn queue_is_looked_at(msg: u32, res: bool)
    requires
        call_ensures(Keyboard::needs_next_message, (msg,), res),
    ensures
        res <==> msg == 0x100 || msg == 0x102,
{
}

proof fn lemma_parameter_bits(lparam: u64)
    ensures
        (lparam & 0x4000_0000 != 0) == ((lparam / 0x4000_0000) % 2 == 1),
        scan_bits(lparam) == (lparam / 0x1_0000) % 0x100,
{
    assert((lparam & 0x4000_0000 != 0) == ((lparam / 0x4000_0000) % 2 == 1)) by (bit_vector);
    assert((lparam >> 16) & 0xff == (lparam / 0x1_0000) % 0x100) by (bit_vector);
}

proof fn lemma_unit_bits(wparam: u64)
    ensures
        wparam & 0xffff == wparam % 0x1_0000,
{
    assert(wparam & 0xffff == wparam % 0x1_0000) by (bit_vector);
}

proof fn lemma_modifier_bits(bits: u32)
    by (bit_vector)
    ensures
        1u32 << 0 == 0x1,
        1u32 << 1 == 0x2,
        1u32 << 2 == 0x4,
        1u32 << 3 == 0x8,
        1u32 << 4 == 0x10,
        1u32 << 5 == 0x20,
        bits | 0 == bits,
        bits & !0u32 == bits,
{
}

/// A key message has the virtual key code in its first parameter, and in the second the scan code in
/// the bits 16 to 23 and in bit 30 whether the key was down before.
pub proof fn message_parameters_are_read(
    message: SystemKeyEvent,
    code: u64,
    scan_code: u8,
    was_down: bool,
)
    requires
        call_ensures(SystemKeyEvent::code, (&message,), code),
        call_ensures(SystemKeyEvent::scan_code, (&message,), scan_code),
        call_ensures(SystemKeyEvent::was_down, (&message,), was_down),
    ensures
        code == message.wparam,
        scan_code == (message.lparam >> 16) & 0xff,
        was_down <==> message.lparam & 0x4000_0000 != 0,
{
    lemma_parameter_bits(message.lparam);
}

} // verus!
