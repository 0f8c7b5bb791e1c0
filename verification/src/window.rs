//! The window that receives input: what each window message does to it, and what it reports.
//!
//! A message is handled in two steps. [`Window::query`] says which fact about the system the
//! message needs, the caller finds it out, and [`Window::wnd_proc`] takes the message with the
//! answer and says what is to be done, in order.
use crate::events::{
    KeyEvent, KeyEventView, MouseAction, MouseEvent, Scroll, TouchAction, TouchEvent,
};
use crate::flags::{lemma_button_bits, lemma_held_buttons, MouseButton, MouseButtons};
use crate::key_messages::{
    KeyOutcome, KeyOutcomeView, Keyboard, KeyboardView, SystemKeyEvent, WM_CHAR, WM_DEADCHAR,
    WM_KEYDOWN, WM_KEYUP,
};
use vstd::prelude::*;

verus! {

/// The window is being created.
pub const WM_CREATE: u32 = 0x1;

/// The client area has a new size.
pub const WM_SIZE: u32 = 0x5;

/// The user wants to close the window.
pub const WM_CLOSE: u32 = 0x10;

/// The pointer moved over the window and its shape may be set.
pub const WM_SETCURSOR: u32 = 0x20;

/// The first message of a window.
pub const WM_NCCREATE: u32 = 0x81;

/// The last message of a window.
pub const WM_NCDESTROY: u32 = 0x82;

/// The pointer moved.
pub const WM_MOUSEMOVE: u32 = 0x200;

/// The left button went down.
pub const WM_LBUTTONDOWN: u32 = 0x201;

/// The left button came up.
pub const WM_LBUTTONUP: u32 = 0x202;

/// The right button went down.
pub const WM_RBUTTONDOWN: u32 = 0x204;

/// The right button came up.
pub const WM_RBUTTONUP: u32 = 0x205;

/// The middle button went down.
pub const WM_MBUTTONDOWN: u32 = 0x207;

/// The middle button came up.
pub const WM_MBUTTONUP: u32 = 0x208;

/// The wheel was turned.
pub const WM_MOUSEWHEEL: u32 = 0x20A;

/// An extra button went down.
pub const WM_XBUTTONDOWN: u32 = 0x20B;

/// An extra button came up.
pub const WM_XBUTTONUP: u32 = 0x20C;

/// The horizontal wheel was turned.
pub const WM_MOUSEHWHEEL: u32 = 0x20E;

/// Touch points changed.
pub const WM_TOUCH: u32 = 0x240;

/// The pointer left the window.
pub const WM_MOUSELEAVE: u32 = 0x2A3;

/// The resolution of the window is about to change.
pub const WM_DPICHANGED_BEFOREPARENT: u32 = 0x2E2;

/// The pointer is over the client area.
pub const HTCLIENT: u64 = 1;

/// The first of the extra buttons.
pub const XBUTTON1: u64 = 1;

/// The second of the extra buttons.
pub const XBUTTON2: u64 = 2;

/// The resolution at which a pixel of the screen is a pixel of the layout.
pub const DPI_BASE: u32 = 96;

/// The low 16 bits of a message parameter.
pub open spec fn low_word(param: u64) -> int {
    param as int % 0x1_0000
}

/// The 16 bits above the low 16 bits of a message parameter.
pub open spec fn high_word(param: u64) -> int {
    (param as int / 0x1_0000) % 0x1_0000
}

/// The 16 bits above the low 16 bits, as a number with a sign.
pub open spec fn signed_high_word(param: u64) -> int {
    if high_word(param) < 0x8000 {
        high_word(param)
    } else {
        high_word(param) - 0x1_0000
    }
}

fn loword(param: u64) -> (res: u16)
    ensures
        res == low_word(param),
{
    (param % 0x1_0000) as u16
}

fn hiword(param: u64) -> (res: u16)
    ensures
        res == high_word(param),
{
    ((param / 0x1_0000) % 0x1_0000) as u16
}

fn signed_hiword(param: u64) -> (res: i16)
    ensures
        res == signed_high_word(param),
{
    let word: u16 = hiword(param);
    if word < 0x8000 {
        word as i16
    } else {
        (word as i32 - 0x1_0000) as i16
    }
}

/// Whether a mouse message comes from a mouse, given the extra information of the message. A
/// message that the system made up for a touch or a pen carries a signature there, in the
/// bits 8 to 31.
pub open spec fn from_mouse(extra_info: u64) -> bool {
    (extra_info / 0x100) % 0x100_0000 != 0xFF5157
}

/// Whether a mouse message comes from a mouse, given the extra information of the message.
pub fn is_mouse_event(extra_info: u64) -> (res: bool)
    ensures
        res == from_mouse(extra_info),
{
    assert((extra_info & 0xFFFF_FF00 != 0xFF51_5700) == ((extra_info / 0x100) % 0x100_0000
        != 0xFF5157)) by (bit_vector);
    extra_info & 0xFFFF_FF00 != 0xFF51_5700
}

/// Whether the message belongs to the pointer and may have been made up for a touch or a pen.
pub open spec fn is_pointer_message(msg: u32) -> bool {
    msg == WM_MOUSEMOVE || msg == WM_MOUSELEAVE || is_button_down(msg) || is_button_up(msg)
}

/// A button went down.
pub open spec fn is_button_down(msg: u32) -> bool {
    msg == WM_LBUTTONDOWN || msg == WM_RBUTTONDOWN || msg == WM_MBUTTONDOWN || msg
        == WM_XBUTTONDOWN
}

/// A button came up.
pub open spec fn is_button_up(msg: u32) -> bool {
    msg == WM_LBUTTONUP || msg == WM_RBUTTONUP || msg == WM_MBUTTONUP || msg == WM_XBUTTONUP
}

/// The button that a button message is about.
pub open spec fn button_of(msg: u32, wparam: u64) -> Option<MouseButton> {
    if msg == WM_LBUTTONDOWN || msg == WM_LBUTTONUP {
        Some(MouseButton::Left)
    } else if msg == WM_RBUTTONDOWN || msg == WM_RBUTTONUP {
        Some(MouseButton::Right)
    } else if msg == WM_MBUTTONDOWN || msg == WM_MBUTTONUP {
        Some(MouseButton::Middle)
    } else if (msg == WM_XBUTTONDOWN || msg == WM_XBUTTONUP) && high_word(wparam) == XBUTTON1 {
        Some(MouseButton::X1)
    } else if (msg == WM_XBUTTONDOWN || msg == WM_XBUTTONUP) && high_word(wparam) == XBUTTON2 {
        Some(MouseButton::X2)
    } else {
        None
    }
}

/// The button that a button message is about.
pub fn mouse_button(msg: u32, wparam: u64) -> (res: Option<MouseButton>)
    ensures
        res == button_of(msg, wparam),
{
    if msg == WM_LBUTTONDOWN || msg == WM_LBUTTONUP {
        Some(MouseButton::Left)
    } else if msg == WM_RBUTTONDOWN || msg == WM_RBUTTONUP {
        Some(MouseButton::Right)
    } else if msg == WM_MBUTTONDOWN || msg == WM_MBUTTONUP {
        Some(MouseButton::Middle)
    } else if msg == WM_XBUTTONDOWN || msg == WM_XBUTTONUP {
        let which: u64 = hiword(wparam) as u64;
        if which == XBUTTON1 {
            Some(MouseButton::X1)
        } else if which == XBUTTON2 {
            Some(MouseButton::X2)
        } else {
            None
        }
    } else {
        None
    }
}

/// Where a message of the window procedure goes.
#[derive(Clone, Copy, Debug, PartialEq, Eq, Structural)]
pub enum Route {
    /// The data of the window is to be attached to it, and the window registered for touch.
    /// The result of the message is 1.
    Attach,
    /// The message is left to the system.
    System,
    /// The data of the window is to be released, and the message left to the system.
    Release,
    /// The message is for [`Window::wnd_proc`].
    Window,
}

/// Where a message goes, `has_data` telling whether the data of the window is attached.
pub fn route(msg: u32, has_data: bool) -> (res: Route)
    ensures
        res == (if msg == WM_NCCREATE {
            Route::Attach
        } else if !has_data {
            Route::System
        } else if msg == WM_NCDESTROY {
            Route::Release
        } else {
            Route::Window
        }),
{
    if msg == WM_NCCREATE {
        Route::Attach
    } else if !has_data {
        Route::System
    } else if msg == WM_NCDESTROY {
        Route::Release
    } else {
        Route::Window
    }
}

/// The fact about the system that a message needs.
#[derive(Clone, Copy, Debug, PartialEq, Eq, Structural)]
pub enum Query {
    Nothing,
    /// The extra information of the message.
    ExtraInfo,
    /// The resolution of the window.
    Dpi,
    /// The pointer position and the scroll setting.
    Wheel,
    /// So many touch points.
    Touches(u16),
    /// The keyboard message that waits in the queue.
    NextKeyMessage,
}

/// The pointer position in client coordinates, and the lines that a notch scrolls.
#[derive(Clone, Copy, Debug, PartialEq, Eq, Structural)]
pub struct WheelFacts {
    pub x: i32,
    pub y: i32,
    pub lines: u32,
}

/// A touch point as the system describes it, in hundredths of a pixel of the screen.
#[derive(Clone, Copy, Debug, PartialEq, Eq, Structural)]
pub struct TouchInput {
    pub id: u32,
    pub x: i32,
    pub y: i32,
    pub flags: u32,
}

/// The answer to a [`Query`]. `None` stands for a system call that failed.
#[derive(Debug)]
pub enum Answer {
    Nothing,
    ExtraInfo(u64),
    Dpi(u32),
    Wheel(Option<WheelFacts>),
    Touches(Option<Vec<TouchInput>>),
    NextKeyMessage(Option<u32>),
}

impl Answer {
    /// Whether this answers the query.
    pub open spec fn fits(self, query: Query) -> bool {
        match query {
            Query::Nothing => self is Nothing,
            Query::ExtraInfo => self is ExtraInfo,
            Query::Dpi => self is Dpi,
            Query::Wheel => self is Wheel,
            Query::Touches(_) => self is Touches,
            Query::NextKeyMessage => self is NextKeyMessage,
        }
    }
}

/// Something that the caller does for the window.
#[derive(Clone, Copy, Debug, PartialEq, Eq, Structural)]
pub enum WindowAction {
    /// Tell the handler that the user wants to close the window.
    Close,
    /// Tell the handler the size and the resolution.
    Resize { width: u32, height: u32, dpi: u32 },
    /// Give the pointer this shape, or hide it.
    SetCursor(Option<u64>),
    /// Ask the system for a message when the pointer leaves.
    TrackMouseLeave,
    /// Direct the mouse to this window.
    SetCapture,
    /// Let the mouse go.
    ReleaseCapture,
    /// Tell the handler an event of the mouse.
    Mouse(MouseEvent),
    /// Tell the handler an event of a touch point, its place converted to client coordinates.
    Touch(TouchEvent),
    /// Close the touch input of the message.
    CloseTouchInput,
    /// Report a character that came without a key.
    ReportKeyError,
}

/// What a message leads to.
#[derive(Debug)]
pub struct Reaction {
    /// To be done in this order.
    pub actions: Vec<WindowAction>,
    /// To be told to the handler.
    pub key_event: Option<KeyEvent>,
    /// The result of the message. Without one, the system handles the message.
    pub result: Option<i64>,
}

/// The model of a [`Reaction`].
#[verifier::ext_equal]
pub struct ReactionView {
    pub actions: Seq<WindowAction>,
    pub key_event: Option<KeyEventView>,
    pub result: Option<i64>,
}

impl View for Reaction {
    type V = ReactionView;

    open spec fn view(&self) -> ReactionView {
        ReactionView {
            actions: self.actions@,
            key_event: match self.key_event {
                Some(event) => Some(event@),
                None => None,
            },
            result: self.result,
        }
    }
}

/// A reaction without a key event.
pub open spec fn reaction(actions: Seq<WindowAction>, result: Option<i64>) -> ReactionView {
    ReactionView { actions, key_event: None, result }
}

/// What the flags of a touch point say it did. A point that goes down comes before one that
/// comes up, and that before one that moves.
pub open spec fn touch_action_of(flags: u32) -> Option<TouchAction> {
    if (flags / 2) % 2 == 1 {
        Some(TouchAction::Down)
    } else if (flags / 4) % 2 == 1 {
        Some(TouchAction::Up)
    } else if flags % 2 == 1 {
        Some(TouchAction::Move)
    } else {
        None
    }
}

/// What the flags of a touch point say it did.
pub fn touch_action(flags: u32) -> (res: Option<TouchAction>)
    ensures
        res == touch_action_of(flags),
{
    if (flags / 2) % 2 == 1 {
        Some(TouchAction::Down)
    } else if (flags / 4) % 2 == 1 {
        Some(TouchAction::Up)
    } else if flags % 2 == 1 {
        Some(TouchAction::Move)
    } else {
        None
    }
}

/// The whole pixels in a number of hundredths of a pixel, rounded towards zero.
pub open spec fn whole_pixels(hundredths: int) -> int {
    if hundredths >= 0 {
        hundredths / 100
    } else {
        -((-hundredths) / 100)
    }
}

fn pixels(hundredths: i32) -> (res: i32)
    ensures
        res == whole_pixels(hundredths as int),
{
    if hundredths >= 0 {
        (hundredths as u32 / 100) as i32
    } else {
        let magnitude: u64 = (-(hundredths as i64)) as u64;
        (-((magnitude / 100) as i64)) as i32
    }
}

/// The events of the touch points up to the first one whose flags say nothing of it.
pub open spec fn touch_events(inputs: Seq<TouchInput>) -> Seq<WindowAction>
    decreases inputs.len(),
{
    if inputs.len() == 0 {
        Seq::empty()
    } else {
        match touch_action_of(inputs[0].flags) {
            Some(action) => seq![
                WindowAction::Touch(
                    TouchEvent {
                        action,
                        touch_id: inputs[0].id,
                        x: whole_pixels(inputs[0].x as int) as i32,
                        y: whole_pixels(inputs[0].y as int) as i32,
                    },
                ),
            ] + touch_events(inputs.skip(1)),
            None => Seq::empty(),
        }
    }
}

/// Whether the flags of every touch point say what it did.
pub open spec fn all_touches_known(inputs: Seq<TouchInput>) -> bool {
    forall|i: int| 0 <= i < inputs.len() ==> touch_action_of(#[trigger] inputs[i].flags) is Some
}

/// What the touch points of a message lead to. The touch input is left open where the flags of
/// a point say nothing of it.
pub open spec fn touch_actions(inputs: Option<Seq<TouchInput>>) -> Seq<WindowAction> {
    match inputs {
        Some(inputs) => if all_touches_known(inputs) {
            touch_events(inputs).push(WindowAction::CloseTouchInput)
        } else {
            touch_events(inputs)
        },
        None => seq![WindowAction::CloseTouchInput],
    }
}

/// The state of a [`Window`].
#[verifier::ext_equal]
pub struct WindowView {
    pub width: u32,
    pub height: u32,
    pub dpi: u32,
    /// Whether the system was asked for a message when the pointer leaves.
    pub is_tracking: bool,
    /// The shape of the pointer. It is hidden without one.
    pub cursor: Option<u64>,
    /// Where the pointer was last seen.
    pub x: i32,
    pub y: i32,
    pub buttons: MouseButtons,
    pub keyboard: KeyboardView,
}

impl WindowView {
    /// The event of the mouse at the place where the pointer was last seen.
    pub open spec fn mouse(self, action: MouseAction) -> WindowAction {
        WindowAction::Mouse(
            MouseEvent { action, x: self.x, y: self.y, buttons: self.buttons, scroll: None },
        )
    }

    /// The message to the handler about the size of the window.
    pub open spec fn resize(self) -> WindowAction {
        WindowAction::Resize { width: self.width, height: self.height, dpi: self.dpi }
    }

    /// The window with the pointer at the place that the message parameter gives.
    pub open spec fn pointer_at(self, lparam: u64) -> WindowView {
        WindowView { x: low_word(lparam) as i32, y: high_word(lparam) as i32, ..self }
    }

    /// The pointer moved. The first movement over the window is also its entry.
    pub open spec fn on_mouse_move(self, lparam: u64) -> (WindowView, ReactionView) {
        let moved = self.pointer_at(lparam);
        let actions = if self.is_tracking {
            seq![moved.mouse(MouseAction::Move)]
        } else {
            seq![
                WindowAction::TrackMouseLeave,
                moved.mouse(MouseAction::Enter),
                moved.mouse(MouseAction::Move),
            ]
        };
        (WindowView { is_tracking: true, ..moved }, reaction(actions, Some(0)))
    }

    /// A button went down. The left one captures the mouse.
    pub open spec fn on_button_down(self, msg: u32, wparam: u64, lparam: u64) -> (
        WindowView,
        ReactionView,
    ) {
        let moved = self.pointer_at(lparam);
        let bit = 1u8 << button_of(msg, wparam)->0.spec_index();
        let after = WindowView { buttons: MouseButtons { bits: self.buttons.bits | bit }, ..moved };
        let actions = if msg == WM_LBUTTONDOWN {
            seq![WindowAction::SetCapture, after.mouse(MouseAction::Down)]
        } else {
            seq![after.mouse(MouseAction::Down)]
        };
        (after, reaction(actions, Some(0)))
    }

    /// A button came up. The left one lets the mouse go.
    pub open spec fn on_button_up(self, msg: u32, wparam: u64, lparam: u64) -> (
        WindowView,
        ReactionView,
    ) {
        let moved = self.pointer_at(lparam);
        let bit = 1u8 << button_of(msg, wparam)->0.spec_index();
        let after = WindowView { buttons: MouseButtons { bits: self.buttons.bits & !bit }, ..moved };
        let actions = if msg == WM_LBUTTONUP {
            seq![WindowAction::ReleaseCapture, after.mouse(MouseAction::Up)]
        } else {
            seq![after.mouse(MouseAction::Up)]
        };
        (after, reaction(actions, Some(0)))
    }

    /// A wheel was turned. Nothing is reported where the facts could not be found out.
    pub open spec fn on_wheel(self, msg: u32, wparam: u64, facts: Option<WheelFacts>) -> (
        WindowView,
        ReactionView,
    ) {
        match facts {
            Some(facts) => {
                let after = WindowView { x: facts.x, y: facts.y, ..self };
                let units = signed_high_word(wparam) as i16;
                let scroll = if msg == WM_MOUSEHWHEEL {
                    Scroll { units_x: units, units_y: 0, lines: facts.lines }
                } else {
                    Scroll { units_x: 0, units_y: units, lines: facts.lines }
                };
                let event = MouseEvent {
                    action: MouseAction::Scroll,
                    x: facts.x,
                    y: facts.y,
                    buttons: self.buttons,
                    scroll: Some(scroll),
                };
                (after, reaction(seq![WindowAction::Mouse(event)], Some(0)))
            },
            None => (self, reaction(seq![], Some(0))),
        }
    }

    /// A keyboard message.
    pub open spec fn on_key(self, msg: u32, wparam: u64, lparam: u64, next: Option<u32>) -> (
        WindowView,
        ReactionView,
    ) {
        let event = SystemKeyEvent { msg, wparam, lparam };
        let after = WindowView { keyboard: self.keyboard.after(event, next), ..self };
        match self.keyboard.outcome(event, next) {
            KeyOutcomeView::Event(key) => (
                after,
                ReactionView { actions: seq![], key_event: Some(key), result: Some(0) },
            ),
            KeyOutcomeView::Consumed => (after, reaction(seq![], Some(0))),
            KeyOutcomeView::CharWithoutKeyDown => (
                after,
                reaction(seq![WindowAction::ReportKeyError], None),
            ),
            KeyOutcomeView::Unhandled => (after, reaction(seq![], None)),
        }
    }

    /// What a message does to the window, and what it leads to.
    pub open spec fn step(self, msg: u32, wparam: u64, lparam: u64, answer: Answer) -> (
        WindowView,
        ReactionView,
    ) {
        let ignored = (self, reaction(seq![], None));
        match answer {
            Answer::ExtraInfo(info) => if !from_mouse(info) {
                ignored
            } else if msg == WM_MOUSEMOVE {
                self.on_mouse_move(lparam)
            } else if msg == WM_MOUSELEAVE {
                (
                    WindowView { is_tracking: false, ..self },
                    reaction(seq![self.mouse(MouseAction::Exit)], Some(0)),
                )
            } else if is_button_down(msg) {
                self.on_button_down(msg, wparam, lparam)
            } else {
                self.on_button_up(msg, wparam, lparam)
            },
            Answer::Dpi(dpi) => {
                let after = WindowView { dpi, ..self };
                (after, reaction(seq![after.resize()], Some(0)))
            },
            Answer::Wheel(facts) => self.on_wheel(msg, wparam, facts),
            Answer::Touches(inputs) => {
                let inputs = match inputs {
                    Some(inputs) => Some(inputs@),
                    None => None,
                };
                (self, reaction(touch_actions(inputs), Some(0)))
            },
            Answer::NextKeyMessage(next) => self.on_key(msg, wparam, lparam, next),
            Answer::Nothing => if msg == WM_CLOSE {
                (self, reaction(seq![WindowAction::Close], Some(0)))
            } else if msg == WM_SIZE {
                let after = WindowView {
                    width: low_word(lparam) as u32,
                    height: high_word(lparam) as u32,
                    ..self
                };
                (after, reaction(seq![after.resize()], Some(0)))
            } else if msg == WM_SETCURSOR && low_word(lparam) == HTCLIENT {
                (self, reaction(seq![WindowAction::SetCursor(self.cursor)], Some(1)))
            } else if msg == WM_KEYUP || msg == WM_DEADCHAR {
                self.on_key(msg, wparam, lparam, None)
            } else {
                ignored
            },
        }
    }
}

/// The fact about the system that a message needs.
pub open spec fn query_of(msg: u32, wparam: u64) -> Query {
    if is_pointer_message(msg) {
        Query::ExtraInfo
    } else if msg == WM_CREATE || msg == WM_DPICHANGED_BEFOREPARENT {
        Query::Dpi
    } else if msg == WM_MOUSEWHEEL || msg == WM_MOUSEHWHEEL {
        Query::Wheel
    } else if msg == WM_TOUCH {
        Query::Touches(low_word(wparam) as u16)
    } else if msg == WM_KEYDOWN || msg == WM_CHAR {
        Query::NextKeyMessage
    } else {
        Query::Nothing
    }
}

/// A window that receives input.
pub struct Window {
    width: u32,
    height: u32,
    dpi: u32,
    is_tracking_mouse_leave: bool,
    cursor: Option<u64>,
    x: i32,
    y: i32,
    mouse_buttons: MouseButtons,
    keyboard: Keyboard,
}

impl View for Window {
    type V = WindowView;

    closed spec fn view(&self) -> WindowView {
        WindowView {
            width: self.width,
            height: self.height,
            dpi: self.dpi,
            is_tracking: self.is_tracking_mouse_leave,
            cursor: self.cursor,
            x: self.x,
            y: self.y,
            buttons: self.mouse_buttons,
            keyboard: self.keyboard@,
        }
    }
}

impl Window {
    /// A window of this size, with this pointer shape.
    pub fn new(width: u32, height: u32, cursor: Option<u64>) -> (res: Window)
        ensures
            res@.width == width,
            res@.height == height,
            res@.dpi == DPI_BASE,
            !res@.is_tracking,
            res@.cursor == cursor,
            res@.x == 0,
            res@.y == 0,
            res@.buttons.bits == 0,
            res@.keyboard.modifiers.bits == 0,
            res@.keyboard.session == Seq::<SystemKeyEvent>::empty(),
            res@.keyboard.pressed == Set::<u64>::empty(),
    {
        Window {
            width,
            height,
            dpi: DPI_BASE,
            is_tracking_mouse_leave: false,
            cursor,
            x: 0,
            y: 0,
            mouse_buttons: MouseButtons::empty(),
            keyboard: Keyboard::new(),
        }
    }

    /// Gives the pointer another shape, or hides it. The action shows it at once.
    pub fn set_cursor(&mut self, cursor: Option<u64>) -> (res: WindowAction)
        ensures
            final(self)@ == (WindowView { cursor, ..old(self)@ }),
            res == WindowAction::SetCursor(cursor),
    {
        self.cursor = cursor;
        WindowAction::SetCursor(cursor)
    }

    /// The fact about the system that a message needs.
    pub fn query(msg: u32, wparam: u64) -> (res: Query)
        ensures
            res == query_of(msg, wparam),
    {
        if msg == WM_MOUSEMOVE || msg == WM_MOUSELEAVE || msg == WM_LBUTTONDOWN || msg
            == WM_RBUTTONDOWN || msg == WM_MBUTTONDOWN || msg == WM_XBUTTONDOWN || msg
            == WM_LBUTTONUP || msg == WM_RBUTTONUP || msg == WM_MBUTTONUP || msg == WM_XBUTTONUP {
            Query::ExtraInfo
        } else if msg == WM_CREATE || msg == WM_DPICHANGED_BEFOREPARENT {
            Query::Dpi
        } else if msg == WM_MOUSEWHEEL || msg == WM_MOUSEHWHEEL {
            Query::Wheel
        } else if msg == WM_TOUCH {
            Query::Touches(loword(wparam))
        } else if Keyboard::needs_next_message(msg) {
            Query::NextKeyMessage
        } else {
            Query::Nothing
        }
    }

    /// Whether a message can be taken in with this answer: it is one to the query of the message,
    /// and a button message that comes from a mouse names a button.
    pub fn accepts(msg: u32, wparam: u64, answer: &Answer) -> (res: bool)
        ensures
            res == (answer.fits(query_of(msg, wparam)) && ((is_button_down(msg) || is_button_up(
                msg,
            )) && from_mouse(answer->ExtraInfo_0) ==> button_of(msg, wparam) is Some)),
    {
        match (Window::query(msg, wparam), answer) {
            (Query::ExtraInfo, Answer::ExtraInfo(info)) => {
                msg == WM_MOUSEMOVE || msg == WM_MOUSELEAVE || !is_mouse_event(*info)
                    || mouse_button(msg, wparam).is_some()
            },
            (Query::Nothing, Answer::Nothing) => true,
            (Query::Dpi, Answer::Dpi(_)) => true,
            (Query::Wheel, Answer::Wheel(_)) => true,
            (Query::Touches(_), Answer::Touches(_)) => true,
            (Query::NextKeyMessage, Answer::NextKeyMessage(_)) => true,
            _ => false,
        }
    }

    /// Takes in a message, with the answer to its query.
    pub fn wnd_proc(&mut self, msg: u32, wparam: u64, lparam: u64, answer: Answer) -> (res:
        Reaction)
        requires
            answer.fits(query_of(msg, wparam)),
            // A button message that comes from a mouse names a button.
            (is_button_down(msg) || is_button_up(msg)) && from_mouse(answer->ExtraInfo_0)
                ==> button_of(msg, wparam) is Some,
        ensures
            (final(self)@, res@) == old(self)@.step(msg, wparam, lparam, answer),
    {
        match answer {
            Answer::ExtraInfo(info) => {
                if !is_mouse_event(info) {
                    return unhandled();
                }
                if msg == WM_MOUSEMOVE {
                    self.on_mouse_move(lparam)
                } else if msg == WM_MOUSELEAVE {
                    let event = self.mouse_event(MouseAction::Exit);
                    self.is_tracking_mouse_leave = false;
                    handled(vec![WindowAction::Mouse(event)])
                } else {
                    self.on_button(msg, wparam, lparam)
                }
            },
            Answer::Dpi(dpi) => {
                self.dpi = dpi;
                handled(vec![self.resize_action()])
            },
            Answer::Wheel(facts) => self.on_mouse_scroll(msg, wparam, facts),
            Answer::Touches(inputs) => on_touch(inputs),
            Answer::NextKeyMessage(next) => self.on_key(msg, wparam, lparam, next),
            Answer::Nothing => {
                if msg == WM_CLOSE {
                    handled(vec![WindowAction::Close])
                } else if msg == WM_SIZE {
                    self.width = loword(lparam) as u32;
                    self.height = hiword(lparam) as u32;
                    handled(vec![self.resize_action()])
                } else if msg == WM_SETCURSOR && loword(lparam) as u64 == HTCLIENT {
                    let actions: Vec<WindowAction> = vec![WindowAction::SetCursor(self.cursor)];
                    Reaction { actions, key_event: None, result: Some(1) }
                } else if msg == WM_KEYUP || msg == WM_DEADCHAR {
                    self.on_key(msg, wparam, lparam, None)
                } else {
                    unhandled()
                }
            },
        }
    }

    fn mouse_event(&self, action: MouseAction) -> (res: MouseEvent)
        ensures
            WindowAction::Mouse(res) == self@.mouse(action),
    {
        MouseEvent { action, x: self.x, y: self.y, buttons: self.mouse_buttons, scroll: None }
    }

    fn resize_action(&self) -> (res: WindowAction)
        ensures
            res == self@.resize(),
    {
        WindowAction::Resize { width: self.width, height: self.height, dpi: self.dpi }
    }

    fn on_mouse_move(&mut self, lparam: u64) -> (res: Reaction)
        ensures
            (final(self)@, res@) == old(self)@.on_mouse_move(lparam),
    {
        self.x = loword(lparam) as i32;
        self.y = hiword(lparam) as i32;
        let moved = self.mouse_event(MouseAction::Move);
        if self.is_tracking_mouse_leave {
            handled(vec![WindowAction::Mouse(moved)])
        } else {
            let entered = self.mouse_event(MouseAction::Enter);
            self.is_tracking_mouse_leave = true;
            handled(
                vec![
                    WindowAction::TrackMouseLeave,
                    WindowAction::Mouse(entered),
                    WindowAction::Mouse(moved),
                ],
            )
        }
    }

    fn on_button(&mut self, msg: u32, wparam: u64, lparam: u64) -> (res: Reaction)
        requires
            is_button_down(msg) || is_button_up(msg),
            button_of(msg, wparam) is Some,
        ensures
            is_button_down(msg) ==> (final(self)@, res@) == old(self)@.on_button_down(
                msg,
                wparam,
                lparam,
            ),
            is_button_up(msg) ==> (final(self)@, res@) == old(self)@.on_button_up(
                msg,
                wparam,
                lparam,
            ),
    {
        let is_down = msg == WM_LBUTTONDOWN || msg == WM_RBUTTONDOWN || msg == WM_MBUTTONDOWN
            || msg == WM_XBUTTONDOWN;
        self.x = loword(lparam) as i32;
        self.y = hiword(lparam) as i32;
        if let Some(button) = mouse_button(msg, wparam) {
            self.mouse_buttons = if is_down {
                self.mouse_buttons.with(button)
            } else {
                self.mouse_buttons.without(button)
            };
        }
        let event = self.mouse_event(
            if is_down {
                MouseAction::Down
            } else {
                MouseAction::Up
            },
        );
        if msg == WM_LBUTTONDOWN {
            handled(vec![WindowAction::SetCapture, WindowAction::Mouse(event)])
        } else if msg == WM_LBUTTONUP {
            handled(vec![WindowAction::ReleaseCapture, WindowAction::Mouse(event)])
        } else {
            handled(vec![WindowAction::Mouse(event)])
        }
    }

    fn on_mouse_scroll(&mut self, msg: u32, wparam: u64, facts: Option<WheelFacts>) -> (res:
        Reaction)
        requires
            msg == WM_MOUSEWHEEL || msg == WM_MOUSEHWHEEL,
        ensures
            (final(self)@, res@) == old(self)@.on_wheel(msg, wparam, facts),
    {
        match facts {
            Some(facts) => {
                let units: i16 = signed_hiword(wparam);
                self.x = facts.x;
                self.y = facts.y;
                let scroll = if msg == WM_MOUSEHWHEEL {
                    Scroll { units_x: units, units_y: 0, lines: facts.lines }
                } else {
                    Scroll { units_x: 0, units_y: units, lines: facts.lines }
                };
                let event = MouseEvent {
                    action: MouseAction::Scroll,
                    x: self.x,
                    y: self.y,
                    buttons: self.mouse_buttons,
                    scroll: Some(scroll),
                };
                handled(vec![WindowAction::Mouse(event)])
            },
            None => handled(Vec::new()),
        }
    }

    fn on_key(&mut self, msg: u32, wparam: u64, lparam: u64, next: Option<u32>) -> (res: Reaction)
        ensures
            (final(self)@, res@) == old(self)@.on_key(msg, wparam, lparam, next),
    {
        match self.keyboard.handle_message(msg, wparam, lparam, next) {
            KeyOutcome::Event(event) => Reaction {
                actions: Vec::new(),
                key_event: Some(event),
                result: Some(0),
            },
            KeyOutcome::Consumed => handled(Vec::new()),
            KeyOutcome::CharWithoutKeyDown => Reaction {
                actions: vec![WindowAction::ReportKeyError],
                key_event: None,
                result: None,
            },
            KeyOutcome::Unhandled => unhandled(),
        }
    }
}

/// The message was handled, and its result is 0.
fn handled(actions: Vec<WindowAction>) -> (res: Reaction)
    ensures
        res@ == reaction(actions@, Some(0)),
{
    Reaction { actions, key_event: None, result: Some(0) }
}

/// The message is left to the system.
fn unhandled() -> (res: Reaction)
    ensures
        res@ == reaction(seq![], None),
{
    let res = Reaction { actions: Vec::new(), key_event: None, result: None };
    assert(res@.actions =~= seq![]);
    res
}

/// The events of the touch points, and whether the flags of all of them say what they did.
fn report_touches(inputs: &Vec<TouchInput>) -> (res: (Vec<WindowAction>, bool))
    ensures
        res.0@ == touch_events(inputs@),
        res.1 == all_touches_known(inputs@),
{
    let mut actions: Vec<WindowAction> = Vec::new();
    let mut i: usize = 0;
    assert(inputs@.skip(0) =~= inputs@);
    while i < inputs.len()
        invariant
            i <= inputs.len(),
            actions@ + touch_events(inputs@.skip(i as int)) == touch_events(inputs@),
            forall|j: int| 0 <= j < i ==> touch_action_of(#[trigger] inputs@[j].flags) is Some,
        decreases inputs.len() - i,
    {
        let input = inputs[i];
        let ghost rest = inputs@.skip(i as int);
        assert(rest.skip(1) =~= inputs@.skip(i + 1));
        match touch_action(input.flags) {
            Some(action) => {
                let ghost before = actions@;
                let event = TouchEvent {
                    action,
                    touch_id: input.id,
                    x: pixels(input.x),
                    y: pixels(input.y),
                };
                actions.push(WindowAction::Touch(event));
                assert(before + (seq![WindowAction::Touch(event)] + touch_events(rest.skip(1)))
                    =~= actions@ + touch_events(rest.skip(1)));
            },
            None => {
                assert(inputs@[i as int].flags == input.flags);
                return (actions, false);
            },
        }
        i += 1;
    }
    (actions, true)
}

/// What the touch points of a message lead to.
fn on_touch(inputs: Option<Vec<TouchInput>>) -> (res: Reaction)
    ensures
        res@ == reaction(
            touch_actions(
                match inputs {
                    Some(inputs) => Some(inputs@),
                    None => None,
                },
            ),
            Some(0),
        ),
{
    match inputs {
        Some(inputs) => {
            let (mut actions, all_known) = report_touches(&inputs);
            if all_known {
                actions.push(WindowAction::CloseTouchInput);
            }
            handled(actions)
        },
        None => handled(vec![WindowAction::CloseTouchInput]),
    }
}

/// A message of the window with the answer to its query.
pub struct WindowMessage {
    pub msg: u32,
    pub wparam: u64,
    pub lparam: u64,
    pub answer: Answer,
}

impl WindowMessage {
    /// Whether [`Window::wnd_proc`] takes the message.
    pub open spec fn is_valid(self) -> bool {
        &&& self.answer.fits(query_of(self.msg, self.wparam))
        &&& (is_button_down(self.msg) || is_button_up(self.msg)) && from_mouse(
            self.answer->ExtraInfo_0,
        ) ==> button_of(self.msg, self.wparam) is Some
    }

    /// Whether the message is about this button of the mouse.
    pub open spec fn is_about(self, button: MouseButton) -> bool {
        &&& is_button_down(self.msg) || is_button_up(self.msg)
        &&& from_mouse(self.answer->ExtraInfo_0)
        &&& button_of(self.msg, self.wparam) == Some(button)
    }
}

impl WindowView {
    /// What a message does to the window, and what it leads to.
    pub open spec fn take(self, message: WindowMessage) -> (WindowView, ReactionView) {
        self.step(message.msg, message.wparam, message.lparam, message.answer)
    }
}

/// The window after a sequence of messages.
pub open spec fn window_after(start: WindowView, messages: Seq<WindowMessage>) -> WindowView
    decreases messages.len(),
{
    if messages.len() == 0 {
        start
    } else {
        window_after(start, messages.drop_last()).take(messages.last()).0
    }
}

/// What a sequence of messages leads to.
pub open spec fn actions_of(start: WindowView, messages: Seq<WindowMessage>) -> Seq<WindowAction>
    decreases messages.len(),
{
    if messages.len() == 0 {
        Seq::empty()
    } else {
        let before = window_after(start, messages.drop_last());
        actions_of(start, messages.drop_last()) + before.take(messages.last()).1.actions
    }
}

/// Whether the last message about the button says that it went down.
pub open spec fn last_went_down(messages: Seq<WindowMessage>, button: MouseButton) -> bool
    decreases messages.len(),
{
    if messages.len() == 0 {
        false
    } else if messages.last().is_about(button) {
        is_button_down(messages.last().msg)
    } else {
        last_went_down(messages.drop_last(), button)
    }
}

/// A button is held exactly when the last message about it says that it went down.
pub proof fn held_buttons_went_down(
    start: WindowView,
    messages: Seq<WindowMessage>,
    button: MouseButton,
)
    requires
        forall|b: MouseButton| !#[trigger] start.buttons.has(b),
        forall|i: int| 0 <= i < messages.len() ==> (#[trigger] messages[i]).is_valid(),
    ensures
        window_after(start, messages).buttons.has(button) == last_went_down(messages, button),
    decreases messages.len(),
{
    if messages.len() > 0 {
        let earlier = messages.drop_last();
        assert forall|i: int| 0 <= i < earlier.len() implies (#[trigger] earlier[i]).is_valid() by {
            assert(earlier[i] == messages[i]);
        }
        held_buttons_went_down(start, earlier, button);
        let message = messages.last();
        assert(message == messages[messages.len() - 1]);
        if is_button_down(message.msg) || is_button_up(message.msg) {
            if from_mouse(message.answer->ExtraInfo_0) {
                let before = window_after(start, earlier);
                let moved = button_of(message.msg, message.wparam)->0;
                lemma_held_buttons(before.buttons, moved, button);
            }
        }
    }
}

/// A button that goes down and comes up again leaves the held buttons as they were.
pub proof fn press_and_release(
    window: WindowView,
    down: WindowMessage,
    up: WindowMessage,
    button: MouseButton,
)
    requires
        down.is_valid() && down.is_about(button) && is_button_down(down.msg),
        up.is_valid() && up.is_about(button) && is_button_up(up.msg),
        !window.buttons.has(button),
    ensures
        window.take(down).0.take(up).0.buttons == window.buttons,
{
    lemma_held_buttons(window.buttons, button, button);
}

/// A mouse message that was made up for a touch or a pen changes nothing, reports nothing, and
/// is left to the system.
pub proof fn made_up_messages_are_ignored(window: WindowView, message: WindowMessage)
    requires
        message.is_valid(),
        is_pointer_message(message.msg),
        !from_mouse(message.answer->ExtraInfo_0),
    ensures
        window.take(message) == (window, reaction(seq![], None)),
{
}

/// The size that the handler is told is the size of the window.
pub proof fn reported_size_is_the_size(
    window: WindowView,
    message: WindowMessage,
    width: u32,
    height: u32,
    dpi: u32,
)
    requires
        message.is_valid(),
        window.take(message).1.actions.contains(WindowAction::Resize { width, height, dpi }),
    ensures
        window.take(message).0.width == width,
        window.take(message).0.height == height,
        window.take(message).0.dpi == dpi,
{
    if message.answer is Touches {
        if message.answer->Touches_0 is Some {
            lemma_touch_events(message.answer->Touches_0->0@);
        }
    }
}

/// Whether the last entry or exit that was reported is an entry.
pub open spec fn is_inside(actions: Seq<WindowAction>) -> bool
    decreases actions.len(),
{
    if actions.len() == 0 {
        false
    } else {
        match actions.last() {
            WindowAction::Mouse(event) => match event.action {
                MouseAction::Enter => true,
                MouseAction::Exit => false,
                _ => is_inside(actions.drop_last()),
            },
            _ => is_inside(actions.drop_last()),
        }
    }
}

/// An entry is reported outside, and a movement inside.
pub open spec fn is_in_place(actions: Seq<WindowAction>, i: int) -> bool {
    match actions[i] {
        WindowAction::Mouse(event) => match event.action {
            MouseAction::Enter => !is_inside(actions.take(i)),
            MouseAction::Move => is_inside(actions.take(i)),
            _ => true,
        },
        _ => true,
    }
}

/// From the pointer being outside, no entry is reported twice without an exit between, and every
/// movement is reported between an entry and the next exit.
pub proof fn movements_are_inside(start: WindowView, messages: Seq<WindowMessage>)
    requires
        !start.is_tracking,
        forall|i: int| 0 <= i < messages.len() ==> (#[trigger] messages[i]).is_valid(),
    ensures
        is_inside(actions_of(start, messages)) == window_after(start, messages).is_tracking,
        forall|i: int|
            0 <= i < actions_of(start, messages).len() ==> #[trigger] is_in_place(
                actions_of(start, messages),
                i,
            ),
    decreases messages.len(),
{
    if messages.len() > 0 {
        let earlier = messages.drop_last();
        assert forall|i: int| 0 <= i < earlier.len() implies (#[trigger] earlier[i]).is_valid() by {
            assert(earlier[i] == messages[i]);
        }
        movements_are_inside(start, earlier);
        assert(messages.last() == messages[messages.len() - 1]);
        lemma_step_in_place(
            window_after(start, earlier),
            messages.last(),
            actions_of(start, earlier),
        );
    }
}

/// Every action for the touch points is an event of a touch point.
proof fn lemma_touch_events(inputs: Seq<TouchInput>)
    ensures
        forall|i: int|
            0 <= i < touch_events(inputs).len() ==> (#[trigger] touch_events(inputs)[i]) is Touch,
    decreases inputs.len(),
{
    if inputs.len() > 0 {
        lemma_touch_events(inputs.skip(1));
    }
}

/// One more action.
proof fn lemma_one_more(actions: Seq<WindowAction>, action: WindowAction)
    requires
        forall|i: int| 0 <= i < actions.len() ==> #[trigger] is_in_place(actions, i),
        action matches WindowAction::Mouse(event) ==> {
            &&& event.action is Enter ==> !is_inside(actions)
            &&& event.action is Move ==> is_inside(actions)
        },
    ensures
        forall|i: int|
            0 <= i < actions.push(action).len() ==> #[trigger] is_in_place(actions.push(action), i),
        is_inside(actions.push(action)) == (match action {
            WindowAction::Mouse(event) => match event.action {
                MouseAction::Enter => true,
                MouseAction::Exit => false,
                _ => is_inside(actions),
            },
            _ => is_inside(actions),
        }),
{
    let more = actions.push(action);
    assert(more.drop_last() =~= actions);
    assert(more.take(actions.len() as int) =~= actions);
    assert forall|i: int| 0 <= i < more.len() implies #[trigger] is_in_place(more, i) by {
        if i < actions.len() {
            assert(is_in_place(actions, i));
            assert(more.take(i) =~= actions.take(i));
        }
    }
}

/// More actions that are no events of the mouse.
proof fn lemma_more_of_others(actions: Seq<WindowAction>, others: Seq<WindowAction>)
    requires
        forall|i: int| 0 <= i < actions.len() ==> #[trigger] is_in_place(actions, i),
        forall|i: int| 0 <= i < others.len() ==> !((#[trigger] others[i]) is Mouse),
    ensures
        forall|i: int|
            0 <= i < (actions + others).len() ==> #[trigger] is_in_place(actions + others, i),
        is_inside(actions + others) == is_inside(actions),
    decreases others.len(),
{
    if others.len() > 0 {
        let fewer = others.drop_last();
        assert forall|i: int| 0 <= i < fewer.len() implies !((#[trigger] fewer[i]) is Mouse) by {
            assert(fewer[i] == others[i]);
        }
        lemma_more_of_others(actions, fewer);
        assert(others.last() == others[others.len() - 1]);
        lemma_one_more(actions + fewer, others.last());
        assert((actions + fewer).push(others.last()) =~= actions + others);
    } else {
        assert(actions + others =~= actions);
    }
}

/// The actions of one more message.
proof fn lemma_step_in_place(
    window: WindowView,
    message: WindowMessage,
    actions: Seq<WindowAction>,
)
    requires
        message.is_valid(),
        is_inside(actions) == window.is_tracking,
        forall|i: int| 0 <= i < actions.len() ==> #[trigger] is_in_place(actions, i),
    ensures
        ({
            let (after, reaction) = window.take(message);
            let more = actions + reaction.actions;
            &&& is_inside(more) == after.is_tracking
            &&& forall|i: int| 0 <= i < more.len() ==> #[trigger] is_in_place(more, i)
        }),
{
    let (after, reaction) = window.take(message);
    let new = reaction.actions;
    if new.len() == 0 {
        assert(actions + new =~= actions);
    } else if new.len() == 1 && new[0] is Mouse {
        lemma_one_more(actions, new[0]);
        assert(actions + new =~= actions.push(new[0]));
    } else if message.answer is ExtraInfo {
        lemma_one_more(actions, new[0]);
        lemma_one_more(actions.push(new[0]), new[1]);
        if new.len() == 2 {
            assert(actions + new =~= actions.push(new[0]).push(new[1]));
        } else {
            lemma_one_more(actions.push(new[0]).push(new[1]), new[2]);
            assert(actions + new =~= actions.push(new[0]).push(new[1]).push(new[2]));
        }
    } else {
        if message.answer is Touches {
            if message.answer->Touches_0 is Some {
                lemma_touch_events(message.answer->Touches_0->0@);
            }
        }
        lemma_more_of_others(actions, new);
    }
}

/// Whether the extra information of a mouse message says that it comes from a mouse: it does not
/// have the signature of a touch or a pen in its bits 8 to 31.
pub open spec fn lacks_signature(extra_info: u64) -> bool {
    extra_info & 0xffff_ff00 != 0xff51_5700
}

/// The horizontal place in a message parameter: its bits 0 to 15.
pub open spec fn place_x(lparam: u64) -> int {
    (lparam & 0xffff) as int
}

/// The vertical place in a message parameter: its bits 16 to 31.
pub open spec fn place_y(lparam: u64) -> int {
    ((lparam >> 16) & 0xffff) as int
}

/// The bit that stands for the button of a message, or 0 where the message is about none: the left
/// button for the messages 0x201 and 0x202, the right one for 0x204 and 0x205, the middle one for
/// 0x207 and 0x208. The messages 0x20b and 0x20c name one of the extra buttons in the bits 16 to 31
/// of their first parameter.
pub open spec fn button_mask(msg: u32, wparam: u64) -> u8 {
    if msg == 0x201 || msg == 0x202 {
        0x1
    } else if msg == 0x204 || msg == 0x205 {
        0x2
    } else if msg == 0x207 || msg == 0x208 {
        0x4
    } else if (msg == 0x20b || msg == 0x20c) && (wparam >> 16) & 0xffff == 1 {
        0x8
    } else if (msg == 0x20b || msg == 0x20c) && (wparam >> 16) & 0xffff == 2 {
        0x10
    } else {
        0
    }
}

/// Whether the message says that a button went down.
pub open spec fn goes_down(msg: u32) -> bool {
    msg == 0x201 || msg == 0x204 || msg == 0x207 || msg == 0x20b
}

/// Whether two states of a window differ at most in the mouse: its place, its buttons, and whether
/// it is over the window.
pub open spec fn same_but_mouse(a: WindowView, b: WindowView) -> bool {
    &&& a.width == b.width
    &&& a.height == b.height
    &&& a.dpi == b.dpi
    &&& a.cursor == b.cursor
    &&& a.keyboard == b.keyboard
}

proof fn lemma_places(param: u64)
    ensures
        place_x(param) == low_word(param),
        place_y(param) == high_word(param),
        (param >> 16) & 0xffff == high_word(param),
{
    assert(param & 0xffff == param % 0x1_0000) by (bit_vector);
    assert((param >> 16) & 0xffff == (param / 0x1_0000) % 0x1_0000) by (bit_vector);
}

proof fn lemma_signature(extra_info: u64)
    ensures
        lacks_signature(extra_info) == from_mouse(extra_info),
{
    assert((extra_info & 0xffff_ff00 != 0xff51_5700) == ((extra_info / 0x100) % 0x100_0000
        != 0xff5157)) by (bit_vector);
}

/// A button message from a mouse sets the bit of its button when the button goes down and clears
/// it when the button comes up, and leaves every other bit as it was. It reports one event of the
/// mouse, with these buttons and at the place that the message gives. The left button, and no
/// other, takes the mouse before that and lets it go.
pub proof fn buttons_are_reported_by_their_bits(
    window: &mut Window,
    msg: u32,
    wparam: u64,
    lparam: u64,
    extra_info: u64,
    res: Reaction,
)
    requires
        call_ensures(
            Window::wnd_proc,
            (window, msg, wparam, lparam, Answer::ExtraInfo(extra_info)),
            res,
        ),
        button_mask(msg, wparam) != 0,
        lacks_signature(extra_info),
    ensures
        ({
            let mask = button_mask(msg, wparam);
            let count = res.actions@.len();
            &&& final(window)@.buttons.bits == if goes_down(msg) {
                old(window)@.buttons.bits | mask
            } else {
                old(window)@.buttons.bits & !mask
            }
            &&& final(window)@.x == place_x(lparam)
            &&& final(window)@.y == place_y(lparam)
            &&& final(window)@.is_tracking == old(window)@.is_tracking
            &&& same_but_mouse(final(window)@, old(window)@)
            &&& count == if mask == 1 {
                2nat
            } else {
                1
            }
            &&& mask == 1 && goes_down(msg) ==> res.actions@[0] == WindowAction::SetCapture
            &&& mask == 1 && !goes_down(msg) ==> res.actions@[0] == WindowAction::ReleaseCapture
            &&& res.actions@[count - 1] is Mouse
            &&& res.actions@[count - 1]->Mouse_0.action == if goes_down(msg) {
                MouseAction::Down
            } else {
                MouseAction::Up
            }
            &&& res.actions@[count - 1]->Mouse_0.x == place_x(lparam)
            &&& res.actions@[count - 1]->Mouse_0.y == place_y(lparam)
            &&& res.actions@[count - 1]->Mouse_0.buttons == final(window)@.buttons
            &&& res.actions@[count - 1]->Mouse_0.scroll is None
            &&& res.key_event is None
            &&& res.result == Some(0i64)
        }),
{
    lemma_places(wparam);
    lemma_places(lparam);
    lemma_signature(extra_info);
    lemma_button_bits();
}

/// The messages of the three buttons, and those of the extra buttons that name one, are taken with
/// the extra information of the message, whatever it is. A message of an extra button that names
/// neither is taken only if it does not come from a mouse.
pub proof fn button_messages_are_taken(
    msg: u32,
    wparam: u64,
    answer: Answer,
    query: Query,
    accepted: bool,
)
    requires
        call_ensures(Window::query, (msg, wparam), query),
        call_ensures(Window::accepts, (msg, wparam, &answer), accepted),
        msg == 0x201 || msg == 0x202 || msg == 0x204 || msg == 0x205 || msg == 0x207 || msg == 0x208
            || msg == 0x20b || msg == 0x20c,
    ensures
        query == Query::ExtraInfo,
        accepted <==> answer is ExtraInfo && (lacks_signature(answer->ExtraInfo_0) ==> button_mask(
            msg,
            wparam,
        ) != 0),
{
    lemma_places(wparam);
    if answer is ExtraInfo {
        lemma_signature(answer->ExtraInfo_0);
    }
}

/// What is asked of the system before a message is taken: the extra information for the messages
/// of the mouse, the resolution for a new window and a new resolution, the place of the pointer for
/// the wheels, as many touch points as the message has, and the next message for a key that went
/// down and for a character. An answer of another kind is not taken.
pub proof fn messages_need_their_answers(
    msg: u32,
    wparam: u64,
    answer: Answer,
    query: Query,
    accepted: bool,
)
    requires
        call_ensures(Window::query, (msg, wparam), query),
        call_ensures(Window::accepts, (msg, wparam, &answer), accepted),
    ensures
        query is ExtraInfo <==> msg == 0x200 || msg == 0x201 || msg == 0x202 || msg == 0x204 || msg
            == 0x205 || msg == 0x207 || msg == 0x208 || msg == 0x20b || msg == 0x20c || msg
            == 0x2a3,
        query is Dpi <==> msg == 0x1 || msg == 0x2e2,
        query is Wheel <==> msg == 0x20a || msg == 0x20e,
        query is Touches <==> msg == 0x240,
        query is Touches ==> query->Touches_0 == (wparam & 0xffff),
        query is NextKeyMessage <==> msg == 0x100 || msg == 0x102,
        accepted ==> {
            &&& query is Nothing <==> answer is Nothing
            &&& query is ExtraInfo <==> answer is ExtraInfo
            &&& query is Dpi <==> answer is Dpi
            &&& query is Wheel <==> answer is Wheel
            &&& query is Touches <==> answer is Touches
            &&& query is NextKeyMessage <==> answer is NextKeyMessage
        },
        !(query is ExtraInfo) ==> (accepted <==> {
            ||| query is Nothing && answer is Nothing
            ||| query is Dpi && answer is Dpi
            ||| query is Wheel && answer is Wheel
            ||| query is Touches && answer is Touches
            ||| query is NextKeyMessage && answer is NextKeyMessage
        }),
        msg == 0x200 || msg == 0x2a3 ==> (accepted <==> answer is ExtraInfo),
{
    lemma_places(wparam);
}

/// A message can be taken in exactly if it is said to be accepted.
pub proof fn accepted_messages_are_taken(
    window: &mut Window,
    msg: u32,
    wparam: u64,
    lparam: u64,
    answer: Answer,
    accepted: bool,
)
    requires
        call_ensures(Window::accepts, (msg, wparam, &answer), accepted),
        accepted,
    ensures
        call_requires(Window::wnd_proc, (window, msg, wparam, lparam, answer)),
{
}

/// A movement of the mouse is reported at its new place, with the buttons as they are. If the
/// system was not asked yet to tell when the mouse leaves, it is asked, and an entry is reported
/// before the movement.
pub proof fn movements_are_reported(
    window: &mut Window,
    wparam: u64,
    lparam: u64,
    extra_info: u64,
    res: Reaction,
)
    requires
        call_ensures(
            Window::wnd_proc,
            (window, 0x200, wparam, lparam, Answer::ExtraInfo(extra_info)),
            res,
        ),
        lacks_signature(extra_info),
    ensures
        ({
            let first = if old(window)@.is_tracking {
                0int
            } else {
                1
            };
            let count = res.actions@.len();
            &&& final(window)@.is_tracking
            &&& final(window)@.x == place_x(lparam)
            &&& final(window)@.y == place_y(lparam)
            &&& final(window)@.buttons == old(window)@.buttons
            &&& same_but_mouse(final(window)@, old(window)@)
            &&& count == 1 + 2 * first
            &&& first == 1 ==> res.actions@[0] == WindowAction::TrackMouseLeave
            &&& forall|i: int|
                first <= i < count ==> {
                    &&& (#[trigger] res.actions@[i]) is Mouse
                    &&& res.actions@[i]->Mouse_0.action == if i == count - 1 {
                        MouseAction::Move
                    } else {
                        MouseAction::Enter
                    }
                    &&& res.actions@[i]->Mouse_0.x == place_x(lparam)
                    &&& res.actions@[i]->Mouse_0.y == place_y(lparam)
                    &&& res.actions@[i]->Mouse_0.buttons == old(window)@.buttons
                    &&& res.actions@[i]->Mouse_0.scroll is None
                }
            &&& res.key_event is None
            &&& res.result == Some(0i64)
        }),
{
    lemma_places(lparam);
    lemma_signature(extra_info);
}

/// When the mouse leaves, one exit is reported, at the place where it was last seen, and the next
/// movement is an entry again.
pub proof fn exits_are_reported(
    window: &mut Window,
    wparam: u64,
    lparam: u64,
    extra_info: u64,
    res: Reaction,
)
    requires
        call_ensures(
            Window::wnd_proc,
            (window, 0x2a3, wparam, lparam, Answer::ExtraInfo(extra_info)),
            res,
        ),
        lacks_signature(extra_info),
    ensures
        !final(window)@.is_tracking,
        final(window)@.x == old(window)@.x,
        final(window)@.y == old(window)@.y,
        final(window)@.buttons == old(window)@.buttons,
        same_but_mouse(final(window)@, old(window)@),
        res.actions@.len() == 1,
        res.actions@[0] is Mouse,
        res.actions@[0]->Mouse_0.action == MouseAction::Exit,
        res.actions@[0]->Mouse_0.x == old(window)@.x,
        res.actions@[0]->Mouse_0.y == old(window)@.y,
        res.actions@[0]->Mouse_0.buttons == old(window)@.buttons,
        res.actions@[0]->Mouse_0.scroll is None,
        res.key_event is None,
        res.result == Some(0i64),
{
    lemma_signature(extra_info);
}

/// A mouse message with the signature of a touch or a pen changes nothing and is left to the
/// system.
pub proof fn signed_messages_are_left(
    window: &mut Window,
    msg: u32,
    wparam: u64,
    lparam: u64,
    extra_info: u64,
    res: Reaction,
)
    requires
        call_ensures(
            Window::wnd_proc,
            (window, msg, wparam, lparam, Answer::ExtraInfo(extra_info)),
            res,
        ),
        !lacks_signature(extra_info),
    ensures
        final(window)@ == old(window)@,
        res.actions@.len() == 0,
        res.key_event is None,
        res.result is None,
{
    lemma_signature(extra_info);
}

/// A turn of a wheel is reported at the place of the pointer, with the lines that the user wants.
/// How far it was turned stands, as a number with a sign, in the bits 16 to 31 of the first
/// parameter. It counts upwards for the message 0x20a and to the right for 0x20e. Where the facts
/// could not be found out, nothing is reported and nothing changes.
pub proof fn wheels_are_reported(
    window: &mut Window,
    msg: u32,
    wparam: u64,
    lparam: u64,
    facts: Option<WheelFacts>,
    res: Reaction,
)
    requires
        call_ensures(Window::wnd_proc, (window, msg, wparam, lparam, Answer::Wheel(facts)), res),
        msg == 0x20a || msg == 0x20e,
    ensures
        res.key_event is None,
        res.result == Some(0i64),
        facts is None ==> final(window)@ == old(window)@ && res.actions@.len() == 0,
        facts is Some ==> {
            let event = res.actions@[0]->Mouse_0;
            let turned = if msg == 0x20a {
                event.scroll->0.units_y
            } else {
                event.scroll->0.units_x
            };
            let other = if msg == 0x20a {
                event.scroll->0.units_x
            } else {
                event.scroll->0.units_y
            };
            &&& res.actions@.len() == 1
            &&& res.actions@[0] is Mouse
            &&& event.action == MouseAction::Scroll
            &&& event.x == facts->0.x
            &&& event.y == facts->0.y
            &&& event.buttons == old(window)@.buttons
            &&& event.scroll is Some
            &&& event.scroll->0.lines == facts->0.lines
            &&& other == 0
            &&& (turned - ((wparam >> 16) & 0xffff)) % 0x1_0000 == 0
            &&& final(window)@.x == facts->0.x
            &&& final(window)@.y == facts->0.y
            &&& final(window)@.buttons == old(window)@.buttons
            &&& final(window)@.is_tracking == old(window)@.is_tracking
            &&& same_but_mouse(final(window)@, old(window)@)
        },
{
    lemma_places(wparam);
}

/// A new size is kept and reported, its width in the bits 0 to 15 of the second parameter and its
/// height in the bits 16 to 31, together with the resolution as it is. Nothing else changes.
pub proof fn new_size_is_reported(
    window: &mut Window,
    wparam: u64,
    lparam: u64,
    res: Reaction,
)
    requires
        call_ensures(Window::wnd_proc, (window, 0x5, wparam, lparam, Answer::Nothing), res),
    ensures
        final(window)@.width == place_x(lparam),
        final(window)@.height == place_y(lparam),
        final(window)@ == (WindowView {
            width: final(window)@.width,
            height: final(window)@.height,
            ..old(window)@
        }),
        res.actions@.len() == 1,
        res.actions@[0] is Resize,
        res.actions@[0]->width == place_x(lparam),
        res.actions@[0]->height == place_y(lparam),
        res.actions@[0]->dpi == old(window)@.dpi,
        res.key_event is None,
        res.result == Some(0i64),
{
    lemma_places(lparam);
}

/// A new resolution is kept and reported together with the size as it is. Nothing else changes.
pub proof fn new_resolution_is_reported(
    window: &mut Window,
    msg: u32,
    wparam: u64,
    lparam: u64,
    dpi: u32,
    res: Reaction,
)
    requires
        call_ensures(Window::wnd_proc, (window, msg, wparam, lparam, Answer::Dpi(dpi)), res),
    ensures
        final(window)@ == (WindowView { dpi, ..old(window)@ }),
        res.actions@.len() == 1,
        res.actions@[0] is Resize,
        res.actions@[0]->width == old(window)@.width,
        res.actions@[0]->height == old(window)@.height,
        res.actions@[0]->dpi == dpi,
        res.key_event is None,
        res.result == Some(0i64),
{
}

/// The message 0x10 asks to close the window. The message 0x20 shows the shape of the pointer where
/// the low 16 bits of its second parameter are 1, and its result is then 1. Other messages for
/// which nothing is asked, but for those of the keyboard, are left to the system. None of them
/// changes the window.
pub proof fn other_messages_change_nothing(
    window: &mut Window,
    msg: u32,
    wparam: u64,
    lparam: u64,
    res: Reaction,
)
    requires
        call_ensures(Window::wnd_proc, (window, msg, wparam, lparam, Answer::Nothing), res),
        msg != 0x5,
        msg != 0x101,
        msg != 0x103,
    ensures
        final(window)@ == old(window)@,
        res.key_event is None,
        msg == 0x10 ==> {
            &&& res.actions@ == seq![WindowAction::Close]
            &&& res.result == Some(0i64)
        },
        msg == 0x20 && lparam & 0xffff == 1 ==> {
            &&& res.actions@ == seq![WindowAction::SetCursor(old(window)@.cursor)]
            &&& res.result == Some(1i64)
        },
        msg != 0x10 && !(msg == 0x20 && lparam & 0xffff == 1) ==> {
            &&& res.actions@.len() == 0
            &&& res.result is None
        },
{
    lemma_places(lparam);
}

/// A keyboard message does to the window what it does to its keyboard. A key event is handed on as
/// it is, what the keyboard took in is handled, and what it did not is left to the system.
pub proof fn keys_go_through_the_keyboard(
    window: &mut Window,
    keyboard: &mut Keyboard,
    msg: u32,
    wparam: u64,
    lparam: u64,
    next: Option<u32>,
    res: Reaction,
    outcome: KeyOutcome,
)
    requires
        call_ensures(
            Window::wnd_proc,
            (
                window,
                msg,
                wparam,
                lparam,
                if msg == 0x100 || msg == 0x102 {
                    Answer::NextKeyMessage(next)
                } else {
                    Answer::Nothing
                },
            ),
            res,
        ),
        call_ensures(Keyboard::handle_message, (keyboard, msg, wparam, lparam, next), outcome),
        old(keyboard)@ == old(window)@.keyboard,
        msg == 0x100 || msg == 0x101 || msg == 0x102 || msg == 0x103,
    ensures
        final(window)@ == (WindowView { keyboard: final(keyboard)@, ..old(window)@ }),
        outcome is Event <==> res.key_event is Some,
        outcome is Event ==> res.key_event->0@ == outcome->Event_0@,
        outcome is Event || outcome is Consumed <==> res.result == Some(0i64),
        outcome is Unhandled || outcome is CharWithoutKeyDown <==> res.result is None,
        res.actions@ == (if outcome is CharWithoutKeyDown {
            seq![WindowAction::ReportKeyError]
        } else {
            seq![]
        }),
{
}

/// Whether a touch point did this, by the bits of its flags: bit 1 for a point that goes down, else
/// bit 2 for one that comes up, else bit 0 for one that moves.
pub open spec fn touch_did(flags: u32, action: TouchAction) -> bool {
    match action {
        TouchAction::Down => flags & 0x2 != 0,
        TouchAction::Up => flags & 0x2 == 0 && flags & 0x4 != 0,
        TouchAction::Move => flags & 0x6 == 0 && flags & 0x1 != 0,
    }
}

/// Whether a number of pixels is what is whole in a number of hundredths of a pixel.
pub open spec fn is_whole_part(pixels: int, hundredths: int) -> bool {
    &&& hundredths >= 0 ==> 100 * pixels <= hundredths < 100 * pixels + 100
    &&& hundredths <= 0 ==> 100 * pixels - 100 < hundredths <= 100 * pixels
}

/// The touch points of a message are reported in order, each under its number, at its place in
/// whole pixels, and with what its flags say, up to the first whose flags say nothing. The touch
/// input is closed at the end, unless there is such a point. A failure to get the points only
/// closes it. The window does not change.
pub proof fn touches_are_reported(
    window: &mut Window,
    msg: u32,
    wparam: u64,
    lparam: u64,
    inputs: Option<Vec<TouchInput>>,
    res: Reaction,
    n: int,
)
    requires
        call_ensures(Window::wnd_proc, (window, msg, wparam, lparam, Answer::Touches(inputs)), res),
        inputs is Some ==> {
            &&& 0 <= n <= inputs->0@.len()
            &&& forall|i: int| 0 <= i < n ==> (#[trigger] inputs->0@[i]).flags & 0x7 != 0
            &&& n < inputs->0@.len() ==> inputs->0@[n].flags & 0x7 == 0
        },
    ensures
        final(window)@ == old(window)@,
        res.key_event is None,
        res.result == Some(0i64),
        inputs is None ==> res.actions@ == seq![WindowAction::CloseTouchInput],
        inputs is Some ==> {
            &&& res.actions@.len() == n + if n == inputs->0@.len() {
                1int
            } else {
                0
            }
            &&& n == inputs->0@.len() ==> res.actions@[n] == WindowAction::CloseTouchInput
            &&& forall|i: int|
                0 <= i < n ==> {
                    let event = (#[trigger] res.actions@[i])->Touch_0;
                    &&& res.actions@[i] is Touch
                    &&& event.touch_id == inputs->0@[i].id
                    &&& touch_did(inputs->0@[i].flags, event.action)
                    &&& is_whole_part(event.x as int, inputs->0@[i].x as int)
                    &&& is_whole_part(event.y as int, inputs->0@[i].y as int)
                }
        },
{
    if inputs is Some {
        let points = inputs->0@;
        assert forall|i: int| 0 <= i < points.len() implies (touch_action_of(
            #[trigger] points[i].flags,
        ) is Some <==> points[i].flags & 0x7 != 0) by {
            lemma_touch_flags(points[i].flags);
        }
        assert(all_touches_known(points) == (n == points.len()));
        lemma_reported_touches(points, n);
    }
}

proof fn lemma_touch_flags(flags: u32)
    ensures
        touch_action_of(flags) is Some <==> flags & 0x7 != 0,
        touch_action_of(flags) is Some ==> touch_did(flags, touch_action_of(flags)->0),
{
    assert((flags / 2) % 2 == 1 <==> flags & 0x2 != 0) by (bit_vector);
    assert((flags / 4) % 2 == 1 <==> flags & 0x4 != 0) by (bit_vector);
    assert(flags % 2 == 1 <==> flags & 0x1 != 0) by (bit_vector);
    assert(flags & 0x7 == 0 <==> flags & 0x1 == 0 && flags & 0x2 == 0 && flags & 0x4 == 0)
        by (bit_vector);
    assert(flags & 0x6 == 0 <==> flags & 0x2 == 0 && flags & 0x4 == 0) by (bit_vector);
}

/// The events of the touch points, one by one.
proof fn lemma_reported_touches(points: Seq<TouchInput>, n: int)
    requires
        0 <= n <= points.len(),
        forall|i: int| 0 <= i < n ==> (#[trigger] points[i]).flags & 0x7 != 0,
        n < points.len() ==> points[n].flags & 0x7 == 0,
    ensures
        touch_events(points).len() == n,
        forall|i: int|
            0 <= i < n ==> {
                let event = (#[trigger] touch_events(points)[i])->Touch_0;
                &&& touch_events(points)[i] is Touch
                &&& event.touch_id == points[i].id
                &&& touch_did(points[i].flags, event.action)
                &&& is_whole_part(event.x as int, points[i].x as int)
                &&& is_whole_part(event.y as int, points[i].y as int)
            },
    decreases points.len(),
{
    if points.len() > 0 {
        let rest = points.skip(1);
        lemma_touch_flags(points[0].flags);
        if n > 0 {
            assert forall|i: int| 0 <= i < n - 1 implies (#[trigger] rest[i]).flags & 0x7 != 0 by {
                assert(rest[i] == points[i + 1]);
            }
            lemma_reported_touches(rest, n - 1);
            let all = touch_events(points);
            let later = touch_events(rest);
            assert forall|i: int| 0 <= i < n implies {
                let event = (#[trigger] all[i])->Touch_0;
                &&& all[i] is Touch
                &&& event.touch_id == points[i].id
                &&& touch_did(points[i].flags, event.action)
                &&& is_whole_part(event.x as int, points[i].x as int)
                &&& is_whole_part(event.y as int, points[i].y as int)
            } by {
                if i > 0 {
                    assert(all[i] == later[i - 1]);
                    assert(rest[i - 1] == points[i]);
                }
            }
        }
    }
}

/// The first message of a window attaches its data. While there is no data, every other message is
/// left to the system. With data, the last message releases it, and all others are for the window.
pub proof fn data_is_attached_first_and_released_last(msg: u32, has_data: bool, res: Route)
    requires
        call_ensures(route, (msg, has_data), res),
    ensures
        res is Attach <==> msg == 0x81,
        res is System <==> msg != 0x81 && !has_data,
        res is Release <==> msg == 0x82 && has_data,
        res is Window <==> has_data && msg != 0x81 && msg != 0x82,
{
}

/// A new shape of the pointer is kept, shown at once, and shown again when the pointer moves over
/// the window. Nothing else changes.
pub proof fn new_shape_is_shown(window: &mut Window, cursor: Option<u64>, shown: WindowAction)
    requires
        call_ensures(Window::set_cursor, (window, cursor), shown),
    ensures
        shown == WindowAction::SetCursor(cursor),
        final(window)@ == (WindowView { cursor, ..old(window)@ }),
{
}

/// A new window has the size and the shape that it was given, the resolution 96, no button and no
/// key held, and the mouse is not over it.
pub proof fn new_window_is_at_rest(width: u32, height: u32, cursor: Option<u64>, res: Window)
    requires
        call_ensures(Window::new, (width, height, cursor), res),
    ensures
        res@.width == width,
        res@.height == height,
        res@.dpi == 96,
        res@.cursor == cursor,
        !res@.is_tracking,
        res@.buttons.bits == 0,
        res@.keyboard.modifiers.bits == 0,
        res@.keyboard.pressed == Set::<u64>::empty(),
        res@.keyboard.session.len() == 0,
{
}

/// A mouse message comes from a mouse exactly if the extra information lacks the signature of a
/// touch or a pen.
pub proof fn signature_tells_the_mouse(extra_info: u64, res: bool)
    requires
        call_ensures(is_mouse_event, (extra_info,), res),
    ensures
        res <==> extra_info & 0xffff_ff00 != 0xff51_5700,
{
    lemma_signature(extra_info);
}

/// A button message is about the button that its number names: the left one for 0x201 and 0x202, the
/// right one for 0x204 and 0x205, the middle one for 0x207 and 0x208, and for 0x20b and 0x20c the
/// extra one whose number stands in the bits 16 to 31 of the first parameter. No other message is
/// about a button.
pub proof fn messages_name_their_button(msg: u32, wparam: u64, button: Option<MouseButton>)
    requires
        call_ensures(mouse_button, (msg, wparam), button),
    ensures
        button == Some(MouseButton::Left) <==> msg == 0x201 || msg == 0x202,
        button == Some(MouseButton::Right) <==> msg == 0x204 || msg == 0x205,
        button == Some(MouseButton::Middle) <==> msg == 0x207 || msg == 0x208,
        button == Some(MouseButton::X1) <==> (msg == 0x20b || msg == 0x20c) && (wparam >> 16)
            & 0xffff == 1,
        button == Some(MouseButton::X2) <==> (msg == 0x20b || msg == 0x20c) && (wparam >> 16)
            & 0xffff == 2,
{
    lemma_places(wparam);
}

/// A touch point went down if bit 1 of its flags is on, else came up if bit 2 is on, else moved if
/// bit 0 is on, and else did nothing that is known.
pub proof fn flags_tell_the_touch(flags: u32, action: Option<TouchAction>)
    requires
        call_ensures(touch_action, (flags,), action),
    ensures
        action == Some(TouchAction::Down) <==> flags & 0x2 != 0,
        action == Some(TouchAction::Up) <==> flags & 0x2 == 0 && flags & 0x4 != 0,
        action == Some(TouchAction::Move) <==> flags & 0x2 == 0 && flags & 0x4 == 0 && flags & 0x1
            != 0,
{
    assert((flags / 2) % 2 == 1 <==> flags & 0x2 != 0) by (bit_vector);
    assert((flags / 4) % 2 == 1 <==> flags & 0x4 != 0) by (bit_vector);
    assert(flags % 2 == 1 <==> flags & 0x1 != 0) by (bit_vector);
}

} // verus!
