//! From mouse and touch events to the pointer events of the engine.
use crate::events::{MouseAction, MouseEvent, Scroll, TouchAction, TouchEvent};
use crate::flags::MouseButtons;
use crate::window::{is_inside, WindowAction};
use vstd::prelude::*;

verus! {

/// What a pointer is.
#[derive(Clone, Copy, Debug, PartialEq, Eq, Structural)]
pub enum PointerDeviceKind {
    Mouse,
    Touch,
    Stylus,
    Trackpad,
}

/// What a pointer did.
#[derive(Clone, Copy, Debug, PartialEq, Eq, Structural)]
pub enum PointerPhase {
    Up,
    Down,
    /// The pointer appeared.
    Add,
    /// The pointer went away.
    Remove,
    /// It moved without being down.
    Hover,
    /// It moved while being down.
    Move,
}

/// The device that the mouse is to the engine.
pub const MOUSE_DEVICE: i32 = 1;

/// An event of a pointer for the engine.
#[derive(Clone, Copy, Debug, PartialEq, Eq, Structural)]
pub struct PointerEvent {
    pub device_kind: PointerDeviceKind,
    pub device_id: i32,
    pub phase: PointerPhase,
    pub x: i32,
    pub y: i32,
    pub buttons: MouseButtons,
}

/// What the engine is told of an event of the mouse.
#[derive(Clone, Copy, Debug, PartialEq, Eq, Structural)]
pub enum MouseMessage {
    Pointer(PointerEvent),
    /// A scroll at this place. Without a distance nothing is scrolled.
    Scroll { x: i32, y: i32, scroll: Option<Scroll> },
}

/// The phase of an event of the mouse. A movement while no button is held is a hover.
pub open spec fn mouse_phase(action: MouseAction, buttons: MouseButtons) -> PointerPhase {
    match action {
        MouseAction::Enter => PointerPhase::Add,
        MouseAction::Exit => PointerPhase::Remove,
        MouseAction::Down => PointerPhase::Down,
        MouseAction::Up => PointerPhase::Up,
        _ => if buttons.bits == 0 {
            PointerPhase::Hover
        } else {
            PointerPhase::Move
        },
    }
}

/// What the engine is told of an event of the mouse.
pub open spec fn mouse_message(event: MouseEvent) -> MouseMessage {
    if event.action is Scroll {
        MouseMessage::Scroll { x: event.x, y: event.y, scroll: event.scroll }
    } else {
        MouseMessage::Pointer(
            PointerEvent {
                device_kind: PointerDeviceKind::Mouse,
                device_id: MOUSE_DEVICE,
                phase: mouse_phase(event.action, event.buttons),
                x: event.x,
                y: event.y,
                buttons: event.buttons,
            },
        )
    }
}

/// What the engine is told of an event of the mouse.
pub fn on_mouse_event(event: &MouseEvent) -> (res: MouseMessage)
    ensures
        res == mouse_message(*event),
{
    let phase = match event.action {
        MouseAction::Scroll => return MouseMessage::Scroll {
            x: event.x,
            y: event.y,
            scroll: event.scroll,
        },
        MouseAction::Enter => PointerPhase::Add,
        MouseAction::Exit => PointerPhase::Remove,
        MouseAction::Move => if event.buttons.is_empty() {
            PointerPhase::Hover
        } else {
            PointerPhase::Move
        },
        MouseAction::Down => PointerPhase::Down,
        MouseAction::Up => PointerPhase::Up,
    };
    MouseMessage::Pointer(
        PointerEvent {
            device_kind: PointerDeviceKind::Mouse,
            device_id: MOUSE_DEVICE,
            phase,
            x: event.x,
            y: event.y,
            buttons: event.buttons,
        },
    )
}

/// The phases of an event of a touch point. A finger is a pointer only while it is down.
pub open spec fn touch_phases(action: TouchAction) -> Seq<PointerPhase> {
    match action {
        TouchAction::Down => seq![PointerPhase::Add, PointerPhase::Down],
        TouchAction::Up => seq![PointerPhase::Up, PointerPhase::Remove],
        TouchAction::Move => seq![PointerPhase::Move],
    }
}

/// The device that a touch point is to the engine: the same 32 bits as a number with a sign.
pub open spec fn touch_device(touch_id: u32) -> i32 {
    if touch_id < 0x8000_0000 {
        touch_id as i32
    } else {
        (touch_id - 0x1_0000_0000) as i32
    }
}

/// The events that the engine is told of an event of a touch point.
pub open spec fn touch_messages(event: TouchEvent) -> Seq<PointerEvent> {
    touch_phases(event.action).map_values(
        |phase: PointerPhase|
            PointerEvent {
                device_kind: PointerDeviceKind::Touch,
                device_id: touch_device(event.touch_id),
                phase,
                x: event.x,
                y: event.y,
                buttons: MouseButtons { bits: 0 },
            },
    )
}

/// The events that the engine is told of an event of a touch point, in order.
pub fn on_touch_event(event: &TouchEvent) -> (res: Vec<PointerEvent>)
    ensures
        res@ == touch_messages(*event),
{
    let device_id: i32 = if event.touch_id < 0x8000_0000 {
        event.touch_id as i32
    } else {
        (event.touch_id as i64 - 0x1_0000_0000) as i32
    };
    let up = PointerEvent {
        device_kind: PointerDeviceKind::Touch,
        device_id,
        phase: PointerPhase::Up,
        x: event.x,
        y: event.y,
        buttons: MouseButtons::empty(),
    };
    let res: Vec<PointerEvent> = match event.action {
        TouchAction::Down => vec![
            PointerEvent { phase: PointerPhase::Add, ..up },
            PointerEvent { phase: PointerPhase::Down, ..up },
        ],
        TouchAction::Up => vec![up, PointerEvent { phase: PointerPhase::Remove, ..up }],
        TouchAction::Move => vec![PointerEvent { phase: PointerPhase::Move, ..up }],
    };
    assert(res@ =~= touch_messages(*event));
    res
}

/// What a window library reports of the mouse.
#[derive(Clone, Copy, Debug, PartialEq, Eq, Structural)]
pub enum CursorInput {
    Moved,
    Entered,
    Left,
    Pressed,
    Released,
}

/// Whether the mouse is down, where a window library reports its movements and buttons apart.
pub struct CursorTracker {
    is_down: bool,
}

impl View for CursorTracker {
    type V = bool;

    closed spec fn view(&self) -> bool {
        self.is_down
    }
}

impl CursorTracker {
    /// The mouse is not down.
    pub fn new() -> (res: CursorTracker)
        ensures
            !res@,
    {
        CursorTracker { is_down: false }
    }

    /// Takes in what the mouse did, and gives the phase for the engine.
    pub fn handle(&mut self, input: CursorInput) -> (res: PointerPhase)
        ensures
            final(self)@ == (match input {
                CursorInput::Pressed => true,
                CursorInput::Released => false,
                _ => old(self)@,
            }),
            res == (match input {
                CursorInput::Moved => if old(self)@ {
                    PointerPhase::Move
                } else {
                    PointerPhase::Hover
                },
                CursorInput::Entered => PointerPhase::Add,
                CursorInput::Left => PointerPhase::Remove,
                CursorInput::Pressed => PointerPhase::Down,
                CursorInput::Released => PointerPhase::Up,
            }),
    {
        match input {
            CursorInput::Moved => if self.is_down {
                PointerPhase::Move
            } else {
                PointerPhase::Hover
            },
            CursorInput::Entered => PointerPhase::Add,
            CursorInput::Left => PointerPhase::Remove,
            CursorInput::Pressed => {
                self.is_down = true;
                PointerPhase::Down
            },
            CursorInput::Released => {
                self.is_down = false;
                PointerPhase::Up
            },
        }
    }
}

/// The size of a client area with these edges, or `None` where it is empty.
pub fn client_size(left: i32, top: i32, right: i32, bottom: i32) -> (res: Option<(u32, u32)>)
    requires
        right > left && bottom > top ==> right - left <= i32::MAX && bottom - top <= i32::MAX,
    ensures
        res == (if right > left && bottom > top {
            Some(((right - left) as u32, (bottom - top) as u32))
        } else {
            None
        }),
{
    if right > left && bottom > top {
        let width: i32 = right - left;
        let height: i32 = bottom - top;
        Some((width as u32, height as u32))
    } else {
        None
    }
}

/// Whether a pointer is there, after a sequence of phases.
pub open spec fn is_present(phases: Seq<PointerPhase>) -> bool
    decreases phases.len(),
{
    if phases.len() == 0 {
        false
    } else {
        match phases.last() {
            PointerPhase::Add => true,
            PointerPhase::Remove => false,
            _ => is_present(phases.drop_last()),
        }
    }
}

/// The phases of the mouse that the engine is told for what a window does.
pub open spec fn mouse_phases(actions: Seq<WindowAction>) -> Seq<PointerPhase>
    decreases actions.len(),
{
    if actions.len() == 0 {
        Seq::empty()
    } else {
        let before = mouse_phases(actions.drop_last());
        match actions.last() {
            WindowAction::Mouse(event) => match mouse_message(event) {
                MouseMessage::Pointer(pointer) => before.push(pointer.phase),
                MouseMessage::Scroll { .. } => before,
            },
            _ => before,
        }
    }
}

/// The mouse is there to the engine exactly while it is inside the window.
pub proof fn mouse_is_there_while_inside(actions: Seq<WindowAction>)
    ensures
        is_present(mouse_phases(actions)) == is_inside(actions),
    decreases actions.len(),
{
    if actions.len() > 0 {
        let before = mouse_phases(actions.drop_last());
        mouse_is_there_while_inside(actions.drop_last());
        if let WindowAction::Mouse(event) = actions.last() {
            if let MouseMessage::Pointer(pointer) = mouse_message(event) {
                assert(before.push(pointer.phase).drop_last() =~= before);
            }
        }
    }
}

/// The phases of a sequence of events of one touch point.
pub open spec fn all_touch_phases(actions: Seq<TouchAction>) -> Seq<PointerPhase>
    decreases actions.len(),
{
    if actions.len() == 0 {
        Seq::empty()
    } else {
        all_touch_phases(actions.drop_last()) + touch_phases(actions.last())
    }
}

/// A finger is there to the engine exactly while it is down.
pub proof fn finger_is_there_while_down(actions: Seq<TouchAction>)
    ensures
        is_present(all_touch_phases(actions)) == is_finger_down(actions),
    decreases actions.len(),
{
    reveal_with_fuel(is_present, 2);
    if actions.len() > 0 {
        let before = all_touch_phases(actions.drop_last());
        let all = all_touch_phases(actions);
        finger_is_there_while_down(actions.drop_last());
        match actions.last() {
            TouchAction::Down => {
                assert(all.drop_last().last() == PointerPhase::Add);
            },
            TouchAction::Up => {
                assert(all.last() == PointerPhase::Remove);
            },
            TouchAction::Move => {
                assert(all.drop_last() =~= before);
            },
        }
    }
}

/// Whether a finger is down, after a sequence of events.
pub open spec fn is_finger_down(actions: Seq<TouchAction>) -> bool
    decreases actions.len(),
{
    if actions.len() == 0 {
        false
    } else {
        match actions.last() {
            TouchAction::Down => true,
            TouchAction::Up => false,
            TouchAction::Move => is_finger_down(actions.drop_last()),
        }
    }
}

/// Different touch points are different devices.
pub proof fn touch_devices_differ(a: u32, b: u32)
    requires
        a != b,
    ensures
        touch_device(a) != touch_device(b),
{
}

/// The engine is told each event of the mouse as it is, at its place and with its buttons: an entry
/// adds the mouse and an exit removes it, a button that goes down or comes up is told as that, and a
/// movement is a hover exactly while no button is held. A turn of the wheel is told as a scroll.
pub proof fn engine_is_told_what_the_mouse_did(event: MouseEvent, told: MouseMessage)
    requires
        call_ensures(on_mouse_event, (&event,), told),
    ensures
        told is Scroll <==> event.action is Scroll,
        told is Scroll ==> {
            &&& told->Scroll_x == event.x
            &&& told->Scroll_y == event.y
            &&& told->scroll == event.scroll
        },
        told is Pointer ==> {
            let pointer = told->Pointer_0;
            &&& pointer.device_kind is Mouse
            &&& pointer.device_id == 1
            &&& pointer.x == event.x
            &&& pointer.y == event.y
            &&& pointer.buttons == event.buttons
            &&& pointer.phase is Add <==> event.action is Enter
            &&& pointer.phase is Remove <==> event.action is Exit
            &&& pointer.phase is Down <==> event.action is Down
            &&& pointer.phase is Up <==> event.action is Up
            &&& pointer.phase is Hover <==> event.action is Move && event.buttons.bits == 0
            &&& pointer.phase is Move <==> event.action is Move && event.buttons.bits != 0
        },
{
}

/// The engine is told of a finger at its place and under its own number: one that goes down is added
/// and then down, one that comes up is up and then removed, and one that moves moves.
pub proof fn engine_is_told_what_the_finger_did(event: TouchEvent, told: Vec<PointerEvent>)
    requires
        call_ensures(on_touch_event, (&event,), told),
    ensures
        event.action is Move ==> told@.len() == 1 && told@[0].phase is Move,
        event.action is Down ==> told@.len() == 2 && told@[0].phase is Add && told@[1].phase is Down,
        event.action is Up ==> told@.len() == 2 && told@[0].phase is Up && told@[1].phase is Remove,
        forall|i: int|
            0 <= i < told@.len() ==> {
                &&& (#[trigger] told@[i]).device_kind is Touch
                &&& (told@[i].device_id - event.touch_id) % 0x1_0000_0000 == 0
                &&& told@[i].x == event.x
                &&& told@[i].y == event.y
                &&& told@[i].buttons.bits == 0
            },
{
}

/// A press makes the mouse be down until the release, whatever comes between. A movement is told as
/// a move exactly while it is down, and else as a hover.
pub proof fn cursor_is_down_between_press_and_release(
    cursor: &mut CursorTracker,
    input: CursorInput,
    phase: PointerPhase,
)
    requires
        call_ensures(CursorTracker::handle, (cursor, input), phase),
    ensures
        input is Pressed ==> final(cursor)@,
        input is Released ==> !final(cursor)@,
        !(input is Pressed) && !(input is Released) ==> final(cursor)@ == old(cursor)@,
        phase is Move <==> input is Moved && old(cursor)@,
        phase is Hover <==> input is Moved && !old(cursor)@,
        phase is Add <==> input is Entered,
        phase is Remove <==> input is Left,
        phase is Down <==> input is Pressed,
        phase is Up <==> input is Released,
{
}

/// A client area has a size exactly if it is not empty, and then its edges are as far apart as that.
pub proof fn size_is_between_the_edges(
    left: i32,
    top: i32,
    right: i32,
    bottom: i32,
    size: Option<(u32, u32)>,
)
    requires
        call_ensures(client_size, (left, top, right, bottom), size),
    ensures
        size is Some <==> left < right && top < bottom,
        size is Some && right - left <= i32::MAX ==> left + (size->0).0 == right,
        size is Some && bottom - top <= i32::MAX ==> top + (size->0).1 == bottom,
{
}

} // verus!
