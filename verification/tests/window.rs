use flion::events::{KeyAction, MouseAction, MouseEvent, Scroll, TouchAction, TouchEvent};
use flion::flags::{MouseButton, MouseButtons};
use flion::key_messages::{WM_CHAR, WM_DEADCHAR, WM_KEYDOWN, WM_KEYUP};
use flion::window::{
    is_mouse_event, mouse_button, route, touch_action, Answer, Query, Reaction, Route, TouchInput,
    WheelFacts, Window, WindowAction, DPI_BASE, WM_CLOSE, WM_CREATE, WM_DPICHANGED_BEFOREPARENT,
    WM_LBUTTONDOWN, WM_LBUTTONUP, WM_MBUTTONDOWN, WM_MBUTTONUP, WM_MOUSEHWHEEL, WM_MOUSELEAVE,
    WM_MOUSEMOVE, WM_MOUSEWHEEL, WM_NCCREATE, WM_NCDESTROY, WM_RBUTTONDOWN, WM_RBUTTONUP,
    WM_SETCURSOR, WM_SIZE, WM_TOUCH, WM_XBUTTONDOWN, WM_XBUTTONUP,
};

const FROM_MOUSE: Answer = Answer::ExtraInfo(0);

fn window() -> Window {
    Window::new(800, 600, Some(11))
}

fn at(x: u64, y: u64) -> u64 {
    x | (y << 16)
}

fn mouse(action: MouseAction, x: i32, y: i32, buttons: u8) -> WindowAction {
    WindowAction::Mouse(MouseEvent {
        action,
        x,
        y,
        buttons: MouseButtons { bits: buttons },
        scroll: None,
    })
}

fn check(reaction: Reaction, actions: Vec<WindowAction>, result: Option<i64>) {
    assert_eq!(reaction.actions, actions);
    assert!(reaction.key_event.is_none());
    assert_eq!(reaction.result, result);
}

#[test]
fn routes() {
    assert_eq!(route(WM_NCCREATE, false), Route::Attach);
    assert_eq!(route(WM_NCCREATE, true), Route::Attach);
    assert_eq!(route(WM_SIZE, false), Route::System);
    assert_eq!(route(WM_NCDESTROY, false), Route::System);
    assert_eq!(route(WM_NCDESTROY, true), Route::Release);
    assert_eq!(route(WM_SIZE, true), Route::Window);
}

#[test]
fn queries() {
    for msg in [
        WM_MOUSEMOVE,
        WM_MOUSELEAVE,
        WM_LBUTTONDOWN,
        WM_LBUTTONUP,
        WM_RBUTTONDOWN,
        WM_RBUTTONUP,
        WM_MBUTTONDOWN,
        WM_MBUTTONUP,
        WM_XBUTTONDOWN,
        WM_XBUTTONUP,
    ] {
        assert_eq!(Window::query(msg, 0), Query::ExtraInfo);
    }
    assert_eq!(Window::query(WM_CREATE, 0), Query::Dpi);
    assert_eq!(Window::query(WM_DPICHANGED_BEFOREPARENT, 0), Query::Dpi);
    assert_eq!(Window::query(WM_MOUSEWHEEL, 0), Query::Wheel);
    assert_eq!(Window::query(WM_MOUSEHWHEEL, 0), Query::Wheel);
    assert_eq!(Window::query(WM_TOUCH, 0x5_0003), Query::Touches(3));
    assert_eq!(Window::query(WM_KEYDOWN, 0), Query::NextKeyMessage);
    assert_eq!(Window::query(WM_CHAR, 0), Query::NextKeyMessage);
    assert_eq!(Window::query(WM_KEYUP, 0), Query::Nothing);
    assert_eq!(Window::query(WM_CLOSE, 0), Query::Nothing);
}

#[test]
fn closing() {
    check(
        window().wnd_proc(WM_CLOSE, 0, 0, Answer::Nothing),
        vec![WindowAction::Close],
        Some(0),
    );
}

#[test]
fn sizes_and_resolutions() {
    let mut window = window();
    check(
        window.wnd_proc(WM_CREATE, 0, 0, Answer::Dpi(144)),
        vec![WindowAction::Resize { width: 800, height: 600, dpi: 144 }],
        Some(0),
    );
    check(
        window.wnd_proc(WM_SIZE, 0, at(1024, 768), Answer::Nothing),
        vec![WindowAction::Resize { width: 1024, height: 768, dpi: 144 }],
        Some(0),
    );
    check(
        window.wnd_proc(WM_DPICHANGED_BEFOREPARENT, 0, 0, Answer::Dpi(DPI_BASE)),
        vec![WindowAction::Resize { width: 1024, height: 768, dpi: 96 }],
        Some(0),
    );
}

#[test]
fn pointer_shapes() {
    let mut window = window();
    let client = 1 | (0x200 << 16);
    check(
        window.wnd_proc(WM_SETCURSOR, 0, client, Answer::Nothing),
        vec![WindowAction::SetCursor(Some(11))],
        Some(1),
    );
    assert_eq!(window.set_cursor(None), WindowAction::SetCursor(None));
    check(
        window.wnd_proc(WM_SETCURSOR, 0, client, Answer::Nothing),
        vec![WindowAction::SetCursor(None)],
        Some(1),
    );
    check(window.wnd_proc(WM_SETCURSOR, 0, 2, Answer::Nothing), vec![], None);
}

#[test]
fn entering_moving_and_leaving() {
    let mut window = window();
    check(
        window.wnd_proc(WM_MOUSEMOVE, 0, at(3, 4), FROM_MOUSE),
        vec![
            WindowAction::TrackMouseLeave,
            mouse(MouseAction::Enter, 3, 4, 0),
            mouse(MouseAction::Move, 3, 4, 0),
        ],
        Some(0),
    );
    check(
        window.wnd_proc(WM_MOUSEMOVE, 0, at(5, 6), FROM_MOUSE),
        vec![mouse(MouseAction::Move, 5, 6, 0)],
        Some(0),
    );
    check(
        window.wnd_proc(WM_MOUSELEAVE, 0, 0, FROM_MOUSE),
        vec![mouse(MouseAction::Exit, 5, 6, 0)],
        Some(0),
    );
    let reaction = window.wnd_proc(WM_MOUSEMOVE, 0, at(0, 0xFFFF), FROM_MOUSE);
    assert_eq!(reaction.actions.len(), 3);
    assert_eq!(reaction.actions[1], mouse(MouseAction::Enter, 0, 0xFFFF, 0));
}

#[test]
fn buttons_down_and_up() {
    let mut window = window();
    check(
        window.wnd_proc(WM_LBUTTONDOWN, 0, at(1, 2), FROM_MOUSE),
        vec![WindowAction::SetCapture, mouse(MouseAction::Down, 1, 2, 1)],
        Some(0),
    );
    check(
        window.wnd_proc(WM_XBUTTONDOWN, 2 << 16, at(1, 2), FROM_MOUSE),
        vec![mouse(MouseAction::Down, 1, 2, 0b1_0001)],
        Some(0),
    );
    check(
        window.wnd_proc(WM_LBUTTONUP, 0, at(7, 8), FROM_MOUSE),
        vec![WindowAction::ReleaseCapture, mouse(MouseAction::Up, 7, 8, 0b1_0000)],
        Some(0),
    );
    check(
        window.wnd_proc(WM_XBUTTONUP, 2 << 16, at(7, 8), FROM_MOUSE),
        vec![mouse(MouseAction::Up, 7, 8, 0)],
        Some(0),
    );
}

#[test]
fn names_of_buttons() {
    assert_eq!(mouse_button(WM_LBUTTONDOWN, 0), Some(MouseButton::Left));
    assert_eq!(mouse_button(WM_RBUTTONUP, 0), Some(MouseButton::Right));
    assert_eq!(mouse_button(WM_MBUTTONDOWN, 0), Some(MouseButton::Middle));
    assert_eq!(mouse_button(WM_XBUTTONUP, 1 << 16), Some(MouseButton::X1));
    assert_eq!(mouse_button(WM_XBUTTONUP, 2 << 16), Some(MouseButton::X2));
    assert_eq!(mouse_button(WM_XBUTTONUP, 3 << 16), None);
    assert_eq!(mouse_button(WM_MOUSEMOVE, 0), None);
}

#[test]
fn made_up_messages() {
    assert!(is_mouse_event(0));
    assert!(!is_mouse_event(0xFF51_5700));
    assert!(!is_mouse_event(0xFF51_5783));
    assert!(!is_mouse_event(0xFFFF_FFFF_FF51_5780));
    assert!(is_mouse_event(0xFF51_5600));
    let mut window = window();
    check(
        window.wnd_proc(WM_MOUSEMOVE, 0, at(3, 4), Answer::ExtraInfo(0xFF51_5780)),
        vec![],
        None,
    );
    check(
        window.wnd_proc(WM_MOUSELEAVE, 0, 0, FROM_MOUSE),
        vec![mouse(MouseAction::Exit, 0, 0, 0)],
        Some(0),
    );
}

#[test]
fn wheels() {
    let mut window = window();
    let facts = WheelFacts { x: -5, y: 9, lines: 3 };
    let up = (120u64) << 16;
    let down = (0xFF88u64) << 16;
    let event = |units_x: i16, units_y: i16| {
        WindowAction::Mouse(MouseEvent {
            action: MouseAction::Scroll,
            x: -5,
            y: 9,
            buttons: MouseButtons { bits: 0 },
            scroll: Some(Scroll { units_x, units_y, lines: 3 }),
        })
    };
    check(
        window.wnd_proc(WM_MOUSEWHEEL, up, 0, Answer::Wheel(Some(facts))),
        vec![event(0, 120)],
        Some(0),
    );
    check(
        window.wnd_proc(WM_MOUSEHWHEEL, down, 0, Answer::Wheel(Some(facts))),
        vec![event(-120, 0)],
        Some(0),
    );
    check(
        window.wnd_proc(WM_MOUSEWHEEL, up, 0, Answer::Wheel(None)),
        vec![],
        Some(0),
    );
    check(
        window.wnd_proc(WM_MOUSELEAVE, 0, 0, FROM_MOUSE),
        vec![mouse(MouseAction::Exit, -5, 9, 0)],
        Some(0),
    );
}

#[test]
fn touch_points() {
    let mut window = window();
    let inputs = vec![
        TouchInput { id: 1, x: 1234, y: -199, flags: 0x2A },
        TouchInput { id: 2, x: 99, y: -99, flags: 0x5 },
        TouchInput { id: 3, x: 100, y: -100, flags: 0x1 },
    ];
    let touch = |action, touch_id, x, y| {
        WindowAction::Touch(TouchEvent { action, touch_id, x, y })
    };
    check(
        window.wnd_proc(WM_TOUCH, 3, 0, Answer::Touches(Some(inputs))),
        vec![
            touch(TouchAction::Down, 1, 12, -1),
            touch(TouchAction::Up, 2, 0, 0),
            touch(TouchAction::Move, 3, 1, -1),
            WindowAction::CloseTouchInput,
        ],
        Some(0),
    );
    check(
        window.wnd_proc(WM_TOUCH, 1, 0, Answer::Touches(None)),
        vec![WindowAction::CloseTouchInput],
        Some(0),
    );
}

#[test]
fn touch_without_action_ends_the_message() {
    let inputs = vec![
        TouchInput { id: 1, x: 0, y: 0, flags: 0x2 },
        TouchInput { id: 2, x: 0, y: 0, flags: 0x8 },
        TouchInput { id: 3, x: 0, y: 0, flags: 0x2 },
    ];
    let reaction = window().wnd_proc(WM_TOUCH, 3, 0, Answer::Touches(Some(inputs)));
    assert_eq!(reaction.actions.len(), 1);
    assert_eq!(reaction.result, Some(0));
    assert_eq!(touch_action(0x8), None);
    assert_eq!(touch_action(0x6), Some(TouchAction::Down));
}

#[test]
fn key_messages_of_a_window() {
    let mut window = window();
    let reaction = window.wnd_proc(WM_KEYDOWN, 0x41, 0x1E << 16, Answer::NextKeyMessage(Some(WM_CHAR)));
    assert_eq!(reaction.result, Some(0));
    assert!(reaction.key_event.is_none());
    let reaction = window.wnd_proc(WM_CHAR, 0x61, 0x1E << 16, Answer::NextKeyMessage(None));
    let event = reaction.key_event.unwrap();
    assert_eq!(event.action, KeyAction::Down);
    assert_eq!(event.character.as_deref(), Some("a"));
    assert_eq!(reaction.result, Some(0));
    let reaction = window.wnd_proc(WM_KEYUP, 0x41, 0x1E << 16, Answer::Nothing);
    assert_eq!(reaction.key_event.unwrap().action, KeyAction::Up);
    let reaction = window.wnd_proc(WM_DEADCHAR, 0x5E, 0, Answer::Nothing);
    assert!(reaction.key_event.is_none());
    assert_eq!(reaction.result, None);
    assert!(reaction.actions.is_empty());
    let reaction = window.wnd_proc(WM_CHAR, 0x61, 0, Answer::NextKeyMessage(None));
    check(reaction, vec![WindowAction::ReportKeyError], None);
}

#[test]
fn unknown_messages_are_left() {
    check(window().wnd_proc(0x7FFF, 1, 2, Answer::Nothing), vec![], None);
}

#[test]
fn sets_of_buttons() {
    let set = MouseButtons::empty().with(MouseButton::X2).with(MouseButton::Right);
    assert_eq!(set.bits(), 0b1_0010);
    assert!(set.contains(MouseButton::X2));
    assert!(!set.contains(MouseButton::Left));
    assert_eq!(set.without(MouseButton::X2).bits(), 0b10);
    assert!(set.without(MouseButton::X2).without(MouseButton::Right).is_empty());
    assert_eq!(MouseButton::Middle.index(), 2);
}

#[test]
fn accepted_answers() {
    assert!(Window::accepts(WM_MOUSEMOVE, 0, &Answer::ExtraInfo(0)));
    assert!(!Window::accepts(WM_MOUSEMOVE, 0, &Answer::Nothing));
    assert!(Window::accepts(WM_CLOSE, 0, &Answer::Nothing));
    assert!(!Window::accepts(WM_CLOSE, 0, &Answer::Dpi(96)));
    assert!(Window::accepts(WM_CREATE, 0, &Answer::Dpi(96)));
    assert!(Window::accepts(WM_KEYDOWN, 0x41, &Answer::NextKeyMessage(None)));
    assert!(!Window::accepts(WM_KEYUP, 0x41, &Answer::NextKeyMessage(None)));
    assert!(Window::accepts(WM_XBUTTONDOWN, 2 << 16, &Answer::ExtraInfo(0)));
    assert!(!Window::accepts(WM_XBUTTONDOWN, 3 << 16, &Answer::ExtraInfo(0)));
    assert!(Window::accepts(WM_XBUTTONDOWN, 3 << 16, &Answer::ExtraInfo(0xFF51_5780)));
    assert!(Window::accepts(WM_LBUTTONUP, 0, &Answer::ExtraInfo(0)));
}
