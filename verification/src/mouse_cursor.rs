//! The requests of the framework for a shape of the pointer.
use crate::utf8_text::same_text;
use vstd::prelude::*;

verus! {

/// A shape of the pointer.
#[derive(Clone, Copy, Debug, PartialEq, Eq, Structural)]
pub enum CursorShape {
    Arrow,
    Hand,
    IBeam,
}

/// The shape that the framework calls by this name, or `None` where the pointer is hidden. The
/// arrow stands for all shapes that are not known.
pub open spec fn shape_of(name: Seq<char>) -> Option<CursorShape> {
    if name == "none"@ {
        None
    } else if name == "click"@ {
        Some(CursorShape::Hand)
    } else if name == "text"@ {
        Some(CursorShape::IBeam)
    } else {
        Some(CursorShape::Arrow)
    }
}

/// The shape that the framework calls by this name.
pub fn get_cursor(name: &str) -> (res: Option<CursorShape>)
    ensures
        res == shape_of(name@),
{
    if same_text(name, "none") {
        None
    } else if same_text(name, "click") {
        Some(CursorShape::Hand)
    } else if same_text(name, "text") {
        Some(CursorShape::IBeam)
    } else {
        Some(CursorShape::Arrow)
    }
}

/// What is to be done for a request.
#[derive(Clone, Copy, Debug, PartialEq, Eq, Structural)]
pub enum CursorCommand {
    /// Give the pointer this shape, or hide it, and answer with success.
    Activate(Option<CursorShape>),
    /// Answer that there is no such method.
    NotImplemented,
}

/// The requests about the pointer over a window. `W` stands for the window.
pub struct MouseCursorHandler<W> {
    window: W,
}

impl<W> View for MouseCursorHandler<W> {
    type V = W;

    closed spec fn view(&self) -> W {
        self.window
    }
}

impl<W> MouseCursorHandler<W> {
    /// A handler of the requests about the pointer over this window.
    pub fn new(window: W) -> (res: MouseCursorHandler<W>)
        ensures
            res@ == window,
    {
        MouseCursorHandler { window }
    }

    /// The window over which the pointer gets its shape.
    pub fn window(&self) -> (res: &W)
        ensures
            *res == self@,
    {
        &self.window
    }

    /// What is to be done for a request. `kind` is the argument of that name, if it is a text.
    pub fn handle(&self, method: &str, kind: Option<&str>) -> (res: CursorCommand)
        requires
            method@ == "activateSystemCursor"@ ==> kind is Some,
        ensures
            res == (if method@ == "activateSystemCursor"@ {
                CursorCommand::Activate(shape_of(kind->0@))
            } else {
                CursorCommand::NotImplemented
            }),
    {
        if same_text(method, "activateSystemCursor") {
            match kind {
                Some(kind) => CursorCommand::Activate(get_cursor(kind)),
                None => CursorCommand::NotImplemented,
            }
        } else {
            CursorCommand::NotImplemented
        }
    }
}

/// The pointer is hidden for `none` and for nothing else. It is a hand exactly for `click`, and the
/// mark of a text exactly for `text`.
pub proof fn shapes_have_their_names(name: &str, shape: Option<CursorShape>)
    requires
        call_ensures(get_cursor, (name,), shape),
    ensures
        shape is None <==> name@ == "none"@,
        shape == Some(CursorShape::Hand) <==> name@ == "click"@,
        shape == Some(CursorShape::IBeam) <==> name@ == "text"@,
{
    reveal_strlit("none");
    reveal_strlit("click");
    reveal_strlit("text");
    assert("none"@[0] == 'n');
    assert("click"@[0] == 'c');
    assert("text"@[0] == 't');
}

/// The pointer gets the shape of the name that the request brings, and only a request to activate a
/// pointer of the system changes it.
pub proof fn requested_shape_is_shown<W>(
    handler: MouseCursorHandler<W>,
    method: &str,
    kind: Option<&str>,
    command: CursorCommand,
    name: &str,
    shape: Option<CursorShape>,
)
    requires
        method@ == "activateSystemCursor"@ ==> kind is Some,
        call_ensures(MouseCursorHandler::<W>::handle, (&handler, method, kind), command),
        call_ensures(get_cursor, (name,), shape),
        kind is Some ==> kind->0@ == name@,
    ensures
        command is Activate <==> method@ == "activateSystemCursor"@,
        command is Activate ==> command->Activate_0 == shape,
{
}

/// The pointer gets its shape over the window that the handler was made for.
pub proof fn window_is_kept<W>(window: W, handler: MouseCursorHandler<W>, kept: &W)
    requires
        call_ensures(MouseCursorHandler::<W>::new, (window,), handler),
        call_ensures(MouseCursorHandler::<W>::window, (&handler,), kept),
    ensures
        *kept == window,
{
}

} // verus!
