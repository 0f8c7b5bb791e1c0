//! Putting an engine together, and the window around it.
use crate::platform_views::PlatformViewsMessageHandler;
use crate::registry::Registry;
use vstd::prelude::*;
use vstd::string::*;

verus! {

/// The channel on which views of the platform are requested.
pub const PLATFORM_VIEWS_CHANNEL: &'static str = "flion/platform_views";

/// The channel of the text field that has the focus.
pub const TEXT_INPUT_CHANNEL: &'static str = "flutter/textinput";

/// The channel on which shapes of the pointer are requested.
pub const MOUSE_CURSOR_CHANNEL: &'static str = "flutter/mousecursor";

/// A handler of messages: the one that the embedder brings, or one of the application.
pub enum MessageHandler<H, F> {
    PlatformViews(PlatformViewsMessageHandler<F>),
    Application(H),
}

/// The environment variable that says where the assets of the application are.
pub const ASSETS_PATH_VARIABLE: &'static str = "FLION_ASSETS_PATH";

/// The environment variable that says where the compiled code of the application is.
pub const AOT_LIBRARY_PATH_VARIABLE: &'static str = "FLION_AOT_LIBRARY_PATH";

/// Where a file of the application is.
#[derive(Clone, Copy, Debug, PartialEq, Eq)]
pub enum BundleFile<P> {
    /// At this place.
    At(P),
    /// In the bundle, under this name.
    InBundle(&'static str),
}

/// Where the bundle of an application is that was given none.
#[derive(Clone, Copy, Debug, PartialEq, Eq)]
pub enum DefaultBundle<P> {
    /// In this directory, under this name.
    Inside(P, &'static str),
    /// In the working directory, under this name.
    Here(&'static str),
}

/// The parts that an engine is started from.
pub struct EngineParts<P, H, F> {
    pub bundle_path: P,
    /// The handlers of messages, each with its channel.
    pub handlers: Vec<(String, MessageHandler<H, F>)>,
    pub assets: BundleFile<P>,
    pub aot_library: BundleFile<P>,
}

/// What an engine is made of. `P` stands for places in the file system.
pub struct FlionEngineBuilder<P, H, F> {
    bundle_path: P,
    platform_message_handlers: Vec<(String, H)>,
    platform_view_factories: Registry<F>,
}

/// The model of a [`FlionEngineBuilder`].
pub struct BuilderView<P, H, F> {
    pub bundle_path: P,
    /// The handlers of the application, in the order in which they were given.
    pub handlers: Seq<(Seq<char>, H)>,
    pub factories: Map<Seq<char>, F>,
}

/// The handlers of a list, with the names as texts.
pub open spec fn named<H>(list: Seq<(String, H)>) -> Seq<(Seq<char>, H)> {
    list.map_values(|entry: (String, H)| (entry.0@, entry.1))
}

impl<P, H, F> View for FlionEngineBuilder<P, H, F> {
    type V = BuilderView<P, H, F>;

    closed spec fn view(&self) -> BuilderView<P, H, F> {
        BuilderView {
            bundle_path: self.bundle_path,
            handlers: named(self.platform_message_handlers@),
            factories: self.platform_view_factories@,
        }
    }
}

impl<P, H, F> FlionEngineBuilder<P, H, F> {
    /// Nothing but the bundle at this place.
    pub fn new(bundle_path: P) -> (res: FlionEngineBuilder<P, H, F>)
        ensures
            res@ == (BuilderView::<P, H, F> {
                bundle_path,
                handlers: Seq::empty(),
                factories: Map::empty(),
            }),
    {
        let res = FlionEngineBuilder {
            bundle_path,
            platform_message_handlers: Vec::new(),
            platform_view_factories: Registry::new(),
        };
        assert(named(res.platform_message_handlers@) =~= Seq::empty());
        res
    }

    /// The same with the bundle at another place.
    pub fn with_bundle_path(self, path: P) -> (res: FlionEngineBuilder<P, H, F>)
        ensures
            res@ == (BuilderView { bundle_path: path, ..self@ }),
    {
        FlionEngineBuilder { bundle_path: path, ..self }
    }

    /// The same with one more handler of messages.
    pub fn with_platform_message_handler(self, name: &str, handler: H) -> (res: FlionEngineBuilder<
        P,
        H,
        F,
    >)
        ensures
            res@ == (BuilderView { handlers: self@.handlers.push((name@, handler)), ..self@ }),
    {
        let mut handlers = self.platform_message_handlers;
        let ghost before = named(handlers@);
        handlers.push((name.to_owned(), handler));
        assert(named(handlers@) =~= before.push((name@, handler)));
        FlionEngineBuilder {
            bundle_path: self.bundle_path,
            platform_message_handlers: handlers,
            platform_view_factories: self.platform_view_factories,
        }
    }

    /// The same with a factory for a type of views, in the place of one that there was.
    pub fn with_platform_view_factory(self, name: &str, factory: F) -> (res: FlionEngineBuilder<
        P,
        H,
        F,
    >)
        ensures
            res@ == (BuilderView { factories: self@.factories.insert(name@, factory), ..self@ }),
    {
        let mut factories = self.platform_view_factories;
        factories.insert(name.to_owned(), factory);
        FlionEngineBuilder {
            bundle_path: self.bundle_path,
            platform_message_handlers: self.platform_message_handlers,
            platform_view_factories: factories,
        }
    }

    /// What the engine is started from: the bundle, the handlers of messages with the one for
    /// views of the platform first and behind it those of the application, and the two files of
    /// the application, each at the place that the environment gives for it, else in the bundle.
    ///
    /// `assets` is what [`ASSETS_PATH_VARIABLE`] holds, and `aot_library` what
    /// [`AOT_LIBRARY_PATH_VARIABLE`] holds.
    pub fn build(self, assets: Option<P>, aot_library: Option<P>) -> (res: EngineParts<P, H, F>)
        ensures
            res.bundle_path == self@.bundle_path,
            res.handlers@.len() == self@.handlers.len() + 1,
            res.handlers@[0].0@ == PLATFORM_VIEWS_CHANNEL@,
            res.handlers@[0].1 matches MessageHandler::PlatformViews(handler)
                && handler.factories() == self@.factories,
            forall|i: int|
                #![trigger res.handlers@[i]]
                1 <= i < res.handlers@.len() ==> res.handlers@[i].0@ == self@.handlers[i - 1].0
                    && res.handlers@[i].1 == MessageHandler::<H, F>::Application(
                    self@.handlers[i - 1].1,
                ),
            res.assets == (match assets {
                Some(path) => BundleFile::At(path),
                None => BundleFile::InBundle("flutter_assets"),
            }),
            res.aot_library == (match aot_library {
                Some(path) => BundleFile::At(path),
                None => BundleFile::InBundle("app.so"),
            }),
    {
        let ghost given = named(self.platform_message_handlers@);
        let mut list = self.platform_message_handlers;
        let ghost all = list@;
        let views = PlatformViewsMessageHandler::new(self.platform_view_factories);
        let mut handlers: Vec<(String, MessageHandler<H, F>)> = Vec::new();
        handlers.push((PLATFORM_VIEWS_CHANNEL.to_owned(), MessageHandler::PlatformViews(views)));
        assert(all.skip(0) =~= all);
        while list.len() > 0
            invariant
                1 <= handlers@.len() <= all.len() + 1,
                given == named(all),
                list@ == all.skip(handlers@.len() - 1),
                handlers@[0].0@ == PLATFORM_VIEWS_CHANNEL@,
                handlers@[0].1 == MessageHandler::<H, F>::PlatformViews(views),
                forall|i: int|
                    #![trigger handlers@[i]]
                    1 <= i < handlers@.len() ==> handlers@[i].0@ == given[i - 1].0
                        && handlers@[i].1 == MessageHandler::<H, F>::Application(given[i - 1].1),
            decreases list.len(),
        {
            let ghost n = handlers@.len();
            let (name, handler) = list.remove(0);
            assert((name, handler) == all[n - 1]);
            assert(given[n - 1] == (name@, handler));
            handlers.push((name, MessageHandler::Application(handler)));
            assert(list@ =~= all.skip(n as int));
        }
        EngineParts {
            bundle_path: self.bundle_path,
            handlers,
            assets: bundle_file(assets, "flutter_assets"),
            aot_library: bundle_file(aot_library, "app.so"),
        }
    }
}

/// A file at the place that was given, else in the bundle under its name.
fn bundle_file<P>(given: Option<P>, name: &'static str) -> (res: BundleFile<P>)
    ensures
        res == (match given {
            Some(path) => BundleFile::At(path),
            None => BundleFile::InBundle(name),
        }),
{
    match given {
        Some(path) => BundleFile::At(path),
        None => BundleFile::InBundle(name),
    }
}

/// The bundle of an application that was given none: `data` in the directory of the program,
/// and in the working directory where that directory is not known.
pub fn default_bundle<P>(program_dir: Option<P>) -> (res: DefaultBundle<P>)
    ensures
        res == (match program_dir {
            Some(directory) => DefaultBundle::Inside(directory, "data"),
            None => DefaultBundle::Here("data"),
        }),
{
    match program_dir {
        Some(directory) => DefaultBundle::Inside(directory, "data"),
        None => DefaultBundle::Here("data"),
    }
}

/// An event of the window around the one that receives input.
#[derive(Clone, Copy, Debug, PartialEq, Eq, Structural)]
pub enum ParentEvent {
    CloseRequested,
    Focused(bool),
    Resized { width: u32, height: u32 },
    Other,
}

/// What is done for an event of the outer window.
#[derive(Clone, Copy, Debug, PartialEq, Eq, Structural)]
pub enum ParentAction {
    /// End the application.
    Exit,
    /// Give the inner window the focus.
    FocusWindow,
    /// Let the inner window fill the outer one.
    MoveWindow { x: i32, y: i32, width: i32, height: i32 },
    Nothing,
}

/// The same 32 bits as a number with a sign.
pub open spec fn signed(length: u32) -> i32 {
    if length < 0x8000_0000 {
        length as i32
    } else {
        (length - 0x1_0000_0000) as i32
    }
}

fn as_signed(length: u32) -> (res: i32)
    ensures
        res == signed(length),
{
    if length < 0x8000_0000 {
        length as i32
    } else {
        (length as i64 - 0x1_0000_0000) as i32
    }
}

/// What is done for an event of the outer window. `is_own` tells whether the event is about that
/// window.
pub fn on_parent_event(is_own: bool, event: ParentEvent) -> (res: ParentAction)
    ensures
        res == (if !is_own {
            ParentAction::Nothing
        } else {
            match event {
                ParentEvent::CloseRequested => ParentAction::Exit,
                ParentEvent::Focused(true) => ParentAction::FocusWindow,
                ParentEvent::Resized { width, height } => ParentAction::MoveWindow {
                    x: 0,
                    y: 0,
                    width: signed(width),
                    height: signed(height),
                },
                _ => ParentAction::Nothing,
            }
        }),
{
    if !is_own {
        return ParentAction::Nothing;
    }
    match event {
        ParentEvent::CloseRequested => ParentAction::Exit,
        ParentEvent::Focused(true) => ParentAction::FocusWindow,
        ParentEvent::Resized { width, height } => ParentAction::MoveWindow {
            x: 0,
            y: 0,
            width: as_signed(width),
            height: as_signed(height),
        },
        _ => ParentAction::Nothing,
    }
}

/// The files of the application are at the places that the environment gives, each of the two at
/// its own, and else in the bundle under their own names.
pub proof fn files_are_where_the_environment_says<P, H, F>(
    builder: FlionEngineBuilder<P, H, F>,
    assets: Option<P>,
    aot_library: Option<P>,
    parts: EngineParts<P, H, F>,
)
    requires
        call_ensures(FlionEngineBuilder::<P, H, F>::build, (builder, assets, aot_library), parts),
    ensures
        parts.assets is At <==> assets is Some,
        assets is Some ==> parts.assets->At_0 == assets->0,
        assets is None ==> parts.assets->InBundle_0@ == "flutter_assets"@,
        parts.aot_library is At <==> aot_library is Some,
        aot_library is Some ==> parts.aot_library->At_0 == aot_library->0,
        aot_library is None ==> parts.aot_library->InBundle_0@ == "app.so"@,
        ASSETS_PATH_VARIABLE@ == "FLION_ASSETS_PATH"@,
        AOT_LIBRARY_PATH_VARIABLE@ == "FLION_AOT_LIBRARY_PATH"@,
        TEXT_INPUT_CHANNEL@ == "flutter/textinput"@,
        MOUSE_CURSOR_CHANNEL@ == "flutter/mousecursor"@,
{
}

/// An engine is started from the bundle that was given last.
pub proof fn last_bundle_is_used<P, H, F>(
    first: P,
    last: P,
    new: FlionEngineBuilder<P, H, F>,
    moved: FlionEngineBuilder<P, H, F>,
    parts: EngineParts<P, H, F>,
    moved_parts: EngineParts<P, H, F>,
)
    requires
        call_ensures(FlionEngineBuilder::<P, H, F>::new, (first,), new),
        call_ensures(FlionEngineBuilder::<P, H, F>::with_bundle_path, (new, last), moved),
        call_ensures(FlionEngineBuilder::<P, H, F>::build, (new, None, None), parts),
        call_ensures(FlionEngineBuilder::<P, H, F>::build, (moved, None, None), moved_parts),
    ensures
        parts.bundle_path == first,
        moved_parts.bundle_path == last,
        parts.handlers@.len() == 1,
        moved_parts.handlers@.len() == 1,
        parts.handlers@[0].1 is PlatformViews,
        parts.handlers@[0].1->PlatformViews_0.factories() == Map::<Seq<char>, F>::empty(),
{
}

/// The handler for views of the platform stands first. One more handler of the application comes
/// behind all others, with its own channel, and changes nothing else.
pub proof fn new_handler_comes_last<P, H, F>(
    builder: FlionEngineBuilder<P, H, F>,
    name: &str,
    handler: H,
    more: FlionEngineBuilder<P, H, F>,
    parts: EngineParts<P, H, F>,
    more_parts: EngineParts<P, H, F>,
    i: int,
)
    requires
        call_ensures(
            FlionEngineBuilder::<P, H, F>::with_platform_message_handler,
            (builder, name, handler),
            more,
        ),
        call_ensures(FlionEngineBuilder::<P, H, F>::build, (builder, None, None), parts),
        call_ensures(FlionEngineBuilder::<P, H, F>::build, (more, None, None), more_parts),
        0 <= i < parts.handlers@.len(),
    ensures
        parts.handlers@[0].0@ == "flion/platform_views"@,
        parts.handlers@[0].1 is PlatformViews,
        more_parts.bundle_path == parts.bundle_path,
        more_parts.handlers@.len() == parts.handlers@.len() + 1,
        more_parts.handlers@[i].0@ == parts.handlers@[i].0@,
        i > 0 ==> more_parts.handlers@[i].1 == parts.handlers@[i].1,
        more_parts.handlers@[0].1->PlatformViews_0.factories()
            == parts.handlers@[0].1->PlatformViews_0.factories(),
        more_parts.handlers@.last().0@ == name@,
        more_parts.handlers@.last().1 is Application,
        more_parts.handlers@.last().1->Application_0 == handler,
{
    assert(more@.handlers[i - 1] == builder@.handlers[i - 1] || i == 0);
    assert(parts.handlers@[i] == parts.handlers@[i]);
    assert(more_parts.handlers@[i] == more_parts.handlers@[i]);
    let n = parts.handlers@.len() as int;
    assert(more_parts.handlers@[n] == more_parts.handlers@.last());
    assert(more@.handlers[n - 1] == (name@, handler));
}

/// A factory is the one of its type from then on, and those of the other types stay.
pub proof fn new_factory_makes_its_views<P, H, F>(
    builder: FlionEngineBuilder<P, H, F>,
    name: &str,
    factory: F,
    more: FlionEngineBuilder<P, H, F>,
    parts: EngineParts<P, H, F>,
    more_parts: EngineParts<P, H, F>,
    other: Seq<char>,
)
    requires
        call_ensures(
            FlionEngineBuilder::<P, H, F>::with_platform_view_factory,
            (builder, name, factory),
            more,
        ),
        call_ensures(FlionEngineBuilder::<P, H, F>::build, (builder, None, None), parts),
        call_ensures(FlionEngineBuilder::<P, H, F>::build, (more, None, None), more_parts),
    ensures
        more_parts.bundle_path == parts.bundle_path,
        more_parts.handlers@.len() == parts.handlers@.len(),
        ({
            let before = parts.handlers@[0].1->PlatformViews_0.factories();
            let after = more_parts.handlers@[0].1->PlatformViews_0.factories();
            &&& after.contains_key(name@) && after[name@] == factory
            &&& other != name@ ==> (after.contains_key(other) <==> before.contains_key(other))
            &&& other != name@ && after.contains_key(other) ==> after[other] == before[other]
        }),
{
}

/// Without a bundle that was given, the bundle is called `data`, in the directory of the program
/// exactly if that is known.
pub proof fn default_bundle_is_beside_the_program<P>(
    program_dir: Option<P>,
    bundle: DefaultBundle<P>,
)
    requires
        call_ensures(default_bundle::<P>, (program_dir,), bundle),
    ensures
        bundle is Inside <==> program_dir is Some,
        bundle is Inside ==> bundle->Inside_0 == program_dir->0 && bundle->Inside_1@ == "data"@,
        bundle is Here ==> bundle->Here_0@ == "data"@,
{
}

/// The application ends exactly if its own window is to be closed. The inner window gets the focus
/// exactly if the outer one has got it, and fills the outer one from corner to corner after a change
/// of its size.
pub proof fn inner_window_follows_the_outer(is_own: bool, event: ParentEvent, action: ParentAction)
    requires
        call_ensures(on_parent_event, (is_own, event), action),
    ensures
        action is Exit <==> is_own && event is CloseRequested,
        action is FocusWindow <==> is_own && event == ParentEvent::Focused(true),
        action is MoveWindow <==> is_own && event is Resized,
        action is MoveWindow ==> {
            &&& action->x == 0 && action->y == 0
            &&& (action->MoveWindow_width - event->Resized_width) % 0x1_0000_0000 == 0
            &&& (action->MoveWindow_height - event->Resized_height) % 0x1_0000_0000 == 0
            &&& event->Resized_width <= i32::MAX ==> action->MoveWindow_width
                == event->Resized_width
        },
{
}

} // verus!
