//! The views of the platform that take part in the composition, and the requests that create
//! and destroy them.
use crate::registry::Registry;
use crate::utf8_text::same_text;
use std::collections::HashMap;
use vstd::prelude::*;
use vstd::string::*;

verus! {

broadcast use vstd::std_specs::hash::group_hash_axioms;

/// Calls `HashMap::get_mut`: the value under the key, to be changed in place, or nothing where
/// the key is not in the map.
#[verifier::external_body]
fn value_mut<V>(map: &mut HashMap<u64, V>, id: u64) -> (res: Option<&mut V>)
    ensures
        match res {
            Some(view) => {
                &&& old(map)@.contains_key(id)
                &&& *view == old(map)@[id]
                &&& final(map)@ == old(map)@.insert(id, *final(view))
            },
            None => !old(map)@.contains_key(id) && final(map)@ == old(map)@,
        },
{
    map.get_mut(&id)
}

/// The views of the platform, each under its identifier.
pub struct PlatformViews<V> {
    views: HashMap<u64, V>,
}

impl<V> View for PlatformViews<V> {
    type V = Map<u64, V>;

    closed spec fn view(&self) -> Map<u64, V> {
        self.views@
    }
}

impl<V> PlatformViews<V> {
    /// No views.
    pub fn new() -> (res: PlatformViews<V>)
        ensures
            res@ == Map::<u64, V>::empty(),
    {
        PlatformViews { views: HashMap::new() }
    }

    /// Puts a view under an identifier, in the place of one that was there.
    pub fn register(&mut self, id: u64, view: V)
        ensures
            final(self)@ == old(self)@.insert(id, view),
    {
        self.views.insert(id, view);
    }

    /// Takes out the view with this identifier.
    pub fn remove(&mut self, id: u64) -> (res: Option<V>)
        ensures
            final(self)@ == old(self)@.remove(id),
            res == (if old(self)@.contains_key(id) {
                Some(old(self)@[id])
            } else {
                None
            }),
    {
        let res = self.views.remove(&id);
        assert(!old(self)@.contains_key(id) ==> old(self)@.remove(id) =~= old(self)@);
        res
    }

    /// Whether there is a view with this identifier.
    pub fn contains(&self, id: u64) -> (res: bool)
        ensures
            res == self@.contains_key(id),
    {
        self.views.contains_key(&id)
    }

    /// The view with this identifier.
    pub fn get_mut(&mut self, id: u64) -> (res: Option<&mut V>)
        ensures
            match res {
                Some(view) => {
                    &&& old(self)@.contains_key(id)
                    &&& *view == old(self)@[id]
                    &&& final(self)@ == old(self)@.insert(id, *final(view))
                },
                None => !old(self)@.contains_key(id) && final(self)@ == old(self)@,
            },
    {
        value_mut(&mut self.views, id)
    }
}

/// The identifier under which a view is kept, from the identifier in a request: the same bits,
/// with the sign carried on.
pub open spec fn view_key(id: i32) -> u64 {
    if id >= 0 {
        id as u64
    } else {
        (0x1_0000_0000_0000_0000 + id) as u64
    }
}

/// The identifier under which a view is kept, from the identifier in a request.
pub fn key_of_view(id: i32) -> (res: u64)
    ensures
        res == view_key(id),
{
    if id >= 0 {
        id as u64
    } else {
        let magnitude: u64 = (-(id as i64)) as u64;
        u64::MAX - magnitude + 1
    }
}

/// The arguments of a request, as far as they have the right types.
pub struct ViewArguments {
    pub id: Option<i32>,
    pub type_: Option<String>,
}

/// What is to be done for a request.
#[derive(Clone, Copy, Debug, PartialEq, Eq, Structural)]
pub enum ViewCommand {
    /// Have the factory of the requested type create a view, put it under the key, and answer
    /// with success.
    Create { id: i32, key: u64 },
    /// Take out the view under the key, and answer with success.
    Destroy { key: u64 },
    /// Answer that there is no such method.
    NotImplemented,
}

/// The requests about platform views. Views are created by factories, one for each type.
pub struct PlatformViewsMessageHandler<F> {
    factories: Registry<F>,
}

impl<F> PlatformViewsMessageHandler<F> {
    /// The factory of each type.
    pub closed spec fn factories(self) -> Map<Seq<char>, F> {
        self.factories@
    }

    /// A handler with these factories.
    pub fn new(factories: Registry<F>) -> (res: PlatformViewsMessageHandler<F>)
        ensures
            res.factories() == factories@,
    {
        PlatformViewsMessageHandler { factories }
    }

    /// The factory of a type.
    pub fn factory(&self, type_: &str) -> (res: Option<&F>)
        ensures
            match res {
                Some(factory) => self.factories().contains_key(type_@) && *factory
                    == self.factories()[type_@],
                None => !self.factories().contains_key(type_@),
            },
    {
        self.factories.get(type_)
    }

    /// Whether the request has the arguments that its method needs.
    pub open spec fn takes(self, method: Seq<char>, args: ViewArguments) -> bool {
        &&& method == "create"@ || method == "destroy"@ ==> args.id is Some
        &&& method == "create"@ ==> args.type_ is Some && self.factories().contains_key(
            args.type_->0@,
        )
    }

    /// Whether the request has the arguments that its method needs.
    pub fn accepts(&self, method: &str, args: &ViewArguments) -> (res: bool)
        ensures
            res == self.takes(method@, *args),
    {
        if same_text(method, "create") {
            match &args.type_ {
                Some(type_) => args.id.is_some() && self.factories.contains(type_.as_str()),
                None => false,
            }
        } else if same_text(method, "destroy") {
            args.id.is_some()
        } else {
            true
        }
    }

    /// What is to be done for a request.
    pub fn handle(&self, method: &str, args: &ViewArguments) -> (res: ViewCommand)
        requires
            self.takes(method@, *args),
        ensures
            res == (if method@ == "create"@ {
                ViewCommand::Create { id: args.id->0, key: view_key(args.id->0) }
            } else if method@ == "destroy"@ {
                ViewCommand::Destroy { key: view_key(args.id->0) }
            } else {
                ViewCommand::NotImplemented
            }),
    {
        match args.id {
            Some(id) => {
                if same_text(method, "create") {
                    ViewCommand::Create { id, key: key_of_view(id) }
                } else if same_text(method, "destroy") {
                    ViewCommand::Destroy { key: key_of_view(id) }
                } else {
                    ViewCommand::NotImplemented
                }
            },
            None => ViewCommand::NotImplemented,
        }
    }
}

/// The views after a request was carried out, `created` being the view that the factory made.
pub open spec fn views_after<V>(
    views: Map<u64, V>,
    command: ViewCommand,
    created: V,
) -> Map<u64, V> {
    match command {
        ViewCommand::Create { key, .. } => views.insert(key, created),
        ViewCommand::Destroy { key } => views.remove(key),
        ViewCommand::NotImplemented => views,
    }
}

/// Views with different identifiers are kept apart.
pub proof fn view_keys_differ(a: i32, b: i32)
    requires
        a != b,
    ensures
        view_key(a) != view_key(b),
{
}

/// Destroying a view that was created under a new identifier gives back the views as they were.
pub proof fn destroying_undoes_creating<V>(views: Map<u64, V>, id: i32, created: V, any: V)
    requires
        !views.contains_key(view_key(id)),
    ensures
        views_after(
            views_after(views, ViewCommand::Create { id, key: view_key(id) }, created),
            ViewCommand::Destroy { key: view_key(id) },
            any,
        ) == views,
{
    assert(views.insert(view_key(id), created).remove(view_key(id)) =~= views);
}

/// A request to create a view leads to a view under the identifier of the request, and one to
/// destroy a view takes out the view under the identifier of the request. No other method is there.
/// An identifier is kept as the number with the same residue of all 64 bits.
pub proof fn requests_are_told_apart<F>(
    handler: PlatformViewsMessageHandler<F>,
    method: &str,
    args: ViewArguments,
    command: ViewCommand,
)
    requires
        call_ensures(PlatformViewsMessageHandler::<F>::handle, (&handler, method, &args), command),
        handler.takes(method@, args),
    ensures
        command is Create <==> method@ == "create"@,
        command is Destroy <==> method@ == "destroy"@,
        command is NotImplemented <==> method@ != "create"@ && method@ != "destroy"@,
        command is Create ==> command->id == args.id->0 && (command->Create_key - args.id->0)
            % 0x1_0000_0000_0000_0000 == 0,
        command is Destroy ==> (command->Destroy_key - args.id->0) % 0x1_0000_0000_0000_0000 == 0,
{
    reveal_strlit("create");
    reveal_strlit("destroy");
    assert("create"@.len() != "destroy"@.len());
}

/// A request is taken exactly if it has what its method needs: an identifier to create or to destroy
/// a view, and to create one a type for which there is a factory.
pub proof fn requests_need_their_arguments<F>(
    handler: PlatformViewsMessageHandler<F>,
    method: &str,
    args: ViewArguments,
    type_: &str,
    accepted: bool,
    factory: Option<&F>,
)
    requires
        call_ensures(PlatformViewsMessageHandler::<F>::accepts, (&handler, method, &args), accepted),
        call_ensures(PlatformViewsMessageHandler::<F>::factory, (&handler, type_), factory),
        args.type_ is Some ==> type_@ == args.type_->0@,
    ensures
        method@ == "create"@ ==> (accepted <==> args.id is Some && args.type_ is Some
            && factory is Some),
        method@ == "destroy"@ ==> (accepted <==> args.id is Some),
        method@ != "create"@ && method@ != "destroy"@ ==> accepted,
        accepted ==> call_requires(
            PlatformViewsMessageHandler::<F>::handle,
            (&handler, method, &args),
        ),
{
    reveal_strlit("create");
    reveal_strlit("destroy");
    assert("create"@.len() != "destroy"@.len());
}

/// The factory of a type is the one that the handler was made with.
pub proof fn factories_are_kept<F>(
    factories: Registry<F>,
    handler: PlatformViewsMessageHandler<F>,
    type_: &str,
    given: Option<&F>,
    factory: Option<&F>,
)
    requires
        call_ensures(Registry::<F>::get, (&factories, type_), given),
        call_ensures(PlatformViewsMessageHandler::<F>::new, (factories,), handler),
        call_ensures(PlatformViewsMessageHandler::<F>::factory, (&handler, type_), factory),
    ensures
        factory is Some <==> given is Some,
        factory is Some ==> *factory->0 == *given->0,
{
}

/// A view that was registered is there and is the one that is taken out, once. Other views stay.
pub proof fn registered_view_is_taken_out<V>(
    views: &mut PlatformViews<V>,
    id: u64,
    view: V,
    before: &PlatformViews<V>,
    after: &PlatformViews<V>,
    other: u64,
    was_there: bool,
    is_there: bool,
)
    requires
        call_ensures(PlatformViews::<V>::register, (views, id, view), ()),
        call_ensures(PlatformViews::<V>::contains, (before, other), was_there),
        call_ensures(PlatformViews::<V>::contains, (after, other), is_there),
        *before == *old(views),
    ensures
        *after == *final(views) ==> (is_there <==> was_there || other == id),
        after@ == final(views)@ ==> after@.contains_key(id) && after@[id] == view,
{
}

/// The view that is taken out is the one with the identifier, if there is one, and only that one
/// is no longer there.
pub proof fn only_that_view_is_taken_out<V>(
    views: &mut PlatformViews<V>,
    id: u64,
    taken: Option<V>,
    before: &PlatformViews<V>,
    after: &PlatformViews<V>,
    other: u64,
    was_there: bool,
    is_there: bool,
)
    requires
        call_ensures(PlatformViews::<V>::remove, (views, id), taken),
        call_ensures(PlatformViews::<V>::contains, (before, other), was_there),
        call_ensures(PlatformViews::<V>::contains, (after, other), is_there),
        *before == *old(views),
    ensures
        *after == *final(views) ==> (is_there <==> was_there && other != id),
        other == id ==> (taken is Some <==> was_there),
        taken is Some ==> taken->0 == old(views)@[id],
        *after == *final(views) && is_there ==> after@[other] == before@[other],
{
}

/// An identifier that is not negative is kept as it is, and a negative one as the number that
/// completes it to all 64 bits.
pub proof fn identifiers_keep_their_bits(id: i32, key: u64)
    requires
        call_ensures(key_of_view, (id,), key),
    ensures
        id >= 0 ==> key == id,
        id < 0 ==> key - id == 0x1_0000_0000_0000_0000,
{
}

/// A view that is changed in place is the one with the identifier, and no other view changes.
pub proof fn only_that_view_is_changed<V>(
    views: &mut PlatformViews<V>,
    id: u64,
    res: Option<&mut V>,
    other: u64,
)
    requires
        call_ensures(PlatformViews::<V>::get_mut, (views, id), res),
    ensures
        res is Some <==> old(views)@.contains_key(id),
        res is Some ==> *res->0 == old(views)@[id] && final(views)@[id] == *final(res->0),
        final(views)@.contains_key(other) <==> old(views)@.contains_key(other),
        other != id && old(views)@.contains_key(other) ==> final(views)@[other]
            == old(views)@[other],
{
}

} // verus!
