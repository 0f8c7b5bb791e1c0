//! The surfaces of the views that the engine draws to.
use std::collections::BTreeMap;
use vstd::prelude::*;

verus! {

broadcast use vstd::std_specs::btree::group_btree_axioms;

/// Calls `BTreeMap::get_mut`: the value under the key, to be changed in place, or nothing where
/// the key is not in the map.
#[verifier::external_body]
fn surface_mut<V>(map: &mut BTreeMap<i64, V>, view_id: i64) -> (res: Option<&mut V>)
    ensures
        match res {
            Some(surface) => {
                &&& old(map)@.contains_key(view_id)
                &&& *surface == old(map)@[view_id]
                &&& final(map)@ == old(map)@.insert(view_id, *final(surface))
            },
            None => !old(map)@.contains_key(view_id) && final(map)@ == old(map)@,
        },
{
    map.get_mut(&view_id)
}

/// The surface of a view: its size, whether it is being resized, and the visual at its root.
pub struct ViewSurface<V> {
    width: u32,
    height: u32,
    is_resizing: bool,
    root_visual: V,
}

/// The model of a [`ViewSurface`].
pub struct SurfaceView<V> {
    pub width: u32,
    pub height: u32,
    pub is_resizing: bool,
    pub root_visual: V,
}

impl<V> View for ViewSurface<V> {
    type V = SurfaceView<V>;

    closed spec fn view(&self) -> SurfaceView<V> {
        SurfaceView {
            width: self.width,
            height: self.height,
            is_resizing: self.is_resizing,
            root_visual: self.root_visual,
        }
    }
}

impl<V> ViewSurface<V> {
    /// The size of the surface.
    pub fn size(&self) -> (res: (u32, u32))
        ensures
            res == (self@.width, self@.height),
    {
        (self.width, self.height)
    }

    /// Gives the surface a new size. It is being resized from now on.
    pub fn begin_resize(&mut self, width: u32, height: u32)
        ensures
            final(self)@ == (SurfaceView { width, height, is_resizing: true, ..old(self)@ }),
    {
        self.width = width;
        self.height = height;
        self.is_resizing = true;
    }

    /// The surface is no longer being resized.
    pub fn end_resize(&mut self)
        ensures
            final(self)@ == (SurfaceView { is_resizing: false, ..old(self)@ }),
    {
        self.is_resizing = false;
    }

    /// Whether the surface is being resized.
    pub fn is_resizing(&self) -> (res: bool)
        ensures
            res == self@.is_resizing,
    {
        self.is_resizing
    }

    /// The visual at the root of the surface.
    pub fn root_visual(&self) -> (res: &V)
        ensures
            *res == self@.root_visual,
    {
        &self.root_visual
    }
}

/// The surfaces of all views, each under the identifier of its view.
pub struct ViewManager<V> {
    views: BTreeMap<i64, ViewSurface<V>>,
}

impl<V> View for ViewManager<V> {
    type V = Map<i64, ViewSurface<V>>;

    closed spec fn view(&self) -> Map<i64, ViewSurface<V>> {
        self.views@
    }
}

impl<V> ViewManager<V> {
    /// No views.
    pub fn new() -> (res: ViewManager<V>)
        ensures
            res@ == Map::<i64, ViewSurface<V>>::empty(),
    {
        ViewManager { views: BTreeMap::new() }
    }

    /// Gives a view an empty surface with this visual at its root, in the place of one that it had.
    pub fn insert(&mut self, view_id: i64, visual: V)
        ensures
            final(self)@.contains_key(view_id),
            final(self)@ == old(self)@.insert(view_id, final(self)@[view_id]),
            final(self)@[view_id]@ == (SurfaceView {
                width: 0,
                height: 0,
                is_resizing: false,
                root_visual: visual,
            }),
    {
        let surface = ViewSurface { width: 0, height: 0, is_resizing: false, root_visual: visual };
        self.views.insert(view_id, surface);
    }

    /// The surface of a view.
    pub fn get(&self, view_id: i64) -> (res: Option<&ViewSurface<V>>)
        ensures
            match res {
                Some(surface) => self@.contains_key(view_id) && *surface == self@[view_id],
                None => !self@.contains_key(view_id),
            },
    {
        self.views.get(&view_id)
    }

    /// The surface of a view, to be changed.
    pub fn get_mut(&mut self, view_id: i64) -> (res: Option<&mut ViewSurface<V>>)
        ensures
            match res {
                Some(surface) => {
                    &&& old(self)@.contains_key(view_id)
                    &&& *surface == old(self)@[view_id]
                    &&& final(self)@ == old(self)@.insert(view_id, *final(surface))
                },
                None => !old(self)@.contains_key(view_id) && final(self)@ == old(self)@,
            },
    {
        surface_mut(&mut self.views, view_id)
    }
}

/// A surface has the size that a resize gave it, and is being resized until the end of the resize,
/// which leaves the size as it is. The visual at its root stays.
pub proof fn resized_surface_has_its_size<V>(
    surface: &mut ViewSurface<V>,
    width: u32,
    height: u32,
    resized: &ViewSurface<V>,
    size: (u32, u32),
    is_resizing: bool,
    visual: &V,
    ended: &mut ViewSurface<V>,
    after: &ViewSurface<V>,
    size_after: (u32, u32),
    is_resizing_after: bool,
    visual_after: &V,
)
    requires
        call_ensures(ViewSurface::<V>::begin_resize, (surface, width, height), ()),
        call_ensures(ViewSurface::<V>::size, (resized,), size),
        call_ensures(ViewSurface::<V>::is_resizing, (resized,), is_resizing),
        call_ensures(ViewSurface::<V>::root_visual, (resized,), visual),
        call_ensures(ViewSurface::<V>::end_resize, (ended,), ()),
        *old(ended) == *resized,
        call_ensures(ViewSurface::<V>::size, (after,), size_after),
        call_ensures(ViewSurface::<V>::is_resizing, (after,), is_resizing_after),
        call_ensures(ViewSurface::<V>::root_visual, (after,), visual_after),
    ensures
        *resized == *final(surface) ==> size == (width, height) && is_resizing && *visual
            == old(surface)@.root_visual,
        *after == *final(ended) ==> size_after == size && !is_resizing_after && *visual_after
            == *visual,
{
}

/// A view that was put in has an empty surface with its own visual at the root. Other views keep
/// their surfaces.
pub proof fn new_view_has_an_empty_surface<V>(
    views: &mut ViewManager<V>,
    view_id: i64,
    visual: V,
    before: &ViewManager<V>,
    after: &ViewManager<V>,
    other: i64,
    found_before: Option<&ViewSurface<V>>,
    found: Option<&ViewSurface<V>>,
    size: (u32, u32),
    is_resizing: bool,
    root: &V,
)
    requires
        call_ensures(ViewManager::<V>::insert, (views, view_id, visual), ()),
        call_ensures(ViewManager::<V>::get, (before, other), found_before),
        call_ensures(ViewManager::<V>::get, (after, other), found),
        *before == *old(views),
        found is Some ==> {
            &&& call_ensures(ViewSurface::<V>::size, (found->0,), size)
            &&& call_ensures(ViewSurface::<V>::is_resizing, (found->0,), is_resizing)
            &&& call_ensures(ViewSurface::<V>::root_visual, (found->0,), root)
        },
    ensures
        *after == *final(views) ==> {
            &&& other == view_id ==> found is Some && size == (0u32, 0u32) && !is_resizing && *root
                == visual
            &&& other != view_id ==> (found is Some <==> found_before is Some)
            &&& other != view_id && found is Some ==> *found->0 == *found_before->0
        },
{
}

/// There are no views at the start.
pub proof fn there_are_no_views_at_the_start<V>(
    views: ViewManager<V>,
    view_id: i64,
    found: Option<&ViewSurface<V>>,
)
    requires
        call_ensures(ViewManager::<V>::new, (), views),
        call_ensures(ViewManager::<V>::get, (&views, view_id), found),
    ensures
        found is None,
{
}

/// A surface that is changed in place is the one of the view, and no other surface changes.
pub proof fn only_that_surface_is_changed<V>(
    views: &mut ViewManager<V>,
    view_id: i64,
    res: Option<&mut ViewSurface<V>>,
    other: i64,
)
    requires
        call_ensures(ViewManager::<V>::get_mut, (views, view_id), res),
    ensures
        res is Some <==> old(views)@.contains_key(view_id),
        res is Some ==> *res->0 == old(views)@[view_id],
        res is Some ==> final(views)@[view_id] == *final(res->0),
        final(views)@.contains_key(other) <==> old(views)@.contains_key(other),
        other != view_id && old(views)@.contains_key(other) ==> final(views)@[other]
            == old(views)@[other],
{
}

} // verus!
