//! The composition of a frame from the layers that the engine draws and the views of the platform.
//!
//! [`FlutterCompositor::present_layers`] says which steps put a frame on the screen. The caller
//! performs them one by one and reports each with [`FlutterCompositor::complete`], until the last
//! one or the first that fails.
use crate::platform_views::PlatformViews;
use std::collections::BTreeSet;
use vstd::prelude::*;

verus! {

broadcast use vstd::std_specs::btree::group_btree_axioms;

/// The pixel format of the surfaces that the engine draws to: 8 bits each of blue, green, red
/// and alpha.
pub const GL_BGRA8_EXT: u32 = 0x93A1;

/// A layer of the composition.
#[derive(Clone, Copy, Debug, PartialEq, Eq, Structural)]
pub enum LayerId {
    /// The layer of a backing store.
    FlutterLayer(u64),
    /// A view of the platform.
    PlatformView(u64),
}

/// A layer of a frame, as the engine hands it over.
#[derive(Clone, Copy, Debug, PartialEq, Eq, Structural)]
pub enum FrameLayer {
    /// A backing store, by its identifier.
    BackingStore(u64),
    /// A view of the platform, by its identifier.
    PlatformView(i64),
    /// A layer of a type that is not known.
    Other(i32),
}

/// One step of presenting a frame.
#[derive(Clone, Copy, Debug, PartialEq, Eq, Structural)]
pub enum PresentStep {
    /// Present the swap chain of this backing store.
    PresentSwapchain(u64),
    /// Tell this view the place of the layer with this index.
    UpdatePlatformView { id: u64, layer: usize },
    /// Report that there is no view with this identifier.
    ReportMissingView(u64),
    /// Report that there is no such type of layer.
    ReportInvalidLayer(i32),
    /// Fail, since a view cannot have this identifier.
    Fail(i64),
    /// Wait until all that was drawn so far is on the surfaces.
    Flush,
    /// Take all visuals out of the composition.
    ClearVisuals,
    /// Put the visual of this backing store on top of the composition.
    InsertFlutterVisual(u64),
    /// Put the visual of this view on top of the composition.
    InsertPlatformVisual(u64),
    /// Commit the composition.
    Commit,
}

/// The swap chain behind a backing store.
#[derive(Clone, Copy, Debug, PartialEq, Eq, Structural)]
pub struct SwapChainDescription {
    pub width: u32,
    pub height: u32,
    pub sample_count: u32,
    pub sample_quality: u32,
    pub buffer_count: u32,
    /// The format in which the engine draws.
    pub gl_format: u32,
}

/// An affine map of the plane: `x' = scale_x * x + skew_x * y + trans_x` and
/// `y' = skew_y * x + scale_y * y + trans_y`.
#[derive(Clone, Copy, Debug, PartialEq, Eq, Structural)]
pub struct SurfaceTransformation {
    pub scale_x: i64,
    pub skew_x: i64,
    pub trans_x: i64,
    pub skew_y: i64,
    pub scale_y: i64,
    pub trans_y: i64,
    pub pers_2: i64,
}

impl SurfaceTransformation {
    /// Where the point goes.
    pub open spec fn apply(self, x: int, y: int) -> (int, int) {
        (
            self.scale_x * x + self.skew_x * y + self.trans_x,
            self.skew_y * x + self.scale_y * y + self.trans_y,
        )
    }
}

/// The map that turns a surface of this height upside down.
pub open spec fn flip(height: u32) -> SurfaceTransformation {
    SurfaceTransformation {
        scale_x: 1,
        skew_x: 0,
        trans_x: 0,
        skew_y: 0,
        scale_y: -1i64,
        trans_y: height as i64,
        pers_2: 1,
    }
}

/// The map that leaves every point where it is.
pub open spec fn identity() -> SurfaceTransformation {
    SurfaceTransformation {
        scale_x: 1,
        skew_x: 0,
        trans_x: 0,
        skew_y: 0,
        scale_y: 1,
        trans_y: 0,
        pers_2: 1,
    }
}

/// The layers of the composition, from the bottom, and the backing stores that were not
/// presented yet.
#[verifier::ext_equal]
pub struct CompositorView {
    pub layers: Seq<LayerId>,
    pub fresh: Set<u64>,
}

/// Whether the layer names a view by an identifier that no view can have.
pub open spec fn is_bad(layer: FrameLayer) -> bool {
    layer matches FrameLayer::PlatformView(id) && id < 0
}

/// How many layers there are before the first bad one.
pub open spec fn good_layers(layers: Seq<FrameLayer>) -> nat
    decreases layers.len(),
{
    if layers.len() == 0 || is_bad(layers[0]) {
        0
    } else {
        1 + good_layers(layers.skip(1))
    }
}

/// The step that a layer of a frame calls for.
pub open spec fn visit_step(layer: FrameLayer, i: int, views: Set<u64>) -> PresentStep {
    match layer {
        FrameLayer::BackingStore(id) => PresentStep::PresentSwapchain(id),
        FrameLayer::PlatformView(id) => if views.contains(id as u64) {
            PresentStep::UpdatePlatformView { id: id as u64, layer: i as usize }
        } else {
            PresentStep::ReportMissingView(id as u64)
        },
        FrameLayer::Other(type_) => PresentStep::ReportInvalidLayer(type_),
    }
}

/// The steps that the first layers of a frame call for.
pub open spec fn visit_steps(layers: Seq<FrameLayer>, n: nat, views: Set<u64>) -> Seq<PresentStep> {
    Seq::new(n, |i: int| visit_step(layers[i], i, views))
}

/// The step that puts a layer into the composition.
pub open spec fn insert_step(layer: FrameLayer, views: Set<u64>) -> PresentStep {
    match layer {
        FrameLayer::BackingStore(id) => PresentStep::InsertFlutterVisual(id),
        FrameLayer::PlatformView(id) => if views.contains(id as u64) {
            PresentStep::InsertPlatformVisual(id as u64)
        } else {
            PresentStep::ReportMissingView(id as u64)
        },
        FrameLayer::Other(type_) => PresentStep::ReportInvalidLayer(type_),
    }
}

/// The steps that put the layers into the composition.
pub open spec fn insert_steps(layers: Seq<FrameLayer>, views: Set<u64>) -> Seq<PresentStep> {
    Seq::new(layers.len(), |i: int| insert_step(layers[i], views))
}

impl CompositorView {
    /// Whether the composition has to be put together anew: layers were added or removed, or a
    /// backing store is not where it was.
    pub open spec fn must_update(self, layers: Seq<FrameLayer>) -> bool {
        ||| self.layers.len() != layers.len()
        ||| exists|i: int|
            0 <= i < layers.len() && self.is_misplaced(#[trigger] layers[i], i)
    }

    /// Whether the layer is a backing store that the composition does not have at this place.
    pub open spec fn is_misplaced(self, layer: FrameLayer, i: int) -> bool {
        layer matches FrameLayer::BackingStore(id) && self.layers[i] != LayerId::FlutterLayer(id)
    }

    /// Whether a backing store is presented for the first time.
    pub open spec fn must_flush(self, layers: Seq<FrameLayer>) -> bool {
        exists|i: int| 0 <= i < layers.len() && self.is_fresh(#[trigger] layers[i])
    }

    /// Whether the layer is a backing store that was not presented yet.
    pub open spec fn is_fresh(self, layer: FrameLayer) -> bool {
        layer matches FrameLayer::BackingStore(id) && self.fresh.contains(id)
    }

    /// The steps of presenting a frame. `views` are the views that there are.
    pub open spec fn plan(self, layers: Seq<FrameLayer>, views: Set<u64>) -> Seq<PresentStep> {
        let n = good_layers(layers);
        if n < layers.len() {
            visit_steps(layers, n, views).push(PresentStep::Fail(layers[n as int]->PlatformView_0))
        } else {
            let flush = if self.must_flush(layers) {
                seq![PresentStep::Flush]
            } else {
                seq![]
            };
            let update = if self.must_update(layers) {
                seq![PresentStep::ClearVisuals] + insert_steps(layers, views)
            } else {
                seq![]
            };
            visit_steps(layers, n, views) + flush + update + seq![PresentStep::Commit]
        }
    }

    /// Whether the frame can be presented: where the composition is put together anew, the type
    /// of every layer is known.
    pub open spec fn takes(self, layers: Seq<FrameLayer>) -> bool {
        good_layers(layers) == layers.len() && self.must_update(layers) ==> forall|i: int|
            0 <= i < layers.len() ==> !((#[trigger] layers[i]) is Other)
    }

    /// The compositor after a step was performed.
    pub open spec fn after(self, step: PresentStep) -> CompositorView {
        match step {
            PresentStep::PresentSwapchain(id) => CompositorView {
                fresh: self.fresh.remove(id),
                ..self
            },
            PresentStep::ClearVisuals => CompositorView { layers: seq![], ..self },
            PresentStep::InsertFlutterVisual(id) => CompositorView {
                layers: self.layers.push(LayerId::FlutterLayer(id)),
                ..self
            },
            PresentStep::InsertPlatformVisual(id) => CompositorView {
                layers: self.layers.push(LayerId::PlatformView(id)),
                ..self
            },
            _ => self,
        }
    }

    /// The compositor after some steps were performed, one after the other.
    pub open spec fn after_all(self, steps: Seq<PresentStep>) -> CompositorView
        decreases steps.len(),
    {
        if steps.len() == 0 {
            self
        } else {
            self.after_all(steps.drop_last()).after(steps.last())
        }
    }
}

/// The state of the composition.
pub struct FlutterCompositor {
    layers: Vec<LayerId>,
    fresh: BTreeSet<u64>,
}

impl View for FlutterCompositor {
    type V = CompositorView;

    closed spec fn view(&self) -> CompositorView {
        CompositorView { layers: self.layers@, fresh: self.fresh@ }
    }
}

impl FlutterCompositor {
    /// A composition without layers.
    pub fn new() -> (res: FlutterCompositor)
        ensures
            res@ == (CompositorView { layers: seq![], fresh: Set::empty() }),
    {
        let res = FlutterCompositor { layers: Vec::new(), fresh: BTreeSet::new() };
        assert(res@ =~= (CompositorView { layers: seq![], fresh: Set::empty() }));
        res
    }

    /// The map from the coordinates of the engine to those of a surface of this height.
    pub fn get_surface_transformation(height: u32) -> (res: SurfaceTransformation)
        ensures
            res == flip(height),
    {
        SurfaceTransformation {
            scale_x: 1,
            skew_x: 0,
            trans_x: 0,
            skew_y: 0,
            scale_y: -1,
            trans_y: height as i64,
            pers_2: 1,
        }
    }

    /// The map for the engine: the one that was found, or one that leaves every point where it is.
    pub fn transformation_or_identity(found: Option<SurfaceTransformation>) -> (res:
        SurfaceTransformation)
        ensures
            match found {
                Some(transformation) => res == transformation,
                None => res == identity(),
            },
    {
        match found {
            Some(transformation) => transformation,
            None => SurfaceTransformation {
                scale_x: 1,
                skew_x: 0,
                trans_x: 0,
                skew_y: 0,
                scale_y: 1,
                trans_y: 0,
                pers_2: 1,
            },
        }
    }

    /// Takes in a new backing store of this size, and says what swap chain it needs.
    pub fn create_backing_store(&mut self, id: u64, width: u32, height: u32) -> (res:
        SwapChainDescription)
        ensures
            final(self)@ == (CompositorView {
                fresh: old(self)@.fresh.insert(id),
                ..old(self)@
            }),
            res == (SwapChainDescription {
                width,
                height,
                sample_count: 1,
                sample_quality: 0,
                buffer_count: 2,
                gl_format: GL_BGRA8_EXT,
            }),
    {
        self.fresh.insert(id);
        SwapChainDescription {
            width,
            height,
            sample_count: 1,
            sample_quality: 0,
            buffer_count: 2,
            gl_format: GL_BGRA8_EXT,
        }
    }

    /// Lets go of a backing store.
    pub fn collect_backing_store(&mut self, id: u64)
        ensures
            final(self)@ == (CompositorView {
                fresh: old(self)@.fresh.remove(id),
                ..old(self)@
            }),
    {
        self.fresh.remove(&id);
        assert(final(self)@.fresh =~= old(self)@.fresh.remove(id));
    }

    /// Whether the layer is a backing store that the composition does not have at this place.
    fn is_misplaced(&self, layer: FrameLayer, i: usize) -> (res: bool)
        requires
            i < self@.layers.len(),
        ensures
            res == self@.is_misplaced(layer, i as int),
    {
        match layer {
            FrameLayer::BackingStore(id) => self.layers[i] != LayerId::FlutterLayer(id),
            _ => false,
        }
    }

    /// Whether the composition has to be put together anew.
    fn must_update(&self, layers: &Vec<FrameLayer>) -> (res: bool)
        ensures
            res == self@.must_update(layers@),
    {
        if self.layers.len() != layers.len() {
            return true;
        }
        let mut i: usize = 0;
        while i < layers.len()
            invariant
                i <= layers@.len(),
                self@.layers.len() == layers@.len(),
                forall|j: int| 0 <= j < i ==> !self@.is_misplaced(#[trigger] layers@[j], j),
            decreases layers@.len() - i,
        {
            if self.is_misplaced(layers[i], i) {
                assert(self@.is_misplaced(layers@[i as int], i as int));
                return true;
            }
            i += 1;
        }
        false
    }

    /// Whether the frame can be presented.
    pub fn accepts(&self, layers: &Vec<FrameLayer>) -> (res: bool)
        ensures
            res == self@.takes(layers@),
    {
        let mut unknown = false;
        let mut i: usize = 0;
        proof {
            lemma_good_layers(layers@);
        }
        while i < layers.len()
            invariant
                i <= layers@.len(),
                good_layers(layers@) <= layers@.len(),
                forall|j: int| 0 <= j < good_layers(layers@) ==> !is_bad(#[trigger] layers@[j]),
                good_layers(layers@) < layers@.len() ==> is_bad(
                    layers@[good_layers(layers@) as int],
                ),
                good_layers(layers@) >= i,
                unknown == exists|j: int| 0 <= j < i && (#[trigger] layers@[j]) is Other,
            decreases layers@.len() - i,
        {
            match layers[i] {
                FrameLayer::PlatformView(id) => if id < 0 {
                    return true;
                },
                FrameLayer::Other(_) => {
                    unknown = true;
                    assert(layers@[i as int] is Other);
                },
                FrameLayer::BackingStore(_) => {},
            }
            i += 1;
        }
        !unknown || !self.must_update(layers)
    }

    /// The steps of presenting a frame.
    pub fn present_layers<V>(&self, layers: &Vec<FrameLayer>, views: &PlatformViews<V>) -> (res:
        Vec<PresentStep>)
        requires
            self@.takes(layers@),
        ensures
            res@ == self@.plan(layers@, views@.dom()),
    {
        let mut steps: Vec<PresentStep> = Vec::new();
        let mut should_flush = false;
        let ghost known = views@.dom();
        let mut i: usize = 0;
        proof {
            lemma_good_layers(layers@);
        }
        while i < layers.len()
            invariant
                i <= layers@.len(),
                known == views@.dom(),
                good_layers(layers@) <= layers@.len(),
                forall|j: int| 0 <= j < good_layers(layers@) ==> !is_bad(#[trigger] layers@[j]),
                good_layers(layers@) < layers@.len() ==> is_bad(
                    layers@[good_layers(layers@) as int],
                ),
                good_layers(layers@) >= i,
                steps@ == visit_steps(layers@, i as nat, known),
                should_flush == exists|j: int| 0 <= j < i && self@.is_fresh(#[trigger] layers@[j]),
            decreases layers@.len() - i,
        {
            match layers[i] {
                FrameLayer::BackingStore(id) => {
                    let is_fresh = self.fresh.contains(&id);
                    assert(is_fresh == self@.is_fresh(layers@[i as int]));
                    steps.push(PresentStep::PresentSwapchain(id));
                    should_flush = should_flush || is_fresh;
                },
                FrameLayer::PlatformView(identifier) => {
                    if identifier < 0 {
                        steps.push(PresentStep::Fail(identifier));
                        return steps;
                    }
                    let id: u64 = identifier as u64;
                    if views.contains(id) {
                        steps.push(PresentStep::UpdatePlatformView { id, layer: i });
                    } else {
                        steps.push(PresentStep::ReportMissingView(id));
                    }
                },
                FrameLayer::Other(type_) => {
                    steps.push(PresentStep::ReportInvalidLayer(type_));
                },
            }
            assert(steps@ =~= visit_steps(layers@, (i + 1) as nat, known));
            i += 1;
        }
        assert(should_flush == self@.must_flush(layers@));
        if should_flush {
            steps.push(PresentStep::Flush);
        }
        let ghost flushed = steps@;
        let should_update = self.must_update(layers);
        if should_update {
            steps.push(PresentStep::ClearVisuals);
            self.push_insert_steps(layers, views, &mut steps);
            assert(steps@ =~= flushed + (seq![PresentStep::ClearVisuals] + insert_steps(
                layers@,
                known,
            )));
        }
        steps.push(PresentStep::Commit);
        assert(steps@ =~= self@.plan(layers@, known));
        steps
    }

    /// The steps that put the layers into the composition, behind the steps that there are.
    fn push_insert_steps<V>(
        &self,
        layers: &Vec<FrameLayer>,
        views: &PlatformViews<V>,
        steps: &mut Vec<PresentStep>,
    )
        requires
            forall|i: int| 0 <= i < layers@.len() ==> !is_bad(#[trigger] layers@[i]),
        ensures
            final(steps)@ == old(steps)@ + insert_steps(layers@, views@.dom()),
    {
        let ghost known = views@.dom();
        let mut i: usize = 0;
        while i < layers.len()
            invariant
                i <= layers@.len(),
                known == views@.dom(),
                forall|j: int| 0 <= j < layers@.len() ==> !is_bad(#[trigger] layers@[j]),
                steps@ == old(steps)@ + insert_steps(layers@.take(i as int), known),
            decreases layers@.len() - i,
        {
            assert(!is_bad(layers@[i as int]));
            match layers[i] {
                FrameLayer::BackingStore(id) => {
                    steps.push(PresentStep::InsertFlutterVisual(id));
                },
                FrameLayer::PlatformView(identifier) => {
                    let id: u64 = identifier as u64;
                    if views.contains(id) {
                        steps.push(PresentStep::InsertPlatformVisual(id));
                    } else {
                        steps.push(PresentStep::ReportMissingView(id));
                    }
                },
                FrameLayer::Other(type_) => {
                    steps.push(PresentStep::ReportInvalidLayer(type_));
                },
            }
            assert(steps@ =~= old(steps)@ + insert_steps(layers@.take(i + 1), known));
            i += 1;
        }
        assert(layers@.take(i as int) =~= layers@);
    }

    /// Takes note of a step that was performed.
    pub fn complete(&mut self, step: PresentStep)
        ensures
            final(self)@ == old(self)@.after(step),
    {
        match step {
            PresentStep::PresentSwapchain(id) => {
                self.fresh.remove(&id);
                assert(final(self)@.fresh =~= old(self)@.fresh.remove(id));
            },
            PresentStep::ClearVisuals => {
                self.layers.clear();
                assert(final(self)@.layers =~= seq![]);
            },
            PresentStep::InsertFlutterVisual(id) => {
                self.layers.push(LayerId::FlutterLayer(id));
            },
            PresentStep::InsertPlatformVisual(id) => {
                self.layers.push(LayerId::PlatformView(id));
            },
            _ => {},
        }
    }
}

/// The good layers are those before the first bad one.
proof fn lemma_good_layers(layers: Seq<FrameLayer>)
    ensures
        good_layers(layers) <= layers.len(),
        forall|i: int| 0 <= i < good_layers(layers) ==> !is_bad(#[trigger] layers[i]),
        good_layers(layers) < layers.len() ==> is_bad(layers[good_layers(layers) as int]),
    decreases layers.len(),
{
    if layers.len() > 0 && !is_bad(layers[0]) {
        let rest = layers.skip(1);
        lemma_good_layers(rest);
        assert forall|i: int| 0 <= i < good_layers(layers) implies !is_bad(#[trigger] layers[i]) by {
            if i > 0 {
                assert(rest[i - 1] == layers[i]);
            }
        }
        if good_layers(layers) < layers.len() {
            assert(rest[good_layers(rest) as int] == layers[good_layers(layers) as int]);
        }
    }
}

/// The layers of the composition that a frame asks for, from the bottom: its backing stores and
/// those of its views that there are.
pub open spec fn shown(layers: Seq<FrameLayer>, views: Set<u64>) -> Seq<LayerId>
    decreases layers.len(),
{
    if layers.len() == 0 {
        Seq::empty()
    } else {
        match layers.last() {
            FrameLayer::BackingStore(id) => shown(layers.drop_last(), views).push(
                LayerId::FlutterLayer(id),
            ),
            FrameLayer::PlatformView(id) => if views.contains(id as u64) {
                shown(layers.drop_last(), views).push(LayerId::PlatformView(id as u64))
            } else {
                shown(layers.drop_last(), views)
            },
            FrameLayer::Other(_) => shown(layers.drop_last(), views),
        }
    }
}

/// Whether every view of the frame is there, and every layer has a type that is known.
pub open spec fn is_complete(layers: Seq<FrameLayer>, views: Set<u64>) -> bool {
    forall|i: int|
        0 <= i < layers.len() ==> match #[trigger] layers[i] {
            FrameLayer::BackingStore(_) => true,
            FrameLayer::PlatformView(id) => id >= 0 && views.contains(id as u64),
            FrameLayer::Other(_) => false,
        }
}

/// A frame that is presented to its end leaves in the composition the layers it asks for where
/// the composition was put together anew, and else the layers that were there. None of its
/// backing stores is new any longer, and all others stay what they were.
pub proof fn presented_frame(
    compositor: CompositorView,
    layers: Seq<FrameLayer>,
    views: Set<u64>,
)
    requires
        compositor.takes(layers),
        good_layers(layers) == layers.len(),
    ensures
        compositor.after_all(compositor.plan(layers, views)).layers == (if compositor.must_update(
            layers,
        ) {
            shown(layers, views)
        } else {
            compositor.layers
        }),
        forall|id: u64| #[trigger]
            compositor.after_all(compositor.plan(layers, views)).fresh.contains(id) == (
            compositor.fresh.contains(id) && !layers.contains(FrameLayer::BackingStore(id))),
{
    let n = good_layers(layers);
    let flush = if compositor.must_flush(layers) {
        seq![PresentStep::Flush]
    } else {
        seq![]
    };
    let update = if compositor.must_update(layers) {
        seq![PresentStep::ClearVisuals] + insert_steps(layers, views)
    } else {
        seq![]
    };
    let visit = visit_steps(layers, n, views);
    let visited = compositor.after_all(visit);
    let flushed = visited.after_all(flush);
    let updated = flushed.after_all(update);
    lemma_after_all(compositor, visit, flush);
    lemma_after_all(compositor, visit + flush, update);
    lemma_after_all(compositor, visit + flush + update, seq![PresentStep::Commit]);
    lemma_visited(compositor, layers, n, views);
    reveal_with_fuel(CompositorView::after_all, 2);
    assert(flushed == visited) by {
        if compositor.must_flush(layers) {
            assert(flush.drop_last() =~= seq![]);
        }
    }
    assert(updated.after_all(seq![PresentStep::Commit]) == updated) by {
        assert(seq![PresentStep::Commit].drop_last() =~= seq![]);
    }
    if compositor.must_update(layers) {
        let clear = seq![PresentStep::ClearVisuals];
        lemma_after_all(flushed, clear, insert_steps(layers, views));
        assert(clear.drop_last() =~= seq![]);
        lemma_inserted(flushed.after(PresentStep::ClearVisuals), layers, views);
        assert(seq![] + shown(layers, views) =~= shown(layers, views));
    }
    assert forall|id: u64| #[trigger] updated.fresh.contains(id) == (compositor.fresh.contains(id)
        && !layers.contains(FrameLayer::BackingStore(id))) by {
        assert(layers.take(n as int) =~= layers);
    }
}

/// After a frame whose views are all there, the composition has as many layers as the frame, and
/// every backing store of the frame at its place.
pub proof fn backing_stores_are_in_place(
    compositor: CompositorView,
    layers: Seq<FrameLayer>,
    views: Set<u64>,
)
    requires
        is_complete(layers, views),
    ensures
        compositor.takes(layers),
        good_layers(layers) == layers.len(),
        compositor.after_all(compositor.plan(layers, views)).layers.len() == layers.len(),
        forall|i: int|
            0 <= i < layers.len() ==> !compositor.after_all(
                compositor.plan(layers, views),
            ).is_misplaced(#[trigger] layers[i], i),
{
    lemma_good_layers(layers);
    assert(good_layers(layers) == layers.len());
    presented_frame(compositor, layers, views);
    lemma_shown(layers, views);
}

/// Presenting the same frame again only presents its swap chains, updates its views, and
/// commits: nothing is waited for, and the composition is not put together anew.
pub proof fn same_frame_again(compositor: CompositorView, layers: Seq<FrameLayer>, views: Set<u64>)
    requires
        is_complete(layers, views),
    ensures
        compositor.after_all(compositor.plan(layers, views)).plan(layers, views) == visit_steps(
            layers,
            layers.len(),
            views,
        ).push(PresentStep::Commit),
{
    backing_stores_are_in_place(compositor, layers, views);
    presented_frame(compositor, layers, views);
    let after = compositor.after_all(compositor.plan(layers, views));
    assert(!after.must_update(layers));
    assert(!after.must_flush(layers)) by {
        assert forall|i: int| 0 <= i < layers.len() implies !after.is_fresh(#[trigger] layers[i]) by {
            if layers[i] is BackingStore {
                let id = layers[i]->BackingStore_0;
                assert(layers.contains(FrameLayer::BackingStore(id)));
                assert(after.fresh.contains(id) == (compositor.fresh.contains(id)
                    && !layers.contains(FrameLayer::BackingStore(id))));
            }
        }
    }
    assert(after.plan(layers, views) =~= visit_steps(layers, layers.len(), views).push(
        PresentStep::Commit,
    ));
}

/// A frame that names a view which cannot be is not committed, and leaves the layers of the
/// composition as they were.
pub proof fn failed_frame_changes_no_layer(
    compositor: CompositorView,
    layers: Seq<FrameLayer>,
    views: Set<u64>,
)
    requires
        good_layers(layers) != layers.len(),
    ensures
        compositor.plan(layers, views).last() is Fail,
        !compositor.plan(layers, views).contains(PresentStep::Commit),
        compositor.after_all(compositor.plan(layers, views)).layers == compositor.layers,
{
    lemma_good_layers(layers);
    let n = good_layers(layers);
    lemma_visited(compositor, layers, n, views);
    let plan = compositor.plan(layers, views);
    assert(plan.drop_last() =~= visit_steps(layers, n, views));
}

/// Turning a surface upside down twice gives every point back.
pub proof fn flipping_twice(height: u32, x: int, y: int)
    ensures
        flip(height).apply(flip(height).apply(x, y).0, flip(height).apply(x, y).1) == (x, y),
        flip(height).apply(x, y) == (x, height - y),
{
}

/// Steps that are performed in two parts.
proof fn lemma_after_all(compositor: CompositorView, a: Seq<PresentStep>, b: Seq<PresentStep>)
    ensures
        compositor.after_all(a + b) == compositor.after_all(a).after_all(b),
    decreases b.len(),
{
    if b.len() == 0 {
        assert(a + b =~= a);
    } else {
        assert((a + b).drop_last() =~= a + b.drop_last());
        lemma_after_all(compositor, a, b.drop_last());
    }
}

/// What visiting the layers does.
proof fn lemma_visited(
    compositor: CompositorView,
    layers: Seq<FrameLayer>,
    n: nat,
    views: Set<u64>,
)
    requires
        n <= layers.len(),
    ensures
        compositor.after_all(visit_steps(layers, n, views)).layers == compositor.layers,
        forall|id: u64| #[trigger]
            compositor.after_all(visit_steps(layers, n, views)).fresh.contains(id) == (
            compositor.fresh.contains(id) && !layers.take(n as int).contains(
                FrameLayer::BackingStore(id),
            )),
    decreases n,
{
    let steps = visit_steps(layers, n, views);
    if n > 0 {
        let m = (n - 1) as nat;
        assert(steps.drop_last() =~= visit_steps(layers, m, views));
        lemma_visited(compositor, layers, m, views);
        let before = compositor.after_all(visit_steps(layers, m, views));
        let after = compositor.after_all(steps);
        assert(after == before.after(visit_step(layers[m as int], m as int, views)));
        assert(layers.take(n as int) =~= layers.take(m as int).push(layers[m as int]));
        assert forall|id: u64| #[trigger] after.fresh.contains(id) == (compositor.fresh.contains(id)
            && !layers.take(n as int).contains(FrameLayer::BackingStore(id))) by {
            let store = FrameLayer::BackingStore(id);
            assert(before.fresh.contains(id) == (compositor.fresh.contains(id) && !layers.take(
                m as int,
            ).contains(store)));
            assert(layers.take(n as int).contains(store) == (layers.take(m as int).contains(store)
                || layers[m as int] == store)) by {
                if layers.take(m as int).contains(store) {
                    let k = layers.take(m as int).index_of(store);
                    assert(layers.take(n as int)[k] == store);
                }
                if layers[m as int] == store {
                    assert(layers.take(n as int)[m as int] == store);
                }
            }
        }
    }
}

/// What putting the layers into the composition does.
proof fn lemma_inserted(compositor: CompositorView, layers: Seq<FrameLayer>, views: Set<u64>)
    ensures
        compositor.after_all(insert_steps(layers, views)).layers == compositor.layers + shown(
            layers,
            views,
        ),
        compositor.after_all(insert_steps(layers, views)).fresh == compositor.fresh,
    decreases layers.len(),
{
    let steps = insert_steps(layers, views);
    if layers.len() == 0 {
        assert(compositor.layers + shown(layers, views) =~= compositor.layers);
    } else {
        let fewer = layers.drop_last();
        assert(steps.drop_last() =~= insert_steps(fewer, views));
        lemma_inserted(compositor, fewer, views);
        assert(steps.last() == insert_step(layers.last(), views));
        assert(compositor.after_all(steps).layers =~= compositor.layers + shown(layers, views));
    }
}

/// A frame whose views are all there is shown layer by layer.
proof fn lemma_shown(layers: Seq<FrameLayer>, views: Set<u64>)
    requires
        is_complete(layers, views),
    ensures
        shown(layers, views).len() == layers.len(),
        forall|i: int|
            0 <= i < layers.len() ==> (match #[trigger] layers[i] {
                FrameLayer::BackingStore(id) => shown(layers, views)[i] == LayerId::FlutterLayer(
                    id,
                ),
                FrameLayer::PlatformView(id) => shown(layers, views)[i] == LayerId::PlatformView(
                    id as u64,
                ),
                FrameLayer::Other(_) => true,
            }),
    decreases layers.len(),
{
    if layers.len() > 0 {
        let fewer = layers.drop_last();
        assert forall|i: int| 0 <= i < fewer.len() implies (match #[trigger] fewer[i] {
            FrameLayer::BackingStore(_) => true,
            FrameLayer::PlatformView(id) => id >= 0 && views.contains(id as u64),
            FrameLayer::Other(_) => false,
        }) by {
            assert(fewer[i] == layers[i]);
        }
        lemma_shown(fewer, views);
        assert(layers.last() == layers[layers.len() - 1]);
        assert forall|i: int| 0 <= i < layers.len() implies (match #[trigger] layers[i] {
            FrameLayer::BackingStore(id) => shown(layers, views)[i] == LayerId::FlutterLayer(id),
            FrameLayer::PlatformView(id) => shown(layers, views)[i] == LayerId::PlatformView(
                id as u64,
            ),
            FrameLayer::Other(_) => true,
        }) by {
            if i < fewer.len() {
                assert(fewer[i] == layers[i]);
            }
        }
    }
}

/// The mutations of a view of the platform that its place is computed from: the transformations,
/// in order. The first mutation turns surfaces upside down and does not apply to the view.
pub fn applied_mutations(is_transformation: &Vec<bool>) -> (res: Vec<usize>)
    ensures
        forall|i: int, j: int| 0 <= i < j < res@.len() ==> res@[i] < res@[j],
        forall|k: usize| #[trigger]
            res@.contains(k) <==> 1 <= k < is_transformation@.len() && is_transformation@[k as int],
{
    let mut res: Vec<usize> = Vec::new();
    let mut n: usize = 1;
    while n < is_transformation.len()
        invariant
            1 <= n,
            forall|i: int, j: int| 0 <= i < j < res@.len() ==> res@[i] < res@[j],
            forall|i: int| 0 <= i < res@.len() ==> #[trigger] res@[i] < n,
            forall|k: usize| #[trigger]
                res@.contains(k) <==> 1 <= k < n && k < is_transformation@.len()
                    && is_transformation@[k as int],
        decreases is_transformation@.len() - n,
    {
        let ghost before = res@;
        if is_transformation[n] {
            res.push(n);
            assert forall|k: usize| #[trigger] res@.contains(k) <==> before.contains(k) || k
                == n by {
                if before.contains(k) {
                    let i = choose|i: int| 0 <= i < before.len() && before[i] == k;
                    assert(res@[i] == k);
                }
                assert(res@[before.len() as int] == n);
            }
        }
        n += 1;
    }
    res
}

/// Whether the layer names a view by a negative number.
pub open spec fn names_no_view(layer: FrameLayer) -> bool {
    layer matches FrameLayer::PlatformView(id) && id < 0
}

/// Every layer of a frame has its own step, at its own place in the frame: a backing store is
/// presented, a view that there is gets the place of this very layer, and what is not known is
/// reported. Only a layer before it that names a view by a negative number prevents that.
pub proof fn each_layer_has_its_step<V>(
    compositor: FlutterCompositor,
    layers: Vec<FrameLayer>,
    views: PlatformViews<V>,
    steps: Vec<PresentStep>,
    i: int,
)
    requires
        call_ensures(
            FlutterCompositor::present_layers::<V>,
            (&compositor, &layers, &views),
            steps,
        ),
        0 <= i < layers@.len(),
        forall|j: int| 0 <= j <= i ==> !names_no_view(#[trigger] layers@[j]),
    ensures
        i < steps@.len(),
        match layers@[i] {
            FrameLayer::BackingStore(id) => steps@[i] == PresentStep::PresentSwapchain(id),
            FrameLayer::PlatformView(id) => if views@.contains_key(id as u64) {
                steps@[i] matches PresentStep::UpdatePlatformView { id: view, layer } && view == id
                    && layer == i
            } else {
                steps@[i] matches PresentStep::ReportMissingView(view) && view == id
            },
            FrameLayer::Other(type_) => steps@[i] == PresentStep::ReportInvalidLayer(type_),
        },
{
    lemma_good_layers(layers@);
    assert(layers.len() == layers@.len());
    assert(!names_no_view(layers@[i]));
    let n = good_layers(layers@);
    if n <= i {
        assert(is_bad(layers@[n as int]));
        assert(!names_no_view(layers@[n as int]));
    }
}

/// A view is told the place of a layer only if that layer is the view, and only if there is such
/// a view. So no view is shown at the place of another.
pub proof fn views_get_their_own_places<V>(
    compositor: FlutterCompositor,
    layers: Vec<FrameLayer>,
    views: PlatformViews<V>,
    steps: Vec<PresentStep>,
    k: int,
)
    requires
        call_ensures(
            FlutterCompositor::present_layers::<V>,
            (&compositor, &layers, &views),
            steps,
        ),
        0 <= k < steps@.len(),
        steps@[k] is UpdatePlatformView,
    ensures
        ({
            let layer = steps@[k]->layer;
            let id = steps@[k]->UpdatePlatformView_id;
            &&& layer < layers@.len()
            &&& layers@[layer as int] matches FrameLayer::PlatformView(view) && view == id
            &&& views@.contains_key(id)
        }),
{
    lemma_good_layers(layers@);
    lemma_plan_parts(compositor@, layers@, views@.dom());
    assert(layers.len() == layers@.len());
    let n = good_layers(layers@) as int;
    if k < n {
        assert(!is_bad(layers@[k]));
        assert(steps@[k] == visit_step(layers@[k], k, views@.dom()));
    }
}

/// The parts of a plan, by their places.
proof fn lemma_plan_parts(compositor: CompositorView, layers: Seq<FrameLayer>, views: Set<u64>)
    ensures
        ({
            let plan = compositor.plan(layers, views);
            let n = good_layers(layers) as int;
            let flushed = n + if compositor.must_flush(layers) {
                1int
            } else {
                0
            };
            &&& forall|i: int|
                0 <= i < n ==> #[trigger] plan[i] == visit_step(layers[i], i, views)
            &&& n < layers.len() ==> {
                &&& plan.len() == n + 1
                &&& plan[n] is Fail
            }
            &&& n == layers.len() ==> {
                &&& compositor.must_flush(layers) ==> plan[n] == PresentStep::Flush
                &&& compositor.must_update(layers) ==> {
                    &&& plan.len() == flushed + n + 2
                    &&& plan[flushed] == PresentStep::ClearVisuals
                    &&& forall|i: int|
                        flushed < i < plan.len() - 1 ==> #[trigger] plan[i] == insert_step(
                            layers[i - flushed - 1],
                            views,
                        )
                }
                &&& !compositor.must_update(layers) ==> plan.len() == flushed + 1
                &&& plan[plan.len() - 1] == PresentStep::Commit
            }
        }),
{
    lemma_good_layers(layers);
}

/// A frame that names a view by a negative number ends in a failure right there: the steps of the
/// layers before it, and then the failure with that number.
pub proof fn negative_view_fails_the_frame<V>(
    compositor: FlutterCompositor,
    layers: Vec<FrameLayer>,
    views: PlatformViews<V>,
    steps: Vec<PresentStep>,
    n: int,
)
    requires
        call_ensures(
            FlutterCompositor::present_layers::<V>,
            (&compositor, &layers, &views),
            steps,
        ),
        0 <= n < layers@.len(),
        names_no_view(layers@[n]),
        forall|j: int| 0 <= j < n ==> !names_no_view(#[trigger] layers@[j]),
    ensures
        steps@.len() == n + 1,
        steps@[n] == PresentStep::Fail(layers@[n]->PlatformView_0),
{
    lemma_good_layers(layers@);
    let good = good_layers(layers@);
    if good < n {
        assert(!names_no_view(layers@[good as int]));
    } else if n < good {
        assert(!is_bad(layers@[n]));
    }
}

/// Whether a frame has a backing store that was not presented yet.
pub open spec fn has_new_store(layers: Seq<FrameLayer>, fresh: Set<u64>) -> bool {
    exists|i: int, id: u64|
        0 <= i < layers.len() && #[trigger] layers[i] == FrameLayer::BackingStore(id)
            && #[trigger] fresh.contains(id)
}

/// Whether a frame has as many layers as the composition, and each of its backing stores at the
/// place where the composition has it.
pub open spec fn is_composed(layers: Seq<FrameLayer>, composed: Seq<LayerId>) -> bool {
    &&& composed.len() == layers.len()
    &&& forall|i: int|
        0 <= i < layers.len() ==> (#[trigger] layers[i] matches FrameLayer::BackingStore(id)
            ==> composed[i] == LayerId::FlutterLayer(id))
}

/// A frame without negative numbers is put on the screen in this order: first every layer is
/// visited; then, exactly if a backing store is new, what was drawn is waited for, once; then,
/// exactly if the composition is not that of the frame, all visuals are taken out and the layers
/// put in, one by one from the bottom; and last, the composition is committed, once.
pub proof fn frame_is_put_together_in_order<V>(
    compositor: FlutterCompositor,
    layers: Vec<FrameLayer>,
    views: PlatformViews<V>,
    steps: Vec<PresentStep>,
)
    requires
        call_ensures(
            FlutterCompositor::present_layers::<V>,
            (&compositor, &layers, &views),
            steps,
        ),
        forall|j: int| 0 <= j < layers@.len() ==> !names_no_view(#[trigger] layers@[j]),
    ensures
        ({
            let n = layers@.len() as int;
            let flushed = n + if has_new_store(layers@, compositor@.fresh) {
                1int
            } else {
                0
            };
            let end = steps@.len() - 1;
            &&& n <= end
            &&& forall|k: int| 0 <= k <= end ==> (#[trigger] steps@[k] == PresentStep::Commit <==> k == end)
            &&& forall|k: int|
                0 <= k <= end ==> (#[trigger] steps@[k] == PresentStep::Flush <==> n <= k < flushed)
            &&& is_composed(layers@, compositor@.layers) ==> end == flushed
            &&& !is_composed(layers@, compositor@.layers) ==> {
                &&& end == flushed + 1 + n
                &&& forall|k: int|
                    0 <= k <= end ==> (#[trigger] steps@[k] == PresentStep::ClearVisuals <==> k
                        == flushed)
                &&& forall|i: int|
                    0 <= i < n ==> match #[trigger] layers@[i] {
                        FrameLayer::BackingStore(id) => steps@[flushed + 1 + i]
                            == PresentStep::InsertFlutterVisual(id),
                        FrameLayer::PlatformView(id) => if views@.contains_key(id as u64) {
                            steps@[flushed + 1 + i] matches PresentStep::InsertPlatformVisual(view)
                                && view == id
                        } else {
                            steps@[flushed + 1 + i] matches PresentStep::ReportMissingView(view)
                                && view == id
                        },
                        FrameLayer::Other(type_) => steps@[flushed + 1 + i]
                            == PresentStep::ReportInvalidLayer(type_),
                    }
            }
        }),
{
    let all = layers@;
    let composed = compositor@.layers;
    lemma_good_layers(all);
    lemma_plan_parts(compositor@, all, views@.dom());
    let n = all.len() as int;
    if good_layers(all) < n {
        assert(!names_no_view(all[good_layers(all) as int]));
    }
    assert(compositor@.must_flush(all) == has_new_store(all, compositor@.fresh)) by {
        if compositor@.must_flush(all) {
            let i = choose|i: int| 0 <= i < all.len() && compositor@.is_fresh(#[trigger] all[i]);
            assert(all[i] == FrameLayer::BackingStore(all[i]->BackingStore_0));
            assert(compositor@.fresh.contains(all[i]->BackingStore_0));
        }
        if has_new_store(all, compositor@.fresh) {
            let (i, id) = choose|i: int, id: u64|
                0 <= i < all.len() && #[trigger] all[i] == FrameLayer::BackingStore(id)
                    && #[trigger] compositor@.fresh.contains(id);
            assert(compositor@.is_fresh(all[i]));
        }
    }
    assert(compositor@.must_update(all) == !is_composed(all, composed)) by {
        if !is_composed(all, composed) && composed.len() == all.len() {
            let i = choose|i: int|
                0 <= i < all.len() && !(#[trigger] all[i] matches FrameLayer::BackingStore(id)
                    ==> composed[i] == LayerId::FlutterLayer(id));
            assert(compositor@.is_misplaced(all[i], i));
        }
        if compositor@.must_update(all) && composed.len() == all.len() {
            let i = choose|i: int| 0 <= i < all.len() && compositor@.is_misplaced(
                #[trigger] all[i],
                i,
            );
            assert(all[i] is BackingStore);
        }
    }
    assert forall|i: int| 0 <= i < n implies !is_bad(#[trigger] all[i]) by {
        assert(!names_no_view(all[i]));
    }
}

/// After a frame whose views are all there was put together anew, the composition is the frame,
/// layer by layer, the backing stores and the views alike.
pub proof fn composition_is_the_frame(
    compositor: CompositorView,
    layers: Seq<FrameLayer>,
    views: Set<u64>,
    i: int,
)
    requires
        is_complete(layers, views),
        !is_composed(layers, compositor.layers),
        0 <= i < layers.len(),
    ensures
        compositor.after_all(compositor.plan(layers, views)).layers.len() == layers.len(),
        match layers[i] {
            FrameLayer::BackingStore(id) => compositor.after_all(
                compositor.plan(layers, views),
            ).layers[i] == LayerId::FlutterLayer(id),
            FrameLayer::PlatformView(id) => compositor.after_all(
                compositor.plan(layers, views),
            ).layers[i] matches LayerId::PlatformView(view) && view == id,
            FrameLayer::Other(_) => true,
        },
{
    backing_stores_are_in_place(compositor, layers, views);
    presented_frame(compositor, layers, views);
    lemma_shown(layers, views);
    if compositor.layers.len() == layers.len() {
        let j = choose|j: int|
            0 <= j < layers.len() && !(#[trigger] layers[j] matches FrameLayer::BackingStore(id)
                ==> compositor.layers[j] == LayerId::FlutterLayer(id));
        assert(compositor.is_misplaced(layers[j], j));
    }
    assert(compositor.must_update(layers));
    let layer = layers[i];
}

/// Taking note of a step changes what the step was about and nothing else: a presented store is
/// no longer new, cleared visuals are gone, and an inserted visual is on top.
pub proof fn completed_step_is_noted(compositor: &mut FlutterCompositor, step: PresentStep)
    requires
        call_ensures(FlutterCompositor::complete, (compositor, step), ()),
    ensures
        forall|id: u64| #[trigger]
            final(compositor)@.fresh.contains(id) <==> old(compositor)@.fresh.contains(id) && step
                != PresentStep::PresentSwapchain(id),
        final(compositor)@.layers == (match step {
            PresentStep::ClearVisuals => seq![],
            PresentStep::InsertFlutterVisual(id) => old(compositor)@.layers + seq![
                LayerId::FlutterLayer(id),
            ],
            PresentStep::InsertPlatformVisual(id) => old(compositor)@.layers + seq![
                LayerId::PlatformView(id),
            ],
            _ => old(compositor)@.layers,
        }),
{
}

/// A new backing store is new until it is let go, has a swap chain of its own size, with two
/// buffers and one sample per pixel, and leaves the composition and the other stores alone.
pub proof fn new_store_has_its_size(
    compositor: &mut FlutterCompositor,
    id: u64,
    width: u32,
    height: u32,
    chain: SwapChainDescription,
)
    requires
        call_ensures(
            FlutterCompositor::create_backing_store,
            (compositor, id, width, height),
            chain,
        ),
    ensures
        chain.width == width,
        chain.height == height,
        chain.sample_count == 1,
        chain.sample_quality == 0,
        chain.buffer_count == 2,
        chain.gl_format == 0x93A1,
        final(compositor)@.layers == old(compositor)@.layers,
        forall|other: u64| #[trigger]
            final(compositor)@.fresh.contains(other) <==> other == id || old(
                compositor,
            )@.fresh.contains(other),
{
}

/// A backing store that was let go is not new, and the others and the composition stay.
pub proof fn collected_store_is_forgotten(compositor: &mut FlutterCompositor, id: u64)
    requires
        call_ensures(FlutterCompositor::collect_backing_store, (compositor, id), ()),
    ensures
        final(compositor)@.layers == old(compositor)@.layers,
        forall|other: u64| #[trigger]
            final(compositor)@.fresh.contains(other) <==> other != id && old(
                compositor,
            )@.fresh.contains(other),
{
}

/// The map for a surface keeps every point in its column and mirrors the rows, so that the first
/// row and the edge below the last one change places.
pub proof fn surface_is_mirrored(height: u32, map: SurfaceTransformation, x: int, y: int)
    requires
        call_ensures(FlutterCompositor::get_surface_transformation, (height,), map),
    ensures
        map.scale_x * x + map.skew_x * y + map.trans_x == x,
        map.skew_y * x + map.scale_y * y + map.trans_y == height - y,
        map.pers_2 == 1,
{
    lemma_axis_aligned(map, x, y, -1);
}

/// What a map without skew does to a point.
proof fn lemma_axis_aligned(map: SurfaceTransformation, x: int, y: int, sign: int)
    by (nonlinear_arith)
    requires
        map.scale_x == 1,
        map.skew_x == 0,
        map.skew_y == 0,
        map.scale_y == sign,
    ensures
        map.scale_x * x + map.skew_x * y == x,
        map.skew_y * x + map.scale_y * y == sign * y,
{
}

/// Where a map was found it is used, and else every point stays where it is.
pub proof fn missing_map_moves_nothing(
    found: Option<SurfaceTransformation>,
    map: SurfaceTransformation,
    x: int,
    y: int,
)
    requires
        call_ensures(FlutterCompositor::transformation_or_identity, (found,), map),
    ensures
        found is Some ==> map == found->0,
        found is None ==> {
            &&& map.scale_x * x + map.skew_x * y + map.trans_x == x
            &&& map.skew_y * x + map.scale_y * y + map.trans_y == y
            &&& map.pers_2 == 1
        },
{
    if found is None {
        lemma_axis_aligned(map, x, y, 1);
    }
}

/// A frame is refused exactly if it has to be put together anew and has a layer of a type that is
/// not known, while no number in it is negative.
pub proof fn refused_frames(compositor: FlutterCompositor, layers: Vec<FrameLayer>, accepted: bool)
    requires
        call_ensures(FlutterCompositor::accepts, (&compositor, &layers), accepted),
    ensures
        !accepted <==> {
            &&& forall|i: int| 0 <= i < layers@.len() ==> !names_no_view(#[trigger] layers@[i])
            &&& exists|i: int| 0 <= i < layers@.len() && (#[trigger] layers@[i]) is Other
            &&& !is_composed(layers@, compositor@.layers)
        },
{
    let all = layers@;
    let composed = compositor@.layers;
    lemma_good_layers(all);
    if good_layers(all) < all.len() {
        assert(names_no_view(all[good_layers(all) as int]));
    } else {
        assert forall|i: int| 0 <= i < all.len() implies !names_no_view(#[trigger] all[i]) by {
            assert(!is_bad(all[i]));
        }
    }
    assert(compositor@.must_update(all) == !is_composed(all, composed)) by {
        if !is_composed(all, composed) && composed.len() == all.len() {
            let i = choose|i: int|
                0 <= i < all.len() && !(#[trigger] all[i] matches FrameLayer::BackingStore(id)
                    ==> composed[i] == LayerId::FlutterLayer(id));
            assert(compositor@.is_misplaced(all[i], i));
        }
        if compositor@.must_update(all) && composed.len() == all.len() {
            let i = choose|i: int| 0 <= i < all.len() && compositor@.is_misplaced(
                #[trigger] all[i],
                i,
            );
            assert(all[i] is BackingStore);
        }
    }
}

/// The first mutation never applies, and of the others exactly the transformations do, each once
/// and in order.
pub proof fn transformations_apply_in_order(
    is_transformation: Vec<bool>,
    applied: Vec<usize>,
    k: usize,
)
    requires
        call_ensures(applied_mutations, (&is_transformation,), applied),
    ensures
        !applied@.contains(0),
        0 < k < is_transformation@.len() ==> (applied@.contains(k) <==> is_transformation@[
            k as int
        ]),
        k >= is_transformation@.len() ==> !applied@.contains(k),
        forall|i: int, j: int| 0 <= i < j < applied@.len() ==> applied@[i] < applied@[j],
{
}

} // verus!
