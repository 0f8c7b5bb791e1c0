//! The hand-over of a new window size between the thread of the window and the thread that draws.
//!
//! The window begins a resize and waits. The frame that has the new size completes the resize
//! once it is committed, and the window goes on.
use vstd::prelude::*;

verus! {

/// The resize that is under way, if there is one.
pub struct ResizeController {
    resize: Option<(u32, u32)>,
}

impl View for ResizeController {
    type V = Option<(u32, u32)>;

    closed spec fn view(&self) -> Option<(u32, u32)> {
        self.resize
    }
}

/// A resize that is under way.
#[derive(Clone, Copy, Debug)]
pub struct ResizeState {
    size: (u32, u32),
}

impl View for ResizeState {
    type V = (u32, u32);

    closed spec fn view(&self) -> (u32, u32) {
        self.size
    }
}

impl ResizeController {
    /// No resize is under way.
    pub fn new() -> (res: ResizeController)
        ensures
            res@ == None::<(u32, u32)>,
    {
        ResizeController { resize: None }
    }

    /// Begins a resize to this size, in the place of one that is under way.
    pub fn begin(&mut self, width: u32, height: u32)
        ensures
            final(self)@ == Some((width, height)),
    {
        self.resize = Some((width, height));
    }

    /// Whether the one who began the resize has to wait on.
    pub fn must_wait(&self) -> (res: bool)
        ensures
            res == (self@ is Some),
    {
        self.resize.is_some()
    }

    /// The resize that is under way.
    pub fn current_resize(&self) -> (res: Option<ResizeState>)
        ensures
            match res {
                Some(state) => self@ == Some(state@),
                None => self@ is None,
            },
    {
        match self.resize {
            Some(size) => Some(ResizeState { size }),
            None => None,
        }
    }
}

impl ResizeState {
    /// The size to resize to.
    pub fn size(&self) -> (res: (u32, u32))
        ensures
            res == self@,
    {
        self.size
    }

    /// Completes the resize. Whoever waits for it goes on.
    pub fn complete(self, controller: &mut ResizeController)
        ensures
            final(controller)@ == None::<(u32, u32)>,
    {
        controller.resize = None;
    }
}

/// One step of committing a frame.
#[derive(Clone, Copy, Debug, PartialEq, Eq, Structural)]
pub enum CommitStep {
    /// Wait until the previous frame is committed.
    WaitForCommitCompletion,
    /// Commit the frame.
    Commit,
    /// Complete the resize that is under way.
    CompleteResize,
}

/// The size that frames are drawn in.
pub struct CompositionHandler {
    surface_size: (u32, u32),
}

impl View for CompositionHandler {
    type V = (u32, u32);

    closed spec fn view(&self) -> (u32, u32) {
        self.surface_size
    }
}

/// The size that frames are drawn in, given the resize that is under way.
pub open spec fn drawn_size(size: (u32, u32), resize: Option<(u32, u32)>) -> (u32, u32) {
    match resize {
        Some(new) => new,
        None => size,
    }
}

/// The steps of committing a frame. One that ends a resize waits for the previous frame, and
/// completes the resize last.
pub open spec fn commit_steps(resize: Option<(u32, u32)>) -> Seq<CommitStep> {
    if resize is Some {
        seq![CommitStep::WaitForCommitCompletion, CommitStep::Commit, CommitStep::CompleteResize]
    } else {
        seq![CommitStep::Commit]
    }
}

/// What a step of committing a frame does to the resize that is under way.
pub open spec fn resize_after(
    resize: Option<(u32, u32)>,
    step: CommitStep,
) -> Option<(u32, u32)> {
    if step is CompleteResize {
        None
    } else {
        resize
    }
}

impl CompositionHandler {
    /// Nothing was drawn yet.
    pub fn new() -> (res: CompositionHandler)
        ensures
            res@ == (0u32, 0u32),
    {
        CompositionHandler { surface_size: (0, 0) }
    }

    /// The size that the next frame is drawn in: that of the resize that is under way, else that
    /// of the frame before.
    pub fn get_surface_size(&mut self, controller: &ResizeController) -> (res: (u32, u32))
        ensures
            res == drawn_size(old(self)@, controller@),
            final(self)@ == res,
    {
        if let Some(resize) = controller.current_resize() {
            self.surface_size = resize.size();
        }
        self.surface_size
    }

    /// The steps that commit the frame.
    pub fn present(&self, controller: &ResizeController) -> (res: Vec<CommitStep>)
        ensures
            res@ == commit_steps(controller@),
    {
        if controller.current_resize().is_some() {
            vec![
                CommitStep::WaitForCommitCompletion,
                CommitStep::Commit,
                CommitStep::CompleteResize,
            ]
        } else {
            vec![CommitStep::Commit]
        }
    }
}

/// A committed frame leaves no resize under way, so nobody waits for one. It is committed once,
/// and no resize is completed before.
pub proof fn committed_frame_ends_the_resize(resize: Option<(u32, u32)>)
    ensures
        commit_steps(resize).fold_left(
            resize,
            |r: Option<(u32, u32)>, step: CommitStep| resize_after(r, step),
        ) is None,
        commit_steps(resize).filter(|step: CommitStep| step is Commit).len() == 1,
        forall|i: int, j: int|
            0 <= i < commit_steps(resize).len() && 0 <= j < commit_steps(resize).len()
                && #[trigger] commit_steps(resize)[i] is Commit && #[trigger] commit_steps(
                resize,
            )[j] is CompleteResize ==> i < j,
{
    let steps = commit_steps(resize);
    reveal_with_fuel(Seq::fold_left, 4);
    reveal_with_fuel(Seq::filter, 4);
    if resize is Some {
        assert(steps.drop_last().drop_last().drop_last().len() == 0);
    } else {
        assert(steps.drop_last().len() == 0);
    }
}

/// The size of a completed resize stays the size that is drawn in, until the next resize.
pub proof fn size_stays_after_the_resize(size: (u32, u32), new: (u32, u32))
    ensures
        drawn_size(drawn_size(size, Some(new)), None) == new,
{
}

/// Whoever begins a resize waits, and the resize that is then under way has the size it was begun
/// with. Without a resize nobody waits.
pub proof fn begun_resize_is_under_way(
    controller: &mut ResizeController,
    width: u32,
    height: u32,
    after: &ResizeController,
    must_wait: bool,
    resize: Option<ResizeState>,
    size: (u32, u32),
)
    requires
        call_ensures(ResizeController::begin, (controller, width, height), ()),
        call_ensures(ResizeController::must_wait, (after,), must_wait),
        call_ensures(ResizeController::current_resize, (after,), resize),
        resize is Some ==> call_ensures(ResizeState::size, (&resize->0,), size),
    ensures
        must_wait <==> resize is Some,
        *after == *final(controller) ==> must_wait && size == (width, height),
{
}

/// Nobody waits at the start, nor after the resize was completed.
pub proof fn completed_resize_ends_the_wait(
    new: ResizeController,
    state: ResizeState,
    controller: &mut ResizeController,
    after: &ResizeController,
    waits_at_the_start: bool,
    must_wait: bool,
)
    requires
        call_ensures(ResizeController::new, (), new),
        call_ensures(ResizeController::must_wait, (&new,), waits_at_the_start),
        call_ensures(ResizeState::complete, (state, controller), ()),
        call_ensures(ResizeController::must_wait, (after,), must_wait),
    ensures
        !waits_at_the_start,
        *after == *final(controller) ==> !must_wait,
{
}

/// A frame is drawn in the size of the resize that is under way, and the next one without a resize
/// in the same size. Before the first resize the size is nothing.
pub proof fn frames_keep_the_last_size(
    handler: &mut CompositionHandler,
    controller: ResizeController,
    idle: ResizeController,
    resize: Option<ResizeState>,
    size: (u32, u32),
    later: &mut CompositionHandler,
    later_size: (u32, u32),
    new: CompositionHandler,
)
    requires
        call_ensures(ResizeController::current_resize, (&controller,), resize),
        call_ensures(CompositionHandler::get_surface_size, (handler, &controller), size),
        call_ensures(ResizeController::new, (), idle),
        call_ensures(CompositionHandler::get_surface_size, (later, &idle), later_size),
        call_ensures(CompositionHandler::new, (), new),
    ensures
        resize is Some ==> forall|asked: (u32, u32)|
            call_ensures(ResizeState::size, (&resize->0,), asked) ==> size == asked,
        *old(later) == *final(handler) ==> later_size == size && final(later)@ == final(handler)@,
        *old(later) == new ==> later_size == (0u32, 0u32),
{
}

/// Every frame is committed exactly once. A frame that ends a resize waits for the one before it
/// first and completes the resize last, and no other frame does either.
pub proof fn frames_are_committed(
    handler: CompositionHandler,
    controller: ResizeController,
    must_wait: bool,
    steps: Vec<CommitStep>,
)
    requires
        call_ensures(ResizeController::must_wait, (&controller,), must_wait),
        call_ensures(CompositionHandler::present, (&handler, &controller), steps),
    ensures
        steps@.contains(CommitStep::Commit),
        steps@.no_duplicates(),
        steps@.contains(CommitStep::WaitForCommitCompletion) <==> must_wait,
        steps@.contains(CommitStep::CompleteResize) <==> must_wait,
        must_wait ==> steps@.first() is WaitForCommitCompletion && steps@.last() is CompleteResize,
{
    if must_wait {
        assert(steps@[0] is WaitForCommitCompletion);
        assert(steps@[1] is Commit);
        assert(steps@[2] is CompleteResize);
    } else {
        assert(steps@[0] is Commit);
    }
}

} // verus!
