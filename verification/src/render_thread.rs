//! The events of the thread that draws.
use vstd::prelude::*;

verus! {

/// A task of the thread, and the time from which on it is to be run, in nanoseconds.
#[derive(Clone, Copy, Debug)]
pub struct RenderTask<T>(pub u64, pub T);

/// What the thread is told.
#[derive(Clone, Copy, Debug)]
pub enum RenderEvent<T> {
    /// To end.
    Stop,
    /// To run a task.
    PostTask(RenderTask<T>),
}

/// What the thread does.
#[derive(Debug)]
pub enum RenderAction<T> {
    /// Tell who asked, and end.
    Stop,
    /// Run the tasks in this order, and wait for the next event.
    Run(Vec<RenderTask<T>>),
}

/// The tasks with the one that was posted behind them.
pub open spec fn with_posted<T>(
    tasks: Seq<RenderTask<T>>,
    event: Option<RenderEvent<T>>,
) -> Seq<RenderTask<T>> {
    match event {
        Some(RenderEvent::PostTask(task)) => tasks.push(task),
        _ => tasks,
    }
}

/// The tasks whose time has come, in the order in which they were posted.
pub open spec fn due<T>(tasks: Seq<RenderTask<T>>, now: u64) -> Seq<RenderTask<T>> {
    tasks.filter(|task: RenderTask<T>| task.0 <= now)
}

/// The tasks whose time has not come yet, in the order in which they were posted.
pub open spec fn later<T>(tasks: Seq<RenderTask<T>>, now: u64) -> Seq<RenderTask<T>> {
    tasks.filter(|task: RenderTask<T>| now < task.0)
}

/// Whether this is how long it takes until the time of the first of the later tasks has come.
/// `None` where there is no later task.
pub open spec fn is_shortest_wait<T>(
    tasks: Seq<RenderTask<T>>,
    now: u64,
    wait: Option<u64>,
) -> bool {
    match wait {
        Some(wait) => {
            &&& wait > 0
            &&& exists|i: int| 0 <= i < tasks.len() && (#[trigger] tasks[i]).0 == now + wait
            &&& forall|i: int|
                0 <= i < tasks.len() && now < (#[trigger] tasks[i]).0 ==> now + wait <= tasks[i].0
        },
        None => forall|i: int| 0 <= i < tasks.len() ==> (#[trigger] tasks[i]).0 <= now,
    }
}

/// The thread that draws, with the tasks that wait for it.
pub struct RenderThread<T> {
    tasks: Vec<RenderTask<T>>,
}

impl<T> View for RenderThread<T> {
    type V = Seq<RenderTask<T>>;

    closed spec fn view(&self) -> Seq<RenderTask<T>> {
        self.tasks@
    }
}

impl<T> RenderThread<T> {
    /// No tasks wait.
    pub fn new() -> (res: RenderThread<T>)
        ensures
            res@ == Seq::<RenderTask<T>>::empty(),
    {
        RenderThread { tasks: Vec::new() }
    }

    /// Takes in an event, if there is one, and says what the thread does at this time: it runs the
    /// tasks whose time has come and keeps the others.
    pub fn step(&mut self, event: Option<RenderEvent<T>>, now: u64) -> (res: RenderAction<T>)
        ensures
            if event == Some(RenderEvent::<T>::Stop) {
                res is Stop && final(self)@ == old(self)@
            } else {
                &&& res is Run
                &&& res->Run_0@ == due(with_posted(old(self)@, event), now)
                &&& final(self)@ == later(with_posted(old(self)@, event), now)
            },
    {
        match event {
            Some(RenderEvent::Stop) => return RenderAction::Stop,
            Some(RenderEvent::PostTask(task)) => self.tasks.push(task),
            None => {},
        }
        let ghost all = self.tasks@;
        let mut waiting: Vec<RenderTask<T>> = Vec::new();
        std::mem::swap(&mut waiting, &mut self.tasks);
        let mut run: Vec<RenderTask<T>> = Vec::new();
        let mut keep: Vec<RenderTask<T>> = Vec::new();
        let ghost mut n: int = 0;
        proof {
            reveal(Seq::filter);
            assert(all.skip(0) =~= all);
            assert(due(all.take(0), now) =~= Seq::empty());
            assert(later(all.take(0), now) =~= Seq::empty());
        }
        while waiting.len() > 0
            invariant
                0 <= n <= all.len(),
                waiting@ == all.skip(n),
                run@ == due(all.take(n), now),
                keep@ == later(all.take(n), now),
            decreases waiting.len(),
        {
            let task = waiting.remove(0);
            proof {
                reveal(Seq::filter);
                assert(task == all[n]);
                assert(all.take(n + 1).drop_last() =~= all.take(n));
                assert(all.take(n + 1).last() == task);
                assert(all.skip(n).remove(0) =~= all.skip(n + 1));
                n = n + 1;
            }
            if task.0 <= now {
                run.push(task);
            } else {
                keep.push(task);
            }
        }
        assert(all.take(n) =~= all);
        self.tasks = keep;
        RenderAction::Run(run)
    }

    /// How long it takes until the time of the first of the later tasks has come. `None` where
    /// there is no later task.
    pub fn shortest_wait(&self, now: u64) -> (res: Option<u64>)
        ensures
            is_shortest_wait(self@, now, res),
    {
        let mut shortest: Option<u64> = None;
        let mut i: usize = 0;
        while i < self.tasks.len()
            invariant
                i <= self.tasks@.len(),
                is_shortest_wait(self.tasks@.take(i as int), now, shortest),
            decreases self.tasks@.len() - i,
        {
            let ghost fewer = self.tasks@.take(i as int);
            let ghost more = self.tasks@.take(i + 1);
            let time: u64 = self.tasks[i].0;
            assert(more[i as int].0 == time);
            assert(forall|j: int| 0 <= j < i ==> #[trigger] more[j] == fewer[j]);
            let ghost before = shortest;
            if now < time {
                let wait: u64 = time - now;
                shortest = match shortest {
                    Some(least) => if least <= wait {
                        Some(least)
                    } else {
                        Some(wait)
                    },
                    None => Some(wait),
                };
            }
            proof {
                if let Some(least) = before {
                    let j = choose|j: int|
                        0 <= j < fewer.len() && (#[trigger] fewer[j]).0 == now + least;
                    assert(more[j].0 == now + least);
                }
            }
            i += 1;
        }
        assert(self.tasks@.take(i as int) =~= self.tasks@);
        shortest
    }
}

/// No task is lost, and none is both run and kept: the tasks that are run and those that are kept
/// are together the tasks that there were.
pub proof fn every_render_task_runs_or_stays<T>(tasks: Seq<RenderTask<T>>, now: u64)
    ensures
        due(tasks, now).to_multiset().add(later(tasks, now).to_multiset()) == tasks.to_multiset(),
    decreases tasks.len(),
{
    broadcast use vstd::multiset::group_multiset_axioms;

    reveal(Seq::filter);
    if tasks.len() == 0 {
        tasks.to_multiset_ensures();
        due(tasks, now).to_multiset_ensures();
        assert(due(tasks, now).to_multiset().add(later(tasks, now).to_multiset())
            =~= tasks.to_multiset());
    } else {
        let fewer = tasks.drop_last();
        every_render_task_runs_or_stays(fewer, now);
        due(fewer, now).to_multiset_ensures();
        later(fewer, now).to_multiset_ensures();
        fewer.to_multiset_ensures();
        assert(fewer.push(tasks.last()) =~= tasks);
        assert(due(tasks, now).to_multiset().add(later(tasks, now).to_multiset())
            =~= tasks.to_multiset());
    }
}

/// The thread wakes neither too early nor too late: of the tasks that it keeps at `now`, one is
/// run at a time after that exactly if the shortest wait is over by then. Where there is nothing to
/// wait for, it keeps none.
pub proof fn thread_wakes_in_time<T>(
    tasks: Seq<RenderTask<T>>,
    now: u64,
    wait: Option<u64>,
    time: u64,
)
    requires
        is_shortest_wait(later(tasks, now), now, wait),
    ensures
        match wait {
            Some(wait) => due(later(tasks, now), time).len() > 0 <==> time >= now + wait,
            None => later(tasks, now).len() == 0,
        },
{
    let kept = later(tasks, now);
    let is_later = |task: RenderTask<T>| now < task.0;
    let is_due = |task: RenderTask<T>| task.0 <= time;
    assert forall|i: int| 0 <= i < kept.len() implies now < (#[trigger] kept[i]).0 by {
        tasks.lemma_filter_pred(is_later, i);
    }
    match wait {
        Some(wait) => {
            let run = due(kept, time);
            if time >= now + wait {
                let i = choose|i: int|
                    0 <= i < kept.len() && (#[trigger] kept[i]).0 == now + wait;
                kept.lemma_filter_contains(is_due, i);
                assert(run.contains(kept[i]));
            }
            if run.len() > 0 {
                lemma_filtered_is_there(kept, is_due);
                kept.lemma_filter_pred(is_due, 0);
                assert(kept.contains(run[0]));
            }
        },
        None => {
            if kept.len() > 0 {
                assert(kept[0].0 <= now);
            }
        },
    }
}

/// What a filter keeps was there before.
proof fn lemma_filtered_is_there<A>(all: Seq<A>, keeps: spec_fn(A) -> bool)
    ensures
        forall|i: int|
            0 <= i < all.filter(keeps).len() ==> all.contains(#[trigger] all.filter(keeps)[i]),
    decreases all.len(),
{
    reveal(Seq::filter);
    if all.len() > 0 {
        let fewer = all.drop_last();
        lemma_filtered_is_there(fewer, keeps);
        assert forall|i: int| 0 <= i < all.filter(keeps).len() implies all.contains(
            #[trigger] all.filter(keeps)[i],
        ) by {
            if i < fewer.filter(keeps).len() {
                let item = fewer.filter(keeps)[i];
                assert(fewer.contains(item));
                let j = choose|j: int| 0 <= j < fewer.len() && fewer[j] == item;
                assert(all[j] == item);
            } else {
                assert(all[all.len() - 1] == all.last());
            }
        }
    }
}

/// What the thread does with an event: told to stop, it stops and keeps its tasks. Else it takes the
/// posted task in behind the others, runs those whose time is not after now, and keeps the others,
/// both in the order in which they were posted.
pub proof fn render_tasks_are_run_at_their_time<T>(
    thread: &mut RenderThread<T>,
    event: Option<RenderEvent<T>>,
    now: u64,
    action: RenderAction<T>,
)
    requires
        call_ensures(RenderThread::<T>::step, (thread, event, now), action),
    ensures
        action is Stop <==> event == Some(RenderEvent::<T>::Stop),
        action is Stop ==> final(thread)@ == old(thread)@,
        action is Run ==> {
            let all = match event {
                Some(RenderEvent::PostTask(task)) => old(thread)@ + seq![task],
                _ => old(thread)@,
            };
            &&& action->Run_0@ == all.filter(|task: RenderTask<T>| task.0 <= now)
            &&& final(thread)@ == all.filter(|task: RenderTask<T>| now < task.0)
        },
{
    if let Some(RenderEvent::PostTask(task)) = event {
        assert(old(thread)@.push(task) =~= old(thread)@ + seq![task]);
    }
}

/// The wait is over exactly when the time of a later task has come, and there is one exactly if
/// there is a later task.
pub proof fn wait_is_until_the_next_task<T>(thread: RenderThread<T>, now: u64, wait: Option<u64>)
    requires
        call_ensures(RenderThread::<T>::shortest_wait, (&thread, now), wait),
    ensures
        wait is Some <==> exists|i: int| 0 <= i < thread@.len() && now < (#[trigger] thread@[i]).0,
        wait is Some ==> {
            &&& exists|i: int| 0 <= i < thread@.len() && (#[trigger] thread@[i]).0 == now + wait->0
            &&& forall|i: int|
                0 <= i < thread@.len() ==> (#[trigger] thread@[i]).0 <= now || now + wait->0
                    <= thread@[i].0
        },
{
    if wait is Some {
        let i = choose|i: int| 0 <= i < thread@.len() && (#[trigger] thread@[i]).0 == now + wait->0;
        assert(now < thread@[i].0);
    }
}

} // verus!
