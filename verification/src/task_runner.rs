//! The tasks that the engine wants to be run on the thread of the platform, each at its time.
use vstd::prelude::*;

verus! {

/// Nothing is said: a message that only wakes the thread.
pub const WM_NULL: u32 = 0;

/// A timer ran out.
pub const WM_TIMER: u32 = 0x113;

/// A task, and the time from which on it is to be run, in nanoseconds of the clock of the engine.
#[derive(Clone, Copy, Debug)]
pub struct Task<T> {
    pub target_time_nanos: u64,
    pub task: T,
}

/// Whether the task is to be run at this time.
pub open spec fn is_due<T>(task: Task<T>, now: u64) -> bool {
    now >= task.target_time_nanos
}

/// The tasks that are to be run at this time, in the order in which they came.
pub open spec fn due_tasks<T>(tasks: Seq<Task<T>>, now: u64) -> Seq<Task<T>>
    decreases tasks.len(),
{
    if tasks.len() == 0 {
        Seq::empty()
    } else if is_due(tasks.last(), now) {
        due_tasks(tasks.drop_last(), now).push(tasks.last())
    } else {
        due_tasks(tasks.drop_last(), now)
    }
}

/// The tasks that are not to be run yet, in the order in which they came.
pub open spec fn pending_tasks<T>(tasks: Seq<Task<T>>, now: u64) -> Seq<Task<T>>
    decreases tasks.len(),
{
    if tasks.len() == 0 {
        Seq::empty()
    } else if is_due(tasks.last(), now) {
        pending_tasks(tasks.drop_last(), now)
    } else {
        pending_tasks(tasks.drop_last(), now).push(tasks.last())
    }
}

/// How long it takes until the first of the tasks is to be run. `None` where there is none that
/// is not to be run now.
pub open spec fn next_delay<T>(tasks: Seq<Task<T>>, now: u64) -> Option<u64>
    decreases tasks.len(),
{
    if tasks.len() == 0 {
        None
    } else {
        let before = next_delay(tasks.drop_last(), now);
        let task = tasks.last();
        if is_due(task, now) {
            before
        } else {
            let delay = (task.target_time_nanos - now) as u64;
            match before {
                Some(least) if least <= delay => Some(least),
                _ => Some(delay),
            }
        }
    }
}

/// What processing the queue hands out.
#[derive(Debug)]
pub struct DueTasks<T> {
    /// The tasks to be run, in this order.
    pub tasks: Vec<Task<T>>,
    /// How long it takes until the next task is to be run, in nanoseconds.
    pub next_delay: Option<u64>,
}

/// The tasks that wait, in the order in which they came.
pub struct FlutterTaskQueue<T> {
    tasks: Vec<Task<T>>,
}

impl<T> View for FlutterTaskQueue<T> {
    type V = Seq<Task<T>>;

    closed spec fn view(&self) -> Seq<Task<T>> {
        self.tasks@
    }
}

impl<T> FlutterTaskQueue<T> {
    /// No tasks.
    pub fn new() -> (res: FlutterTaskQueue<T>)
        ensures
            res@ == Seq::<Task<T>>::empty(),
    {
        FlutterTaskQueue { tasks: Vec::new() }
    }

    /// Puts a task behind the others.
    pub fn enqueue(&mut self, task: Task<T>)
        ensures
            final(self)@ == old(self)@.push(task),
    {
        self.tasks.push(task);
    }
}

impl<T: Copy> FlutterTaskQueue<T> {
    /// Takes out the tasks that are to be run now.
    pub fn process_tasks(&mut self, now: u64) -> (res: DueTasks<T>)
        ensures
            res.tasks@ == due_tasks(old(self)@, now),
            res.next_delay == next_delay(old(self)@, now),
            final(self)@ == pending_tasks(old(self)@, now),
    {
        let ghost all = self.tasks@;
        let mut due: Vec<Task<T>> = Vec::new();
        let mut pending: Vec<Task<T>> = Vec::new();
        let mut next: Option<u64> = None;
        let mut i: usize = 0;
        while i < self.tasks.len()
            invariant
                i <= self.tasks@.len(),
                self.tasks@ == all,
                due@ == due_tasks(all.take(i as int), now),
                pending@ == pending_tasks(all.take(i as int), now),
                next == next_delay(all.take(i as int), now),
            decreases self.tasks@.len() - i,
        {
            let Task { target_time_nanos, task } = self.tasks[i];
            let entry = Task { target_time_nanos, task };
            assert(entry == all[i as int]);
            assert(all.take(i + 1).drop_last() =~= all.take(i as int));
            if now >= target_time_nanos {
                due.push(entry);
            } else {
                let delay: u64 = target_time_nanos - now;
                next = match next {
                    Some(least) => if least <= delay {
                        Some(least)
                    } else {
                        Some(delay)
                    },
                    None => Some(delay),
                };
                pending.push(entry);
            }
            i += 1;
        }
        assert(all.take(i as int) =~= all);
        self.tasks = pending;
        DueTasks { tasks: due, next_delay: next }
    }
}

/// Runs tasks between the events of a window library.
pub struct TaskRunnerExecutor<T> {
    queue: FlutterTaskQueue<T>,
}

impl<T> View for TaskRunnerExecutor<T> {
    type V = Seq<Task<T>>;

    closed spec fn view(&self) -> Seq<Task<T>> {
        self.queue@
    }
}

impl<T> TaskRunnerExecutor<T> {
    /// No tasks.
    pub fn new() -> (res: TaskRunnerExecutor<T>)
        ensures
            res@ == Seq::<Task<T>>::empty(),
    {
        TaskRunnerExecutor { queue: FlutterTaskQueue::new() }
    }

    /// Puts a task behind the others.
    pub fn enqueue(&mut self, task: Task<T>)
        ensures
            final(self)@ == old(self)@.push(task),
    {
        self.queue.enqueue(task);
    }
}

impl<T: Copy> TaskRunnerExecutor<T> {
    /// Takes out the tasks that are to be run now. The caller runs them and waits for as long as
    /// it takes until the next one is to be run.
    pub fn process_all(&mut self, now: u64) -> (res: DueTasks<T>)
        ensures
            res.tasks@ == due_tasks(old(self)@, now),
            res.next_delay == next_delay(old(self)@, now),
            final(self)@ == pending_tasks(old(self)@, now),
    {
        self.queue.process_tasks(now)
    }
}

/// The time to set a timer to, in milliseconds, for a delay in nanoseconds: a millisecond more
/// than the whole ones, in 32 bits.
pub fn timer_millis(delay_nanos: u128) -> (res: u32)
    ensures
        res == (delay_nanos / 1_000_000 + 1) % 0x1_0000_0000,
{
    ((delay_nanos / 1_000_000 + 1) % 0x1_0000_0000) as u32
}

/// Whether a message of the window that wakes the thread makes the tasks be processed.
/// `is_ready` tells whether the engine is there to run them.
pub fn wakes_executor(msg: u32, is_ready: bool) -> (res: bool)
    ensures
        res == (is_ready && (msg == WM_NULL || msg == WM_TIMER)),
{
    is_ready && (msg == WM_NULL || msg == WM_TIMER)
}

/// Whether waiting for the next task is over: one was run, or the time that was given is up.
pub fn poll_is_over(has_run_task: bool, waited_nanos: u128, timeout_nanos: u128) -> (res: bool)
    ensures
        res == (has_run_task || waited_nanos >= timeout_nanos),
{
    has_run_task || waited_nanos >= timeout_nanos
}

/// How urgent the engine calls a thread.
#[derive(Clone, Copy, Debug, PartialEq, Eq, Structural)]
pub enum EnginePriority {
    Background,
    Display,
    Raster,
    Other,
}

/// How urgent a thread is to the system.
#[derive(Clone, Copy, Debug, PartialEq, Eq, Structural)]
pub enum ThreadPriority {
    BelowNormal,
    Normal,
    AboveNormal,
}

/// The priority that a thread gets from the system.
pub fn set_thread_priority(priority: EnginePriority) -> (res: ThreadPriority)
    ensures
        res == (match priority {
            EnginePriority::Background => ThreadPriority::BelowNormal,
            EnginePriority::Display => ThreadPriority::AboveNormal,
            EnginePriority::Raster => ThreadPriority::AboveNormal,
            EnginePriority::Other => ThreadPriority::Normal,
        }),
{
    match priority {
        EnginePriority::Background => ThreadPriority::BelowNormal,
        EnginePriority::Display | EnginePriority::Raster => ThreadPriority::AboveNormal,
        EnginePriority::Other => ThreadPriority::Normal,
    }
}

/// No task is lost, and none is both run and kept: the tasks that are run and those that stay
/// are together the tasks that there were.
pub proof fn every_task_runs_or_stays<T>(tasks: Seq<Task<T>>, now: u64)
    ensures
        due_tasks(tasks, now).to_multiset().add(pending_tasks(tasks, now).to_multiset())
            == tasks.to_multiset(),
        forall|i: int|
            0 <= i < due_tasks(tasks, now).len() ==> is_due(#[trigger] due_tasks(tasks, now)[i], now),
        forall|i: int|
            0 <= i < pending_tasks(tasks, now).len() ==> !is_due(
                #[trigger] pending_tasks(tasks, now)[i],
                now,
            ),
    decreases tasks.len(),
{
    broadcast use vstd::multiset::group_multiset_axioms;

    if tasks.len() == 0 {
        tasks.to_multiset_ensures();
        due_tasks(tasks, now).to_multiset_ensures();
        assert(due_tasks(tasks, now).to_multiset().add(pending_tasks(tasks, now).to_multiset())
            =~= tasks.to_multiset());
    } else {
        let fewer = tasks.drop_last();
        every_task_runs_or_stays(fewer, now);
        due_tasks(fewer, now).to_multiset_ensures();
        pending_tasks(fewer, now).to_multiset_ensures();
        fewer.to_multiset_ensures();
        assert(fewer.push(tasks.last()) =~= tasks);
        assert(due_tasks(tasks, now).to_multiset().add(pending_tasks(tasks, now).to_multiset())
            =~= tasks.to_multiset());
    }
}

/// Processing the queue again at the same time runs nothing and keeps all that waits.
pub proof fn processing_twice<T>(tasks: Seq<Task<T>>, now: u64)
    ensures
        due_tasks(pending_tasks(tasks, now), now) == Seq::<Task<T>>::empty(),
        pending_tasks(pending_tasks(tasks, now), now) == pending_tasks(tasks, now),
    decreases tasks.len(),
{
    if tasks.len() > 0 {
        processing_twice(tasks.drop_last(), now);
        let before = pending_tasks(tasks.drop_last(), now);
        assert(before.push(tasks.last()).drop_last() =~= before);
    }
}

/// Once the time of every task has come, all of them are run, in the order in which they came, and
/// none stays.
pub proof fn all_tasks_run_in_time<T>(tasks: Seq<Task<T>>, now: u64)
    requires
        forall|i: int| 0 <= i < tasks.len() ==> is_due(#[trigger] tasks[i], now),
    ensures
        due_tasks(tasks, now) == tasks,
        pending_tasks(tasks, now) == Seq::<Task<T>>::empty(),
        next_delay(tasks, now) is None,
    decreases tasks.len(),
{
    if tasks.len() == 0 {
        assert(due_tasks(tasks, now) =~= tasks);
    } else {
        let fewer = tasks.drop_last();
        assert forall|i: int| 0 <= i < fewer.len() implies is_due(#[trigger] fewer[i], now) by {
            assert(fewer[i] == tasks[i]);
        }
        all_tasks_run_in_time(fewer, now);
        assert(is_due(tasks[tasks.len() - 1], now));
        assert(fewer.push(tasks.last()) =~= tasks);
    }
}

/// The next delay is right: until it is over no task that waits is to be run, and once it is over
/// one is.
pub proof fn next_delay_is_right<T>(tasks: Seq<Task<T>>, now: u64)
    ensures
        match next_delay(tasks, now) {
            Some(delay) => {
                &&& delay > 0
                &&& now + delay <= u64::MAX
                &&& forall|i: int|
                    0 <= i < pending_tasks(tasks, now).len() ==> now + delay <= (
                    #[trigger] pending_tasks(tasks, now)[i]).target_time_nanos
                &&& exists|i: int|
                    0 <= i < pending_tasks(tasks, now).len() && is_due(
                        #[trigger] pending_tasks(tasks, now)[i],
                        (now + delay) as u64,
                    )
            },
            None => pending_tasks(tasks, now) == Seq::<Task<T>>::empty(),
        },
    decreases tasks.len(),
{
    if tasks.len() > 0 {
        let fewer = tasks.drop_last();
        next_delay_is_right(fewer, now);
        let before = pending_tasks(fewer, now);
        let pending = pending_tasks(tasks, now);
        if !is_due(tasks.last(), now) {
            let delay = next_delay(tasks, now)->0;
            assert(pending[before.len() as int] == tasks.last());
            if next_delay(fewer, now) is Some {
                let least = next_delay(fewer, now)->0;
                let i = choose|i: int|
                    0 <= i < before.len() && is_due(#[trigger] before[i], (now + least) as u64);
                assert(pending[i] == before[i]);
                assert forall|i: int| 0 <= i < pending.len() implies now + delay <= (
                #[trigger] pending[i]).target_time_nanos by {
                    if i < before.len() {
                        assert(pending[i] == before[i]);
                    }
                }
            }
        }
    }
}

/// A timer that is set for a delay does not run out before the delay is over, and at most a
/// millisecond after it, where the delay fits.
pub proof fn timer_covers_the_delay(delay_nanos: u128)
    requires
        delay_nanos / 1_000_000 + 1 < 0x1_0000_0000,
    ensures
        ({
            let millis = (delay_nanos / 1_000_000 + 1) % 0x1_0000_0000;
            delay_nanos < millis * 1_000_000 <= delay_nanos + 1_000_000
        }),
{
}

/// The tasks that are handed out are those whose time is not after now, and those that stay are the
/// others, both in the order in which they came. The delay is that of the first that stays.
pub proof fn tasks_are_run_at_their_time<T: Copy>(
    queue: &mut FlutterTaskQueue<T>,
    now: u64,
    due: DueTasks<T>,
)
    requires
        call_ensures(FlutterTaskQueue::<T>::process_tasks, (queue, now), due),
    ensures
        due.tasks@ == old(queue)@.filter(|task: Task<T>| task.target_time_nanos <= now),
        final(queue)@ == old(queue)@.filter(|task: Task<T>| now < task.target_time_nanos),
        due.next_delay is None <==> final(queue)@.len() == 0,
        due.next_delay is Some ==> {
            &&& forall|i: int|
                0 <= i < final(queue)@.len() ==> now + due.next_delay->0 <= (
                #[trigger] final(queue)@[i]).target_time_nanos
            &&& exists|i: int|
                0 <= i < final(queue)@.len() && now + due.next_delay->0 == (
                #[trigger] final(queue)@[i]).target_time_nanos
        },
{
    lemma_filtered_tasks(old(queue)@, now);
    next_delay_is_right(old(queue)@, now);
}

proof fn lemma_filtered_tasks<T>(tasks: Seq<Task<T>>, now: u64)
    ensures
        due_tasks(tasks, now) == tasks.filter(|task: Task<T>| task.target_time_nanos <= now),
        pending_tasks(tasks, now) == tasks.filter(|task: Task<T>| now < task.target_time_nanos),
    decreases tasks.len(),
{
    reveal(Seq::filter);
    if tasks.len() > 0 {
        lemma_filtered_tasks(tasks.drop_last(), now);
    } else {
        assert(due_tasks(tasks, now) =~= tasks);
        assert(pending_tasks(tasks, now) =~= tasks);
    }
}

/// The executor does with its tasks what the queue does.
pub proof fn executor_runs_like_the_queue<T: Copy>(
    executor: &mut TaskRunnerExecutor<T>,
    queue: &mut FlutterTaskQueue<T>,
    now: u64,
    from_executor: DueTasks<T>,
    from_queue: DueTasks<T>,
)
    requires
        call_ensures(TaskRunnerExecutor::<T>::process_all, (executor, now), from_executor),
        call_ensures(FlutterTaskQueue::<T>::process_tasks, (queue, now), from_queue),
        old(executor)@ == old(queue)@,
    ensures
        from_executor.tasks@ == from_queue.tasks@,
        from_executor.next_delay == from_queue.next_delay,
        final(executor)@ == final(queue)@,
{
}

/// A task that is put in stands behind all others, in the queue and in the executor.
pub proof fn new_task_is_the_last<T>(
    queue: &mut FlutterTaskQueue<T>,
    executor: &mut TaskRunnerExecutor<T>,
    task: Task<T>,
)
    requires
        call_ensures(FlutterTaskQueue::<T>::enqueue, (queue, task), ()),
        call_ensures(TaskRunnerExecutor::<T>::enqueue, (executor, task), ()),
    ensures
        final(queue)@ == old(queue)@ + seq![task],
        final(executor)@ == old(executor)@ + seq![task],
{
    assert(old(queue)@.push(task) =~= old(queue)@ + seq![task]);
    assert(old(executor)@.push(task) =~= old(executor)@ + seq![task]);
}

/// A timer runs out after the delay is over, and at most a millisecond after that, where the time
/// fits into its 32 bits.
pub proof fn timer_runs_out_after_the_delay(delay_nanos: u128, millis: u32)
    requires
        call_ensures(timer_millis, (delay_nanos,), millis),
        delay_nanos < 4_294_967_295_000_000,
    ensures
        delay_nanos < millis * 1_000_000 <= delay_nanos + 1_000_000,
{
    timer_covers_the_delay(delay_nanos);
}

/// Only the empty message and the timer make the tasks be processed, and only once the engine is
/// there.
pub proof fn executor_is_woken(msg: u32, is_ready: bool, wakes: bool)
    requires
        call_ensures(wakes_executor, (msg, is_ready), wakes),
    ensures
        wakes <==> is_ready && (msg == 0 || msg == 0x113),
{
}

/// Waiting for a task ends with a task or with the time that was given, and with nothing else.
pub proof fn waiting_ends(has_run_task: bool, waited: u128, timeout: u128, is_over: bool)
    requires
        call_ensures(poll_is_over, (has_run_task, waited, timeout), is_over),
    ensures
        has_run_task ==> is_over,
        !has_run_task ==> (is_over <==> timeout <= waited),
{
}

/// What the engine calls background runs below all others, and what it displays and draws with above
/// all others.
pub proof fn drawing_comes_first(priority: EnginePriority, given: ThreadPriority)
    requires
        call_ensures(set_thread_priority, (priority,), given),
    ensures
        given is BelowNormal <==> priority is Background,
        given is AboveNormal <==> priority is Display || priority is Raster,
        given is Normal <==> priority is Other,
{
}

} // verus!
