use flion::render_thread::{RenderAction, RenderEvent, RenderTask, RenderThread};
use flion::resize_controller::{CommitStep, CompositionHandler, ResizeController};
use flion::task_runner::{
    poll_is_over, set_thread_priority, timer_millis, wakes_executor, EnginePriority, FlutterTaskQueue, Task,
    TaskRunnerExecutor, ThreadPriority, WM_NULL, WM_TIMER,
};

fn task(target_time_nanos: u64, task: char) -> Task<char> {
    Task { target_time_nanos, task }
}

fn names(tasks: &[Task<char>]) -> String {
    tasks.iter().map(|task| task.task).collect()
}

#[test]
fn due_tasks_run_in_order() {
    let mut queue = FlutterTaskQueue::new();
    for (time, name) in [(5, 'a'), (20, 'b'), (10, 'c'), (15, 'd'), (1, 'e')] {
        queue.enqueue(task(time, name));
    }
    let due = queue.process_tasks(10);
    assert_eq!(names(&due.tasks), "ace");
    assert_eq!(due.next_delay, Some(5));
    let again = queue.process_tasks(10);
    assert!(again.tasks.is_empty());
    assert_eq!(again.next_delay, Some(5));
    let rest = queue.process_tasks(20);
    assert_eq!(names(&rest.tasks), "bd");
    assert_eq!(rest.next_delay, None);
    assert!(queue.process_tasks(u64::MAX).tasks.is_empty());
}

#[test]
fn tasks_between_events() {
    let mut executor = TaskRunnerExecutor::new();
    executor.enqueue(task(3, 'x'));
    executor.enqueue(task(1, 'y'));
    let due = executor.process_all(2);
    assert_eq!(names(&due.tasks), "y");
    assert_eq!(due.next_delay, Some(1));
    assert_eq!(names(&executor.process_all(3).tasks), "x");
}

#[test]
fn timers() {
    assert_eq!(timer_millis(0), 1);
    assert_eq!(timer_millis(999_999), 1);
    assert_eq!(timer_millis(1_000_000), 2);
    assert_eq!(timer_millis(0xFFFF_FFFF * 1_000_000), 0);
}

#[test]
fn messages_that_wake() {
    assert!(wakes_executor(WM_NULL, true));
    assert!(wakes_executor(WM_TIMER, true));
    assert!(!wakes_executor(WM_TIMER, false));
    assert!(!wakes_executor(0x10, true));
}

#[test]
fn priorities() {
    let of = set_thread_priority;
    assert_eq!(of(EnginePriority::Background), ThreadPriority::BelowNormal);
    assert_eq!(of(EnginePriority::Display), ThreadPriority::AboveNormal);
    assert_eq!(of(EnginePriority::Raster), ThreadPriority::AboveNormal);
    assert_eq!(of(EnginePriority::Other), ThreadPriority::Normal);
}

#[test]
fn drawing_thread() {
    let mut thread = RenderThread::new();
    match thread.step(Some(RenderEvent::PostTask(RenderTask(3, 'x'))), 3) {
        RenderAction::Run(tasks) => {
            assert_eq!(tasks.len(), 1);
            assert_eq!(tasks[0].1, 'x');
        }
        RenderAction::Stop => panic!("not told to stop"),
    }
    assert!(matches!(thread.step(None, 3), RenderAction::Run(tasks) if tasks.is_empty()));
    assert!(matches!(thread.step(Some(RenderEvent::Stop), 0), RenderAction::Stop));
}

fn run_names(action: RenderAction<char>) -> String {
    match action {
        RenderAction::Run(tasks) => tasks.iter().map(|task| task.1).collect(),
        RenderAction::Stop => panic!("not told to stop"),
    }
}

#[test]
fn later_render_tasks_wait() {
    let mut thread = RenderThread::new();
    let post = |time: u64, name: char| Some(RenderEvent::PostTask(RenderTask(time, name)));
    assert_eq!(thread.shortest_wait(0), None);
    assert_eq!(run_names(thread.step(post(30, 'a'), 10)), "");
    assert_eq!(thread.shortest_wait(10), Some(20));
    assert_eq!(run_names(thread.step(post(20, 'b'), 10)), "");
    assert_eq!(run_names(thread.step(post(25, 'c'), 10)), "");
    assert_eq!(thread.shortest_wait(10), Some(10));
    assert_eq!(run_names(thread.step(post(11, 'd'), 12)), "d");
    assert_eq!(thread.shortest_wait(12), Some(8));
    assert_eq!(run_names(thread.step(None, 19)), "");
    assert!(matches!(thread.step(Some(RenderEvent::Stop), 100), RenderAction::Stop));
    assert_eq!(run_names(thread.step(None, 25)), "bc");
    assert_eq!(thread.shortest_wait(25), Some(5));
    assert_eq!(thread.shortest_wait(30), None);
    assert_eq!(run_names(thread.step(None, 30)), "a");
    assert_eq!(run_names(thread.step(None, u64::MAX)), "");
}

#[test]
fn resize_from_start_to_end() {
    let mut controller = ResizeController::new();
    let mut handler = CompositionHandler::new();
    assert!(!controller.must_wait());
    assert!(controller.current_resize().is_none());
    assert_eq!(handler.get_surface_size(&controller), (0, 0));
    assert_eq!(handler.present(&controller), vec![CommitStep::Commit]);

    controller.begin(30, 40);
    assert!(controller.must_wait());
    assert_eq!(handler.get_surface_size(&controller), (30, 40));
    assert_eq!(
        handler.present(&controller),
        vec![
            CommitStep::WaitForCommitCompletion,
            CommitStep::Commit,
            CommitStep::CompleteResize,
        ]
    );
    let resize = controller.current_resize().unwrap();
    assert_eq!(resize.size(), (30, 40));
    resize.complete(&mut controller);
    assert!(!controller.must_wait());
    assert_eq!(handler.get_surface_size(&controller), (30, 40));
}

#[test]
fn waiting_for_a_task() {
    assert!(!poll_is_over(false, 99, 100));
    assert!(poll_is_over(true, 0, 100));
    assert!(poll_is_over(false, 100, 100));
    assert!(poll_is_over(false, 0, 0));
}
