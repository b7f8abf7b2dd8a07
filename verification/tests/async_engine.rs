use jay_compositor::async_engine::ae_fd::dispatch_decision;
use jay_compositor::async_engine::ae_fd::interest_events;
use jay_compositor::async_engine::ae_fd::poll_decision;
use jay_compositor::async_engine::ae_fd::AsyncFdData;
use jay_compositor::async_engine::ae_fd::FdPoll;
use jay_compositor::async_engine::ae_fd::FdStatus;
use jay_compositor::async_engine::ae_queue::DispatchCursor;
use jay_compositor::async_engine::ae_queue::DispatchQueue;
use jay_compositor::async_engine::ae_queue::DispatchStep;
use jay_compositor::async_engine::ae_queue::Dispatcher;
use jay_compositor::async_engine::ae_task::DataDrop;
use jay_compositor::async_engine::ae_task::HandlePoll;
use jay_compositor::async_engine::ae_task::TaskState;
use jay_compositor::async_engine::ae_task::CANCELLED;
use jay_compositor::async_engine::ae_task::COMPLETED;
use jay_compositor::async_engine::ae_task::RUNNING;
use jay_compositor::async_engine::ae_timer::program_spec;
use jay_compositor::async_engine::ae_timer::TimerDuration;
use jay_compositor::async_engine::ae_timer::TimerSpec;
use jay_compositor::async_engine::AsyncError;
use jay_compositor::async_engine::Phase;
use jay_compositor::async_engine::Timeout;
use jay_compositor::async_engine::Yield;

fn step(q: &mut DispatchQueue<u32, &'static str>, c: &mut DispatchCursor) -> String {
    match q.dispatch_step(c) {
        DispatchStep::Run(p, batch) => format!("run {:?} {:?}", p, batch),
        DispatchStep::Wake(w) => format!("wake {:?}", w),
        DispatchStep::Finished => "finished".to_string(),
    }
}

#[test]
fn phases_run_in_order() {
    let mut q: DispatchQueue<u32, &'static str> = DispatchQueue::new();
    assert!(q.push(1, Phase::Present));
    assert!(!q.push(2, Phase::EventHandling));
    assert!(!q.push(3, Phase::Present));
    q.push_yield("y");
    let mut c = DispatchCursor::new();
    assert_eq!(step(&mut q, &mut c), "run EventHandling [2]");
    assert_eq!(q.iteration(), 1);
    assert_eq!(step(&mut q, &mut c), "run Present [1, 3]");
    // A runnable queued for an earlier phase waits for the next iteration.
    q.push(4, Phase::Layout);
    assert_eq!(step(&mut q, &mut c), "wake [\"y\"]");
    assert_eq!(step(&mut q, &mut c), "run Layout [4]");
    assert_eq!(q.iteration(), 2);
    assert_eq!(step(&mut q, &mut c), "wake []");
    assert_eq!(step(&mut q, &mut c), "finished");
    // Once finished, the next push asks for a dispatch again.
    assert!(q.push(5, Phase::PostLayout));
}

#[test]
fn clear_drops_everything_queued() {
    let mut q: DispatchQueue<u32, &'static str> = DispatchQueue::new();
    q.push(1, Phase::Layout);
    q.push_yield("y");
    q.clear();
    let mut c = DispatchCursor::new();
    // The counter still holds the dropped runnable: an iteration starts
    // and ends without running anything.
    assert_eq!(step(&mut q, &mut c), "wake []");
    assert_eq!(q.iteration(), 1);
}

#[test]
fn dispatcher_install_follows_registration() {
    let ok: Result<DispatchQueue<u32, u32>, AsyncError> = Dispatcher::install(Ok(()));
    assert_eq!(ok.unwrap().iteration(), 0);
    let err: Result<DispatchQueue<u32, u32>, AsyncError> = Dispatcher::install(Err(AsyncError::EventLoopError));
    assert!(matches!(err, Err(AsyncError::EventLoopError)));
}

#[test]
fn phase_indices() {
    for (i, p) in [Phase::EventHandling, Phase::Layout, Phase::PostLayout, Phase::Present].into_iter().enumerate() {
        assert_eq!(p.index(), i);
        assert_eq!(Phase::from_index(i), p);
    }
}

#[test]
fn timeouts_wake_the_latest_waker() {
    let mut t: Timeout<u32> = Timeout::new();
    assert!(!t.poll(1));
    assert!(!t.poll(2));
    assert_eq!(t.dispatch(), Some(2));
    assert!(t.poll(3));
    assert!(t.poll(4));
    assert_eq!(t.dispatch(), None);
}

#[test]
fn yields_are_ready_in_a_later_iteration() {
    let y = Yield { iteration: 5 };
    assert!(!y.is_ready(5));
    assert!(y.is_ready(6));
}

#[test]
fn fd_interest_and_polls() {
    assert_eq!(interest_events(false, false), 0);
    assert_eq!(interest_events(true, false), 1);
    assert_eq!(interest_events(false, true), 4);
    assert_eq!(interest_events(true, true), 5);
    assert_eq!(poll_decision(Some(FdStatus::Failed), false), FdPoll::Ready(FdStatus::Failed));
    assert_eq!(poll_decision(None, false), FdPoll::RegisterAndWait);
    assert_eq!(poll_decision(None, true), FdPoll::Wait);
}

#[test]
fn fd_event_dispatch() {
    let d = dispatch_decision(1, true, false);
    assert_eq!(d.status, FdStatus::Normal);
    assert!(d.wake_readers && !d.wake_writers && !d.remove && !d.unregister);
    // Readable but nobody reads: the loop stops watching.
    let d = dispatch_decision(1, false, true);
    assert!(d.unregister);
    // An error fails the descriptor and wakes everyone.
    let d = dispatch_decision(8, false, false);
    assert_eq!(d.status, FdStatus::Failed);
    assert!(d.remove && d.wake_readers && d.wake_writers && !d.unregister);
    let d = dispatch_decision(0x10 | 4, false, true);
    assert_eq!(d.status, FdStatus::Failed);
}

#[test]
fn fd_registration() {
    let mut fd = AsyncFdData::new();
    assert_eq!(fd.register(true), Some(1));
    assert_eq!(fd.register(true), None);
    assert_eq!(fd.register(false), Some(5));
    fd.acquire();
    assert!(!fd.release());
    assert_eq!(fd.unregister(), 0);
    assert!(!fd.read_registered && !fd.write_registered);
    assert!(fd.release());
}

#[test]
fn task_runs_to_completion() {
    let mut t = TaskState::new();
    assert!(t.schedule_run());
    assert_eq!(t.ref_count, 2);
    // A wake while queued does not queue the task twice.
    assert!(!t.schedule_run());
    assert!(t.run_begin());
    let end = t.run_end(false);
    // It was woken while running: it runs again.
    assert!(end.push_again);
    assert!(!end.wake_owner);
    assert!(end.drop.is_none());
    assert_eq!(t.poll_handle(), HandlePoll::Pending);
    assert!(t.run_begin());
    let end = t.run_end(true);
    assert!(end.wake_owner && !end.push_again);
    assert_eq!(t.state & RUNNING, 0);
    assert_ne!(t.state & COMPLETED, 0);
    // A completed task is never queued again.
    assert!(!t.schedule_run());
    assert_eq!(t.drop_data(), DataDrop::Result);
    assert_eq!(t.poll_handle(), HandlePoll::Ready);
    assert_eq!(t.poll_handle(), HandlePoll::AlreadyEmptied);
    assert_eq!(t.drop_data(), DataDrop::Nothing);
}

#[test]
fn cancelled_task_drops_its_future() {
    let mut t = TaskState::new();
    assert_eq!(t.cancel(), (Some(DataDrop::Future), true));
    assert_ne!(t.state & CANCELLED, 0);
    let mut r = TaskState::new();
    assert!(r.schedule_run());
    // Cancelled while queued: the future is dropped at the end of the run.
    assert_eq!(r.cancel(), (None, false));
    assert!(!r.run_begin());
    let end = r.run_end(false);
    assert_eq!(end.drop, Some(DataDrop::Future));
    assert!(!end.push_again);
}

#[test]
fn timer_programming() {
    let zero = TimerSpec { value_sec: 0, value_nsec: 0, interval_sec: 0, interval_nsec: 0 };
    let d = |secs, nanos| TimerDuration { secs, nanos };
    assert_eq!(program_spec(None, Some(d(1, 2))), zero);
    assert_eq!(
        program_spec(Some(d(3, 4)), None),
        TimerSpec { value_sec: 3, value_nsec: 4, interval_sec: 0, interval_nsec: 0 }
    );
    assert_eq!(
        program_spec(Some(d(3, 4)), Some(d(1, 2))),
        TimerSpec { value_sec: 3, value_nsec: 4, interval_sec: 1, interval_nsec: 2 }
    );
}
