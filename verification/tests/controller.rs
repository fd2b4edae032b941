use window::controller::{ControllerError, Thread, ThreadController, ThreadMessage};

#[test]
fn new_worker_is_live_and_empty() {
    let t = Thread::new();
    assert!(!t.is_finished());
    assert_eq!(t.received, vec![]);
}

#[test]
fn send_records_message_in_order() {
    let mut t = Thread::new();
    assert!(t.send_message(ThreadMessage::Echo("a")).is_ok());
    assert!(t.send_message(ThreadMessage::Echo("b")).is_ok());
    assert!(!t.is_finished());
    assert_eq!(
        t.received,
        vec![ThreadMessage::Echo("a"), ThreadMessage::Echo("b")]
    );
}

#[test]
fn send_to_finished_worker_fails_with_channel_closed() {
    let mut t = Thread::new();
    t.finish();
    let r = t.send_message(ThreadMessage::Echo("x"));
    assert_eq!(r, Err(ControllerError::ChannelClosed));
    assert_eq!(t.received, vec![]);
}

#[test]
fn stop_delivers_stop_and_finishes() {
    let mut t = Thread::new();
    t.stop();
    assert!(t.is_finished());
    assert_eq!(t.received, vec![ThreadMessage::Stop]);
}

#[test]
fn stop_on_finished_worker_is_idempotent() {
    let mut t = Thread::new();
    t.finish();
    t.stop();
    t.stop();
    assert!(t.is_finished());
    assert_eq!(t.received, vec![]);
}

#[test]
fn add_thread_chains_and_counts() {
    let c = ThreadController::new()
        .add_thread(Thread::new())
        .add_thread(Thread::new());
    assert_eq!(c.threads_count(), 2);
}

#[test]
fn send_all_skips_finished_workers() {
    let mut done = Thread::new();
    done.finish();
    let mut c = ThreadController::new()
        .add_thread(done)
        .add_thread(Thread::new());
    c.send_all(ThreadMessage::Echo("x"));
    assert_eq!(c.threads[0].received, vec![]);
    assert_eq!(c.threads[1].received, vec![ThreadMessage::Echo("x")]);
}

#[test]
fn stop_all_finishes_every_worker_and_skips_finished() {
    let mut done = Thread::new();
    done.finish();
    let mut c = ThreadController::new()
        .add_thread(done)
        .add_thread(Thread::new());
    c.stop_all_threads();
    assert!(c.threads.iter().all(|t| t.is_finished()));
    assert_eq!(c.threads[0].received, vec![]);
    assert_eq!(c.threads[1].received, vec![ThreadMessage::Stop]);
}

#[test]
fn stop_broadcast_finishes_all_workers() {
    let mut c = ThreadController::new()
        .add_thread(Thread::new())
        .add_thread(Thread::new());
    let r = c.begin(&vec![ThreadMessage::Stop]);
    assert!(r.is_ok());
    assert_eq!(c.threads_count(), 2);
    assert!(c.threads.iter().all(|t| t.is_finished()));
}

#[test]
fn stop_into_empty_controller_still_returns() {
    let mut c = ThreadController::new();
    let r = c.begin(&vec![ThreadMessage::Stop]);
    assert!(r.is_ok());
    assert_eq!(c.threads_count(), 0);
}

#[test]
fn echo_reaches_every_worker_exactly_once_in_order() {
    let mut c = ThreadController::new()
        .add_thread(Thread::new())
        .add_thread(Thread::new());
    let r = c.begin(&vec![
        ThreadMessage::Echo("x"),
        ThreadMessage::Echo("y"),
        ThreadMessage::Stop,
    ]);
    assert!(r.is_ok());
    for t in &c.threads {
        assert_eq!(
            t.received,
            vec![
                ThreadMessage::Echo("x"),
                ThreadMessage::Echo("y"),
                ThreadMessage::Stop,
            ]
        );
    }
}

#[test]
fn relay_without_stop_fails_with_channel_closed() {
    let mut c = ThreadController::new().add_thread(Thread::new());
    let r = c.begin(&vec![ThreadMessage::Echo("x")]);
    assert_eq!(r, Err(ControllerError::ChannelClosed));
    assert_eq!(c.threads[0].received, vec![ThreadMessage::Echo("x")]);
    assert!(!c.threads[0].is_finished());
}

#[test]
fn messages_before_stop_reach_only_live_workers() {
    let mut done = Thread::new();
    done.finish();
    let mut c = ThreadController::new()
        .add_thread(Thread::new())
        .add_thread(done);
    let r = c.begin(&vec![ThreadMessage::Echo("x"), ThreadMessage::Stop]);
    assert!(r.is_ok());
    assert_eq!(
        c.threads[0].received,
        vec![ThreadMessage::Echo("x"), ThreadMessage::Stop]
    );
    assert_eq!(c.threads[1].received, vec![]);
    assert!(c.threads.iter().all(|t| t.is_finished()));
}

#[test]
fn join_all_accepts_finished_workers() {
    let mut a = Thread::new();
    let mut b = Thread::new();
    a.finish();
    b.stop();
    let c = ThreadController::new().add_thread(a).add_thread(b);
    c.join_all_threads();
    assert_eq!(c.threads_count(), 2);
}
