//! The registration/wake protocol: a registration adds one pending entry
//! and starts nothing, a wake drains everything pending exactly once, a
//! failed bind leaves running watches untouched.

use monitor::dispatch::Dispatcher;
use monitor::dispatch::Registry;
use monitor::dispatch::WakeSignal;
use monitor::listen::BindError;
use monitor::listen::listen_step;

#[test]
fn wake_signal_is_a_pure_pulse() {
    let mut s = WakeSignal::new();
    assert!(!s.raised);
    s.raise();
    assert!(s.raised);
    s.raise();
    assert!(s.raised);
    assert!(s.take());
    assert!(!s.raised);
    assert!(!s.take());
}

#[test]
fn registry_hands_entries_back_from_the_back() {
    let mut r = Registry::new();
    assert_eq!(r.len(), 0);
    r.enqueue(1);
    r.enqueue(2);
    r.enqueue(3);
    assert_eq!(r.len(), 3);
    assert_eq!(r.pop(), Some(3));
    assert_eq!(r.pop(), Some(2));
    assert_eq!(r.pop(), Some(1));
    assert_eq!(r.pop(), None);
    assert_eq!(r.len(), 0);
}

#[test]
fn registering_starts_no_pump_and_raises_the_signal() {
    let mut d = Dispatcher::new();
    d.register(7);
    assert!(d.signal.raised);
    assert_eq!(d.registry.len(), 1);
    assert_eq!(d.started.len(), 0);
}

#[test]
fn one_wake_drains_every_pending_watch_exactly_once() {
    let mut d = Dispatcher::new();
    d.register(1);
    d.register(2);
    d.register(3);
    let drained = d.wake();
    assert_eq!(drained, vec![3, 2, 1]);
    assert_eq!(d.started, vec![3, 2, 1]);
    assert_eq!(d.registry.len(), 0);
    assert!(!d.signal.raised);
    for w in [1u64, 2, 3] {
        assert_eq!(d.started.iter().filter(|x| **x == w).count(), 1);
    }
}

#[test]
fn a_second_wake_starts_nothing_new() {
    let mut d = Dispatcher::new();
    d.register(1);
    d.register(2);
    let first = d.wake();
    assert_eq!(first, vec![2, 1]);
    let second = d.wake();
    assert!(second.is_empty());
    assert_eq!(d.started, vec![2, 1]);
}

#[test]
fn registrations_between_wakes_are_all_pumped_once() {
    let mut d = Dispatcher::new();
    d.register(10);
    let first = d.wake();
    assert_eq!(first, vec![10]);
    d.register(11);
    d.register(12);
    let second = d.wake();
    assert_eq!(second, vec![12, 11]);
    assert_eq!(d.started, vec![10, 12, 11]);
    for w in [10u64, 11, 12] {
        assert_eq!(d.started.iter().filter(|x| **x == w).count(), 1);
    }
}

#[test]
fn listen_returns_its_handle_before_any_pump_starts() {
    let mut d = Dispatcher::new();
    let r = listen_step(&mut d, Ok(5));
    assert_eq!(r.ok(), Some(5));
    // the handle is in the caller's hand while nothing has been pumped yet
    assert_eq!(d.started.len(), 0);
    assert_eq!(d.registry.len(), 1);
    assert!(d.signal.raised);
    // the dispatcher's next wake starts that pump, exactly once
    let drained = d.wake();
    assert_eq!(drained, vec![5]);
    assert_eq!(d.started, vec![5]);
}

#[test]
fn a_failed_bind_reports_its_message_and_registers_nothing() {
    let mut d = Dispatcher::new();
    let r = listen_step(&mut d, Err(BindError { msg: "No path was found.".to_string() }));
    match r {
        Err(e) => assert_eq!(e.msg, "No path was found."),
        Ok(_) => panic!("a failed bind must fail the call"),
    }
    assert_eq!(d.registry.len(), 0);
    assert_eq!(d.started.len(), 0);
    assert!(!d.signal.raised);
}

#[test]
fn a_failed_bind_leaves_a_running_watch_alone() {
    let mut d = Dispatcher::new();
    // watch B is registered and its pump is running
    let rb = listen_step(&mut d, Ok(2));
    assert_eq!(rb.ok(), Some(2));
    let drained = d.wake();
    assert_eq!(drained, vec![2]);
    assert_eq!(d.started, vec![2]);
    // the bind for watch A fails
    let ra = listen_step(&mut d, Err(BindError { msg: "No path was found.".to_string() }));
    assert!(ra.is_err());
    // watch B is still running, still exactly once, nothing new pending
    assert_eq!(d.started, vec![2]);
    assert_eq!(d.registry.len(), 0);
}
