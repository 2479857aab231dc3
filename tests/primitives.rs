use herdbench::{CompletionCounter, Gate, TeardownLatch};

#[test]
fn counter_starts_at_zero() {
    let c = CompletionCounter::new(3);
    assert_eq!(c.count(), 0);
    assert_eq!(c.target(), 3);
    assert!(!c.is_complete());
}

#[test]
fn counter_reports_reaching_target_once() {
    let mut c = CompletionCounter::new(3);
    assert!(!c.finish_one());
    assert!(!c.finish_one());
    assert!(c.finish_one());
    assert_eq!(c.count(), 3);
    assert!(c.is_complete());
}

#[test]
fn counter_of_one_worker() {
    let mut c = CompletionCounter::new(1);
    assert!(c.finish_one());
    assert!(c.is_complete());
}

#[test]
fn closed_gate_blocks() {
    let mut g = Gate::new();
    assert_eq!(g.credits(), 0);
    assert!(!g.try_pass());
    assert_eq!(g.credits(), 0);
}

#[test]
fn one_release_lets_one_worker_through() {
    let mut g = Gate::new();
    g.release();
    assert_eq!(g.credits(), 1);
    assert!(g.try_pass());
    assert!(!g.try_pass());
    assert_eq!(g.credits(), 0);
}

#[test]
fn releases_accumulate() {
    let mut g = Gate::new();
    g.release();
    g.release();
    assert_eq!(g.credits(), 2);
    assert!(g.try_pass());
    assert!(g.try_pass());
    assert!(!g.try_pass());
}

#[test]
fn latch_stays_raised() {
    let mut l = TeardownLatch::new();
    assert!(!l.is_raised());
    l.raise();
    assert!(l.is_raised());
    l.raise();
    assert!(l.is_raised());
}
