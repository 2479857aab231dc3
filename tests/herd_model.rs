use herdbench::{Herd, Stage};

fn all_at(h: &Herd, st: Stage) -> bool {
    (0..h.workers()).all(|i| h.stage(i) == st)
}

#[test]
fn fresh_herd_waits_at_closed_gate() {
    let mut h = Herd::new(4);
    assert_eq!(h.workers(), 4);
    assert_eq!(h.finished(), 0);
    assert!(all_at(&h, Stage::AtGate));
    for i in 0..4 {
        assert!(!h.step(i));
    }
    assert!(all_at(&h, Stage::AtGate));
}

#[test]
fn four_workers_one_release_all_complete_and_exit() {
    let h = Herd::run_iteration(4);
    assert_eq!(h.finished(), 4);
    assert!(h.is_complete());
    assert!(h.all_exited());
}

#[test]
fn single_worker_iteration() {
    let h = Herd::run_iteration(1);
    assert_eq!(h.finished(), 1);
    assert!(h.all_exited());
}

#[test]
fn large_herd_iteration() {
    let h = Herd::run_iteration(1000);
    assert_eq!(h.finished(), 1000);
    assert!(h.all_exited());
}

#[test]
fn relay_chain_in_reverse_order() {
    let mut h = Herd::new(3);
    h.open_gate();
    // the last worker takes the single credit; the others stay blocked
    assert!(h.step(2));
    assert!(!h.step(0));
    assert!(!h.step(1));
    assert_eq!(h.stage(2), Stage::Working);
    assert!(h.step(2));
    assert_eq!(h.finished(), 1);
    assert!(!h.step(1));
    // its relay lets exactly one more through
    assert!(h.step(2));
    assert_eq!(h.stage(2), Stage::Parked);
    assert!(h.step(1));
    assert!(!h.step(0));
    assert!(h.step(1));
    assert!(h.step(1));
    assert!(h.step(0));
    assert!(!h.is_complete());
    assert!(h.step(0));
    assert!(h.is_complete());
    assert!(h.step(0));
    assert_eq!(h.finished(), 3);
    // nobody returns before the latch
    for i in 0..3 {
        assert!(!h.step(i));
        assert_eq!(h.stage(i), Stage::Parked);
    }
    h.raise_latch();
    for i in 0..3 {
        assert!(h.step(i));
    }
    assert!(h.all_exited());
}

#[test]
fn settle_before_latch_stops_with_all_parked() {
    let mut h = Herd::new(5);
    h.open_gate();
    h.settle();
    assert!(h.is_complete());
    assert!(all_at(&h, Stage::Parked));
    assert!(!h.all_exited());
    h.raise_latch();
    h.settle();
    assert!(h.all_exited());
}

#[test]
fn worker_passes_gate_once() {
    let mut h = Herd::new(2);
    h.open_gate();
    assert!(h.step(0));
    assert!(h.step(0));
    assert!(h.step(0));
    assert!(h.step(1));
    assert!(h.step(1));
    assert!(h.step(1));
    // both have relayed: one spare credit is back at the barrier, but no
    // worker goes through again
    assert!(!h.step(0));
    assert!(!h.step(1));
    assert_eq!(h.finished(), 2);
}

#[test]
fn consecutive_iterations_start_fresh() {
    let first = Herd::run_iteration(4);
    assert_eq!(first.finished(), 4);
    let second = Herd::new(4);
    assert_eq!(second.finished(), 0);
    assert!(all_at(&second, Stage::AtGate));
    let second = Herd::run_iteration(4);
    assert_eq!(second.finished(), 4);
    assert!(second.all_exited());
}
