use herdbench::harness::{THREADS, TIMES, WARMUP_MS};
use herdbench::{hundredths_of_ms, Action, BenchConfig, Event, Iteration, Phase, Trials};

#[test]
fn standard_config() {
    let c = BenchConfig::standard();
    assert_eq!(c.threads, 1000);
    assert_eq!(c.times, 6);
    assert_eq!(c.warmup_ms, 2000);
    assert_eq!((THREADS, TIMES, WARMUP_MS), (1000, 6, 2000));
}

#[test]
fn iteration_walks_every_phase_in_order() {
    let c = BenchConfig::new(4, 2, 10);
    let mut it = Iteration::new(&c);
    assert_eq!(it.phase(), Phase::Idle);
    assert_eq!(it.action(), Action::Spawn(4));
    it.advance(Event::Done);
    assert_eq!(it.phase(), Phase::ThreadsSpawned);
    assert_eq!(it.action(), Action::WarmUp(10));
    it.advance(Event::Done);
    assert_eq!(it.action(), Action::StartAndRelease);
    it.advance(Event::Done);
    assert_eq!(it.phase(), Phase::Released);
    assert_eq!(it.action(), Action::AwaitCompletion);
    it.advance(Event::Observed(4));
    assert_eq!(it.phase(), Phase::AllCompleted);
    assert_eq!(it.action(), Action::StopAndTeardown);
    it.advance(Event::Done);
    assert_eq!(it.phase(), Phase::TornDown);
    assert_eq!(it.action(), Action::JoinAll);
    assert!(!it.is_finished());
    it.advance(Event::Done);
    assert_eq!(it.phase(), Phase::Joined);
    assert_eq!(it.action(), Action::Finish);
    assert!(it.is_finished());
}

#[test]
fn completion_wait_needs_every_worker() {
    let c = BenchConfig::new(4, 1, 0);
    let mut it = Iteration::new(&c);
    for _ in 0..3 {
        it.advance(Event::Done);
    }
    for seen in 0..4 {
        it.advance(Event::Observed(seen));
        assert_eq!(it.phase(), Phase::Released);
    }
    it.advance(Event::Done);
    assert_eq!(it.phase(), Phase::Released);
    it.advance(Event::Observed(4));
    assert_eq!(it.phase(), Phase::AllCompleted);
}

#[test]
fn unrelated_event_changes_nothing() {
    let c = BenchConfig::new(2, 1, 0);
    let mut it = Iteration::new(&c);
    it.advance(Event::Observed(2));
    assert_eq!(it.phase(), Phase::Idle);
}

#[test]
fn mean_of_nothing_is_none() {
    let t = Trials::new();
    assert_eq!(t.len(), 0);
    assert_eq!(t.total(), 0);
    assert_eq!(t.mean_nanos(), None);
}

#[test]
fn mean_is_arithmetic_mean() {
    let mut t = Trials::new();
    t.record(1_000);
    t.record(2_000);
    t.record(6_000);
    assert_eq!(t.len(), 3);
    assert_eq!(t.total(), 9_000);
    assert_eq!(t.mean_nanos(), Some(3_000));
}

#[test]
fn mean_rounds_down() {
    let mut t = Trials::new();
    t.record(1);
    t.record(2);
    assert_eq!(t.mean_nanos(), Some(1));
}

#[test]
fn mean_of_largest_durations_does_not_overflow() {
    let mut t = Trials::new();
    for _ in 0..6 {
        t.record(u64::MAX);
    }
    assert_eq!(t.total(), 6 * (u64::MAX as u128));
    assert_eq!(t.mean_nanos(), Some(u64::MAX));
}

#[test]
fn report_precision_hundredths_of_ms() {
    assert_eq!(hundredths_of_ms(0), 0);
    assert_eq!(hundredths_of_ms(12_344_999), 1234);
    assert_eq!(hundredths_of_ms(12_345_000), 1235);
    assert_eq!(hundredths_of_ms(4_999), 0);
    assert_eq!(hundredths_of_ms(u64::MAX), 1_844_674_407_370_955);
}
