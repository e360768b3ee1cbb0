use online_stats::ledger::{DimensionMismatch, Ledger, Report};
use online_stats::readiness::Readiness;

#[test]
fn fresh_ledger_reports_nothing() {
    let l = Ledger::new(3);
    assert_eq!(l.width(), 3);
    assert_eq!(l.readiness(), Readiness::Empty);
    assert_eq!(l.report(), Report::Undefined);
}

#[test]
fn single_observation_reports_mean_only() {
    let mut l = Ledger::new(3);
    assert_eq!(l.record_observation(3), Ok(()));
    assert_eq!(l.readiness(), Readiness::SingleObservation);
    assert_eq!(l.report(), Report::MeanOnly);
}

#[test]
fn worked_example_readiness_sequence() {
    let mut l = Ledger::new(3);
    assert_eq!(l.report(), Report::Undefined);
    assert_eq!(l.record_observation(3), Ok(()));
    assert_eq!(l.report(), Report::MeanOnly);
    assert_eq!(l.record_observation(3), Ok(()));
    assert_eq!(l.report(), Report::MeanAndVariance);
    assert_eq!(l.record_observation(3), Ok(()));
    assert_eq!(l.readiness(), Readiness::Ready);
    assert_eq!(l.report(), Report::MeanAndVariance);
}

#[test]
fn readiness_never_regresses() {
    let mut l = Ledger::new(2);
    let mut last = 0;
    for len in [2usize, 5, 2, 0, 2, 2, 7] {
        let _ = l.record_observation(len);
        let rank = match l.readiness() {
            Readiness::Empty => 0,
            Readiness::SingleObservation => 1,
            Readiness::Ready => 2,
        };
        assert!(rank >= last);
        last = rank;
    }
    assert_eq!(last, 2);
}

#[test]
fn mismatched_width_is_refused_and_changes_nothing() {
    let mut l = Ledger::new(3);
    assert_eq!(
        l.record_observation(2),
        Err(DimensionMismatch { expected: 3, found: 2 })
    );
    assert_eq!(l.readiness(), Readiness::Empty);
    assert_eq!(l.record_observation(3), Ok(()));
    assert_eq!(
        l.record_observation(4),
        Err(DimensionMismatch { expected: 3, found: 4 })
    );
    assert_eq!(l.readiness(), Readiness::SingleObservation);
}

#[test]
fn check_width_does_not_record() {
    let l = Ledger::new(4);
    assert_eq!(l.check_width(4), Ok(()));
    assert_eq!(
        l.check_width(0),
        Err(DimensionMismatch { expected: 4, found: 0 })
    );
    assert_eq!(l.readiness(), Readiness::Empty);
}

#[test]
fn report_twice_gives_same_answer() {
    let mut l = Ledger::new(1);
    for _ in 0..3 {
        assert_eq!(l.report(), l.report());
        assert_eq!(l.record_observation(1), Ok(()));
    }
    assert_eq!(l.report(), l.report());
}

#[test]
fn zero_width_ledger_takes_empty_observations() {
    let mut l = Ledger::new(0);
    assert_eq!(l.record_observation(0), Ok(()));
    assert_eq!(
        l.record_observation(1),
        Err(DimensionMismatch { expected: 0, found: 1 })
    );
    assert_eq!(l.report(), Report::MeanOnly);
}
