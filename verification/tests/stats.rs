use davinci_convertor::converter::{Failure, Outcome};
use davinci_convertor::ffmpeg::ProbeError;
use davinci_convertor::stats::Stats;

#[test]
fn new_stats_hold_the_total_and_nothing_else() {
    assert_eq!(Stats::new(0).get_counts(), (0, 0, 0, 0));
    assert_eq!(Stats::new(7).get_counts(), (7, 0, 0, 0));
}

#[test]
fn counts_come_as_total_success_skipped_failed() {
    let mut stats = Stats::new(10);
    stats.inc_success();
    stats.inc_skipped();
    stats.inc_skipped();
    stats.inc_failed();
    stats.inc_failed();
    stats.inc_failed();
    assert_eq!(stats.get_counts(), (10, 1, 2, 3));
}

#[test]
fn each_increment_moves_one_counter_by_one() {
    let mut stats = Stats::new(3);
    stats.inc_success();
    assert_eq!(stats.get_counts(), (3, 1, 0, 0));
    stats.inc_failed();
    assert_eq!(stats.get_counts(), (3, 1, 0, 1));
    stats.inc_skipped();
    assert_eq!(stats.get_counts(), (3, 1, 1, 1));
}

#[test]
fn record_counts_under_the_outcome() {
    let mut stats = Stats::new(4);
    stats.record(&Outcome::Success);
    stats.record(&Outcome::Skipped);
    stats.record(&Outcome::Failed(Failure::OutputExists));
    stats.record(&Outcome::Failed(Failure::Analysis(ProbeError::NoVideoStream)));
    assert_eq!(stats.get_counts(), (4, 1, 1, 2));
}

#[test]
fn counters_add_up_to_the_files_recorded() {
    let outcomes = [
        Outcome::Success,
        Outcome::Failed(Failure::CreateDir),
        Outcome::Skipped,
        Outcome::Success,
        Outcome::Skipped,
        Outcome::Success,
    ];
    let mut stats = Stats::new(outcomes.len());
    for (n, outcome) in outcomes.iter().enumerate() {
        stats.record(outcome);
        let (total, success, skipped, failed) = stats.get_counts();
        assert_eq!(total, outcomes.len());
        assert_eq!(success + skipped + failed, n + 1);
    }
    assert_eq!(stats.get_counts(), (6, 3, 2, 1));
}

#[test]
fn the_order_of_the_outcomes_does_not_show() {
    let mut forward = Stats::new(3);
    forward.record(&Outcome::Success);
    forward.record(&Outcome::Skipped);
    forward.record(&Outcome::Failed(Failure::OutputExists));
    let mut backward = Stats::new(3);
    backward.record(&Outcome::Failed(Failure::OutputExists));
    backward.record(&Outcome::Skipped);
    backward.record(&Outcome::Success);
    assert_eq!(forward, backward);
}

#[test]
fn the_counters_are_not_held_to_the_total() {
    let mut stats = Stats::new(1);
    stats.inc_success();
    stats.inc_success();
    assert_eq!(stats.get_counts(), (1, 2, 0, 0));
}
