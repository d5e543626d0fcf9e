use nexus_actor::supervision::clock::saturating_millis;
use nexus_actor::supervision::all_for_one::{AllForOneDecisionKind, AllForOneStrategy};
use nexus_actor::supervision::directive::{Directive, SupervisionAction};
use nexus_actor::supervision::exponential_backoff::{ExponentialBackoffStrategy, BACKOFF_NOISE_BOUND};
use nexus_actor::supervision::restart_statistics::RestartStatistics;
use nexus_actor::supervision::supervisor_cell::{SupervisorCell, SupervisorCellStats};

#[test]
fn restart_statistics_count_failures_in_window() {
    let mut rs = RestartStatistics::new();
    assert_eq!(rs.failure_count(), 0);
    rs.fail(1_000);
    rs.fail(5_000);
    rs.fail(9_000);
    assert_eq!(rs.failure_count(), 3);
    assert_eq!(rs.number_of_failures(0, 10_000), 3);
    assert_eq!(rs.number_of_failures(6_000, 10_000), 2);
    assert_eq!(rs.number_of_failures(500, 10_000), 0);
    rs.reset();
    assert_eq!(rs.failure_count(), 0);
    let rs = RestartStatistics::with_values(vec![1, 2]);
    assert_eq!(rs.failure_count(), 2);
}

#[test]
fn all_for_one_restarts_all_until_limit() {
    let strategy = AllForOneStrategy::new(2, 0);
    let mut rs = RestartStatistics::new();
    let first = strategy.handle_child_failure(Directive::Restart, &mut rs, 10, 3);
    assert_eq!(first.action, SupervisionAction::RestartAll);
    assert_eq!(first.kind, AllForOneDecisionKind::RestartAll);
    assert_eq!(first.affected_children, 3);
    assert_eq!(first.logged_directive, Some(Directive::Restart));
    let second = strategy.handle_child_failure(Directive::Restart, &mut rs, 20, 3);
    assert_eq!(second.action, SupervisionAction::RestartAll);
    assert_eq!(rs.failure_count(), 2);
    let third = strategy.handle_child_failure(Directive::Restart, &mut rs, 30, 3);
    assert_eq!(third.action, SupervisionAction::StopAll);
    assert_eq!(third.kind, AllForOneDecisionKind::StopAll);
    assert_eq!(third.logged_directive, Some(Directive::Stop));
    assert_eq!(rs.failure_count(), 0);
    let fourth = strategy.handle_child_failure(Directive::Restart, &mut rs, 40, 3);
    assert_eq!(fourth.action, SupervisionAction::RestartAll);
}

#[test]
fn all_for_one_other_directives() {
    let strategy = AllForOneStrategy::new(5, 1_000);
    let mut rs = RestartStatistics::new();
    let resume = strategy.handle_child_failure(Directive::Resume, &mut rs, 1, 4);
    assert_eq!(resume.action, SupervisionAction::ResumeChild);
    assert_eq!(resume.affected_children, 1);
    assert_eq!(resume.kind.label(), "resume");
    let stop = strategy.handle_child_failure(Directive::Stop, &mut rs, 2, 4);
    assert_eq!(stop.action, SupervisionAction::StopAll);
    assert_eq!(stop.kind, AllForOneDecisionKind::StopAllExplicit);
    assert_eq!(stop.kind.label(), "stop_all_explicit");
    assert_eq!(stop.affected_children, 4);
    let escalate = strategy.handle_child_failure(Directive::Escalate, &mut rs, 3, 4);
    assert_eq!(escalate.action, SupervisionAction::Escalate);
    assert_eq!(escalate.affected_children, 0);
    assert_eq!(escalate.logged_directive, None);
    assert_eq!(rs.failure_count(), 0);
}

#[test]
fn all_for_one_without_retries_stops_at_once() {
    let strategy = AllForOneStrategy::new(0, 0);
    let mut rs = RestartStatistics::with_values(vec![5]);
    assert!(strategy.should_stop(&mut rs, 10));
    assert_eq!(rs.failure_count(), 1);
    let decision = strategy.handle_child_failure(Directive::Restart, &mut rs, 10, 2);
    assert_eq!(decision.action, SupervisionAction::StopAll);
    assert_eq!(decision.kind.label(), "stop_all");
}

#[test]
fn all_for_one_window_forgets_old_failures() {
    let strategy = AllForOneStrategy::new(1, 100);
    let mut rs = RestartStatistics::new();
    assert!(!strategy.should_stop(&mut rs, 1_000));
    assert!(!strategy.should_stop(&mut rs, 2_000));
    assert!(strategy.should_stop(&mut rs, 2_050));
    assert_eq!(rs.failure_count(), 0);
}

#[test]
fn exponential_backoff_delay_grows_with_failures() {
    let strategy = ExponentialBackoffStrategy::new(10_000).with_initial_backoff(1_000_000);
    assert_eq!(strategy.backoff_window_ns, 10_000);
    assert_eq!(strategy.initial_backoff_ns, Some(1_000_000));
    assert_eq!(strategy.backoff_delay_ns(3, 7), 3_000_007);
    assert_eq!(strategy.backoff_delay_ns(u64::MAX, 0), u64::MAX);
    let mut rs = RestartStatistics::new();
    let first = strategy.handle_child_failure(&mut rs, 1_000);
    assert!(first >= 1_000_000 && first < 1_000_000 + BACKOFF_NOISE_BOUND);
    let second = strategy.handle_child_failure(&mut rs, 2_000);
    assert!(second >= 2_000_000 && second < 2_000_000 + BACKOFF_NOISE_BOUND);
    assert_eq!(rs.failure_count(), 2);
}

#[test]
fn exponential_backoff_resets_after_quiet_window() {
    let strategy = ExponentialBackoffStrategy::new(100);
    assert_eq!(strategy.initial_backoff_ns, None);
    let mut rs = RestartStatistics::with_values(vec![1, 2, 3]);
    strategy.set_failure_count(&mut rs, 10_000);
    assert_eq!(rs.failure_count(), 1);
    let delay = strategy.handle_child_failure(&mut rs, 10_050);
    assert!(delay < BACKOFF_NOISE_BOUND);
    assert_eq!(rs.failure_count(), 2);
}

#[test]
fn supervisor_cell_counts_hits_and_misses() {
    let mut cell: SupervisorCell<&str, u8> = SupervisorCell::new(None);
    assert_eq!(cell.load_supervisor(), None);
    assert_eq!(cell.snapshot_stats(), SupervisorCellStats { hits: 0, misses: 1 });
    cell.replace_supervisor("root");
    assert_eq!(cell.load_supervisor(), Some(&"root"));
    assert_eq!(cell.load_supervisor(), Some(&"root"));
    assert_eq!(cell.snapshot_stats(), SupervisorCellStats { hits: 2, misses: 1 });
    assert_eq!(cell.metrics_runtime(), None);
    let cell: SupervisorCell<&str, u8> = SupervisorCell::new(Some(7));
    assert_eq!(cell.metrics_runtime(), Some(&7));
    assert_eq!(SupervisorCellStats::default(), SupervisorCellStats { hits: 0, misses: 0 });
}

#[test]
fn supervisor_clock_saturates_at_u64_max() {
    assert_eq!(saturating_millis(0), 0);
    assert_eq!(saturating_millis(1_500), 1_500);
    assert_eq!(saturating_millis(u64::MAX as u128), u64::MAX);
    assert_eq!(saturating_millis(u64::MAX as u128 + 1), u64::MAX);
    assert_eq!(saturating_millis(u128::MAX), u64::MAX);
}
