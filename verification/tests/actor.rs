use nexus_actor::actor::dead_letter::{
    dead_letter_publish_labels, plan_dead_letter_notice, plan_watch_termination, DeadLetterEvent,
    DeadLetterPayload,
};
use nexus_actor::actor::future::{
    future_outcome, future_process_id, resolve_system_reply, resolve_user_reply, schedules_timeout,
    ActorFutureState,
    ActorFutureError, FutureResolution,
};
use nexus_actor::actor::process_maps::{shard_index, PROCESS_SHARD_COUNT};
use nexus_actor::actor::subscription::Subscription;
use nexus_actor::remote::wire::Pid;

fn pid(id: &str) -> Pid {
    Pid::new("node".to_string(), id.to_string())
}

fn labels(pairs: &[(&str, &str)]) -> Vec<(String, String)> {
    pairs.iter().map(|(k, v)| (k.to_string(), v.to_string())).collect()
}

#[test]
fn subscription_toggles_activity() {
    let mut subscription: Subscription<&str, u8> = Subscription::new(1, "handler", None);
    assert!(subscription.is_active());
    assert_eq!(subscription.id(), 1);
    assert_eq!(*subscription.handler(), "handler");
    assert_eq!(*subscription.predicate(), None);
    assert!(subscription.deactivate());
    assert!(!subscription.is_active());
    assert!(!subscription.deactivate());
    assert!(subscription.activate());
    assert!(!subscription.activate());
    assert!(subscription.is_active());
}

#[test]
fn subscriptions_are_equal_by_id() {
    let a: Subscription<&str, u8> = Subscription::new(7, "a", None);
    let b: Subscription<&str, u8> = Subscription::new(7, "b", Some(1));
    let c: Subscription<&str, u8> = Subscription::new(8, "a", None);
    assert!(a == b);
    assert!(a != c);
}

#[test]
fn dead_letter_notice_answers_sender_and_labels() {
    let event = DeadLetterEvent {
        pid: Some(pid("target")),
        message_type: "Ping".to_string(),
        payload: DeadLetterPayload::Other,
        sender: Some(pid("sender")),
    };
    let plan = plan_dead_letter_notice(&event, false);
    assert_eq!(plan.respond_to.as_ref().map(|p| p.id.as_str()), Some("sender"));
    assert!(plan.record_metrics);
    assert_eq!(
        plan.labels,
        labels(&[
            ("deadletter.phase", "event_stream_notify"),
            ("deadletter.event", "dead_letter"),
            ("deadletter.message_type", "Ping"),
            ("deadletter.target_pid", "target"),
            ("deadletter.sender_pid", "sender"),
        ])
    );
    let quiet = plan_dead_letter_notice(&event, true);
    assert!(quiet.respond_to.is_some());
    assert!(!quiet.record_metrics);
    assert!(quiet.labels.is_empty());
}

#[test]
fn dead_letter_without_sender_is_counted_even_with_developer_logging() {
    let event = DeadLetterEvent {
        pid: None,
        message_type: "Ping".to_string(),
        payload: DeadLetterPayload::Other,
        sender: None,
    };
    let plan = plan_dead_letter_notice(&event, true);
    assert!(plan.respond_to.is_none());
    assert!(plan.record_metrics);
    assert_eq!(plan.labels.len(), 3);
    assert!(plan_watch_termination(&event).is_none());
}

#[test]
fn dead_letter_watch_terminates_watcher() {
    let event = DeadLetterEvent {
        pid: Some(pid("gone")),
        message_type: "Watch".to_string(),
        payload: DeadLetterPayload::Watch { watcher: pid("watcher") },
        sender: None,
    };
    let (watcher, watch_labels) = plan_watch_termination(&event).unwrap();
    assert_eq!(watcher.id, "watcher");
    assert_eq!(
        watch_labels,
        labels(&[
            ("deadletter.phase", "event_stream_watch"),
            ("deadletter.event", "watch_termination"),
            ("deadletter.message_type", "Watch"),
            ("deadletter.watcher_pid", "watcher"),
            ("deadletter.target_pid", "gone"),
        ])
    );
}

#[test]
fn dead_letter_publish_labels_name_the_target() {
    assert_eq!(
        dead_letter_publish_labels(&Some(pid("t")), "Ping"),
        labels(&[
            ("deadletter.phase", "publish"),
            ("deadletter.message_type", "Ping"),
            ("deadletter.target_pid", "t"),
        ])
    );
    assert_eq!(dead_letter_publish_labels(&None, "Ping").len(), 2);
}

#[test]
fn futures_resolve_and_report_outcomes() {
    assert_eq!(resolve_user_reply(true), FutureResolution::Fail(ActorFutureError::DeadLetterError));
    assert_eq!(resolve_user_reply(false), FutureResolution::Complete);
    assert_eq!(resolve_system_reply(), FutureResolution::Complete);
    assert!(schedules_timeout(1));
    assert!(schedules_timeout(500_000));
    assert!(!schedules_timeout(0));
    assert_eq!(future_process_id(17), "future_17");
    assert_eq!(future_process_id(0), "future_0");
    let completed = future_outcome(None);
    assert_eq!(completed.outcome, "completed");
    assert_eq!(completed.error, None);
    assert!(completed.completed);
    let timed_out = future_outcome(Some(ActorFutureError::TimeoutError));
    assert_eq!(timed_out.outcome, "timeout");
    assert_eq!(timed_out.error, Some("timeout"));
    assert!(!timed_out.completed);
    let dead = future_outcome(Some(ActorFutureError::DeadLetterError));
    assert_eq!(dead.outcome, "dead_letter");
    assert_eq!(dead.error, Some("dead_letter"));
    assert_eq!(ActorFutureError::TimeoutError.message(), "future: timeout");
    assert_eq!(ActorFutureError::DeadLetterError.message(), "future: dead letter");
}

#[test]
fn process_shards_follow_sip_hash() {
    assert_eq!(PROCESS_SHARD_COUNT, 1024);
    assert_eq!(shard_index("abc"), 992);
    assert_eq!(shard_index("process-1"), 583);
    assert_eq!(shard_index(""), 242);
    assert_eq!(shard_index("abc"), shard_index("abc"));
}

#[test]
fn future_timeout_fails_and_notifies_pipes() {
    let mut future: ActorFutureState<String, Pid> = ActorFutureState::new();
    assert!(future.is_empty());
    assert!(future.result().is_none());
    future.pipe_to(pid("p1"));
    future.pipe_to(pid("p2"));
    let notified = future.handle_timeout();
    assert_eq!(notified.iter().map(|p| p.id.as_str()).collect::<Vec<_>>(), vec!["p1", "p2"]);
    assert!(!future.is_empty());
    assert_eq!(future.result(), Some(Err(ActorFutureError::TimeoutError)));
    assert!(future.handle_timeout().is_empty());
    assert!(!future.outcome().completed);
    assert_eq!(future.outcome().outcome, "timeout");
}

#[test]
fn future_replies_complete_or_fail() {
    let mut future: ActorFutureState<String, Pid> = ActorFutureState::new();
    let outcome = future.handle_user_reply("pong".to_string(), false);
    assert!(outcome.completed);
    assert_eq!(future.result(), Some(Ok(&"pong".to_string())));
    let mut dead: ActorFutureState<String, Pid> = ActorFutureState::new();
    let outcome = dead.handle_user_reply("ignored".to_string(), true);
    assert_eq!(outcome.outcome, "dead_letter");
    assert_eq!(dead.result(), Some(Err(ActorFutureError::DeadLetterError)));
    let mut system: ActorFutureState<String, Pid> = ActorFutureState::new();
    assert_eq!(system.handle_system_reply("stop".to_string()).outcome, "completed");
    assert_eq!(system.result(), Some(Ok(&"stop".to_string())));
}
