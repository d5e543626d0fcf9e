use nexus_actor::remote::block_list::BlockList;
use nexus_actor::remote::endpoint_manager::{
    plan_remote_deliver, plan_remote_terminate, plan_remote_unwatch, plan_remote_watch,
    watchers_to_u32, DeliveryTarget, WatchAction, WatchEvent, WatchPlan, WatchStat,
};
use nexus_actor::remote::endpoint_reader::{
    after_handler, deserialize_sender, deserialize_target, heartbeat_addresses, BatchRun, plan_connection, resolve_envelope, route_decoded,
    ConnectionKind, DecodedKind, DeliveryRoute, EndpointReader, EndpointReaderError,
    IncomingMessage, StreamAction,
};
use nexus_actor::remote::endpoint_state::{
    ConnectionState, EndpointState, HeartbeatAction, HeartbeatConfig, ReconnectPolicy,
    ReconnectStart,
};
use nexus_actor::remote::endpoint_statistics::{BackpressureLevel, EndpointStatistics};
use nexus_actor::remote::statistics_table::EndpointStatisticsTable;
use nexus_actor::remote::endpoint_supervisor::{EndpointSupervisor, EndpointSupervisorError};
use nexus_actor::remote::process_listing::{list_processes, ListProcessesError, ListProcessesMatchType};
use nexus_actor::remote::serializer::SerializerId;
use nexus_actor::remote::wire::{MessageBatch, MessageEnvelope, Pid};
use nexus_actor::supervision::directive::Directive;

fn default_state(address: &str) -> EndpointState {
    EndpointState::new(
        address.to_string(),
        ReconnectPolicy::new(5, 200_000_000, 5_000_000_000),
        HeartbeatConfig::new(1_000, 3_000),
    )
}

fn pid(address: &str, id: &str) -> Pid {
    Pid::new(address.to_string(), id.to_string())
}

#[test]
fn endpoint_state_lifecycle() {
    let mut state = default_state("endpoint-B");
    assert_eq!(state.address(), "endpoint-B");
    assert_eq!(state.connection_state(), ConnectionState::Suspended);
    assert_eq!(state.reconnect_policy().max_retries, 5);
    assert_eq!(state.reconnect_policy().initial_backoff_ns, 200_000_000);
    assert_eq!(state.reconnect_policy().max_backoff_ns, 5_000_000_000);

    state.update_connection_state(ConnectionState::Connected);
    assert_eq!(state.connection_state(), ConnectionState::Connected);
    assert_eq!(state.retries(), 0);

    assert_eq!(state.begin_reconnect(false), ReconnectStart::Started(1));
    assert_eq!(state.connection_state(), ConnectionState::Reconnecting);
    assert_eq!(state.retries(), 1);
    assert_eq!(state.begin_reconnect(false), ReconnectStart::Skipped);
}

#[test]
fn reconnect_gives_up_after_max_attempts() {
    let mut state = EndpointState::new(
        "endpoint-reconnect".to_string(),
        ReconnectPolicy::new(1, 0, 0),
        HeartbeatConfig::new(1_000, 3_000),
    );
    assert_eq!(state.begin_reconnect(false), ReconnectStart::Started(1));
    assert!(!state.check_reconnect_attempt(1));
    assert_eq!(state.reconnect_failed(), 2);
    assert!(state.check_reconnect_attempt(2));
    assert_eq!(state.connection_state(), ConnectionState::Closed);
    assert_eq!(state.begin_reconnect(false), ReconnectStart::Skipped);
}

#[test]
fn reconnect_with_limit_two_makes_two_attempts() {
    let mut state = EndpointState::new(
        "endpoint-D".to_string(),
        ReconnectPolicy::new(2, 10, 20),
        HeartbeatConfig::new(1_000, 3_000),
    );
    assert_eq!(state.begin_reconnect(false), ReconnectStart::Started(1));
    assert!(!state.check_reconnect_attempt(1));
    assert_eq!(state.reconnect_failed(), 2);
    assert_eq!(state.connection_state(), ConnectionState::Suspended);
    assert!(!state.check_reconnect_attempt(2));
    assert_eq!(state.connection_state(), ConnectionState::Reconnecting);
    assert_eq!(state.reconnect_failed(), 3);
    assert!(state.check_reconnect_attempt(3));
    assert_eq!(state.connection_state(), ConnectionState::Closed);
}

#[test]
fn schedule_reconnect_successfully_restores_connection() {
    let mut state = default_state("endpoint-E");
    assert_eq!(state.begin_reconnect(true), ReconnectStart::Skipped);
    assert_eq!(state.connection_state(), ConnectionState::Suspended);
    assert_eq!(state.begin_reconnect(false), ReconnectStart::Started(1));
    assert!(!state.check_reconnect_attempt(1));
    state.reconnect_succeeded(4_000);
    assert_eq!(state.connection_state(), ConnectionState::Connected);
    assert_eq!(state.retries(), 0);
    assert_eq!(state.elapsed_since_last_heartbeat(4_500), 500);
}

#[test]
fn heartbeat_monitor_times_out_silent_endpoint() {
    let mut state = default_state("endpoint-F");
    assert_eq!(state.heartbeat_tick(false, 100), HeartbeatAction::Skip);
    state.set_connection_state(ConnectionState::Connected);
    state.mark_heartbeat(1_000);
    assert_eq!(state.heartbeat_tick(false, 2_000), HeartbeatAction::Healthy);
    assert_eq!(state.heartbeat_tick(false, 4_000), HeartbeatAction::TimedOut);
    assert_eq!(state.connection_state(), ConnectionState::Suspended);
    assert_eq!(state.heartbeat_tick(true, 5_000), HeartbeatAction::Stop);
    state.set_connection_state(ConnectionState::Closed);
    assert_eq!(state.heartbeat_tick(false, 5_000), HeartbeatAction::Stop);
    assert_eq!(state.elapsed_since_last_heartbeat(500), 0);
}

#[test]
fn endpoint_manager_statistics_track_updates() {
    let mut table = EndpointStatisticsTable::new();
    assert!(!table.record_queue_state("endpoint-A", 10, 3, BackpressureLevel::Normal));
    table.increment_dead_letter("endpoint-A");

    let snapshot = table
        .statistics_snapshot("endpoint-A")
        .expect("statistics should exist");
    assert_eq!(snapshot.queue_capacity, 10);
    assert_eq!(snapshot.queue_size, 3);
    assert_eq!(snapshot.dead_letters, 1);
    assert_eq!(snapshot.backpressure_level, BackpressureLevel::Normal);
    assert_eq!(snapshot.deliver_success, 0);
    assert_eq!(snapshot.deliver_failure, 0);
    assert_eq!(snapshot.reconnect_attempts, 0);

    table.remove_statistics("endpoint-A");
    assert!(table.statistics_snapshot("endpoint-A").is_none());
}

#[test]
fn endpoint_manager_delivery_metrics_increment() {
    let mut table = EndpointStatisticsTable::new();
    table.increment_deliver_success("endpoint-metrics");
    table.increment_deliver_failure("endpoint-metrics");
    table.increment_deliver_failure("endpoint-metrics");

    let snapshot = table
        .statistics_snapshot("endpoint-metrics")
        .expect("statistics should exist");
    assert_eq!(snapshot.deliver_success, 1);
    assert_eq!(snapshot.deliver_failure, 2);
    assert!(table.statistics_snapshot("endpoint-other").is_none());
}

#[test]
fn endpoint_statistics_count_per_endpoint() {
    let mut stats = EndpointStatistics::new();
    stats.increment_deliver_success();
    stats.increment_deliver_failure();
    stats.increment_dead_letter();
    let snapshot = stats.snapshot();
    assert_eq!((snapshot.deliver_success, snapshot.deliver_failure, snapshot.dead_letters), (1, 1, 1));
    assert_eq!(stats.record_reconnect_attempt(), 1);
    assert_eq!(stats.record_reconnect_attempt(), 2);

    let mut table = EndpointStatisticsTable::new();
    assert_eq!(table.record_reconnect_attempt("a"), 1);
    assert_eq!(table.record_reconnect_attempt("a"), 2);
    assert_eq!(table.record_reconnect_attempt("b"), 1);
    assert!(table.record_queue_state("b", 10, 9, BackpressureLevel::Critical));
    assert_eq!(table.statistics_snapshot("a").unwrap().backpressure_level, BackpressureLevel::Normal);
    assert_eq!(table.statistics_snapshot("b").unwrap().reconnect_attempts, 1);
}

#[test]
fn backpressure_level_change_is_reported() {
    let mut stats = EndpointStatistics::new();
    assert!(stats.record_queue_state(10, 9, BackpressureLevel::Critical));
    assert!(!stats.record_queue_state(10, 9, BackpressureLevel::Critical));
    assert_eq!(stats.snapshot().backpressure_level, BackpressureLevel::Critical);
    assert_eq!(BackpressureLevel::Critical.code(), 2);
    assert_eq!(BackpressureLevel::Warning.code(), 1);
    assert_eq!(BackpressureLevel::Normal.code(), 0);
}

#[test]
fn block_list_operations_cover_all_paths() {
    let mut block_list = BlockList::new();
    block_list.block("node-a".to_string());
    block_list.block_multi(vec!["node-b".to_string(), "node-c".to_string()]);
    assert!(block_list.is_blocked("node-a"));
    assert!(block_list.is_blocked("node-b"));

    block_list.unblock("node-a".to_string());
    block_list.unblock_multi(vec!["node-b".to_string(), "node-c".to_string()]);
    assert!(!block_list.is_blocked("node-a"));

    block_list.block("node-d".to_string());
    block_list.clear();
    let members = block_list.get_blocked_members();
    assert!(members.is_empty());
}

#[test]
fn block_list_lists_each_member_once() {
    let mut block_list = BlockList::new();
    block_list.block("x".to_string());
    block_list.block("x".to_string());
    block_list.block("y".to_string());
    let mut members = block_list.get_blocked_members();
    members.sort();
    assert_eq!(members, vec!["x".to_string(), "y".to_string()]);
}

#[test]
fn watch_plans_follow_registry_changes() {
    let changed = WatchStat { changed: true, watchers: 3 };
    let unchanged = WatchStat { changed: false, watchers: 3 };
    assert_eq!(
        plan_remote_watch(false, Some(changed)),
        WatchPlan { publish: Some(WatchEvent { action: WatchAction::Watch, watchers: 3 }), forward: true }
    );
    assert_eq!(plan_remote_watch(false, Some(unchanged)), WatchPlan { publish: None, forward: false });
    assert_eq!(plan_remote_watch(false, None), WatchPlan { publish: None, forward: true });
    assert_eq!(plan_remote_watch(true, Some(changed)), WatchPlan { publish: None, forward: false });
    assert_eq!(plan_remote_unwatch(false, Some(None)), WatchPlan { publish: None, forward: false });
    assert_eq!(
        plan_remote_unwatch(false, Some(Some(changed))).publish,
        Some(WatchEvent { action: WatchAction::Unwatch, watchers: 3 })
    );
    assert_eq!(plan_remote_terminate(false, Some(unchanged)), WatchPlan { publish: None, forward: true });
    assert_eq!(WatchAction::Terminate.as_str(), "terminate");
    assert_eq!(watchers_to_u32(7), 7);
    assert_eq!(plan_remote_deliver(true), DeliveryTarget::DeadLetter);
    assert_eq!(plan_remote_deliver(false), DeliveryTarget::EndpointWriter);
}

#[test]
fn endpoint_reader_routes_stream_items() {
    let mut reader = EndpointReader::new();
    assert!(!reader.is_suspended());
    assert_eq!(reader.incoming_action(IncomingMessage::MessageBatch), StreamAction::HandleBatch);
    assert_eq!(reader.incoming_action(IncomingMessage::ConnectRequest), StreamAction::HandleConnect);
    assert_eq!(reader.incoming_action(IncomingMessage::Untyped), StreamAction::IgnoreUnknown);
    reader.set_suspend(true);
    assert_eq!(reader.incoming_action(IncomingMessage::MessageBatch), StreamAction::Skip);
    assert_eq!(reader.incoming_action(IncomingMessage::ReceiveError), StreamAction::Stop);
}

#[test]
fn connection_plans_and_delivery_routes() {
    let plan = plan_connection(ConnectionKind::Client, false, true, true);
    assert!(plan.register_client && plan.mark_heartbeat && !plan.respond_blocked);
    let plan = plan_connection(ConnectionKind::Client, true, true, true);
    assert!(!plan.register_client && !plan.mark_heartbeat && plan.respond_blocked);
    let plan = plan_connection(ConnectionKind::Server, false, true, true);
    assert!(!plan.register_client && plan.mark_heartbeat);
    assert_eq!(route_decoded(DecodedKind::Terminated, false, false, false), Ok(DeliveryRoute::RemoteTerminate));
    assert_eq!(route_decoded(DecodedKind::System, false, false, false), Err(EndpointReaderError::UnknownTarget));
    assert_eq!(route_decoded(DecodedKind::System, true, false, false), Ok(DeliveryRoute::SystemToLocal));
    assert_eq!(route_decoded(DecodedKind::User, true, false, false), Ok(DeliveryRoute::UserDirect));
    assert_eq!(route_decoded(DecodedKind::User, true, true, false), Ok(DeliveryRoute::UserEnvelope));
}

fn batch() -> MessageBatch {
    MessageBatch {
        type_names: vec!["Ping".to_string()],
        targets: vec![pid("node-1", "actor-1")],
        envelopes: vec![],
        senders: vec![pid("node-2", "actor-2")],
    }
}

#[test]
fn envelopes_resolve_against_their_batch() {
    let batch = batch();
    let envelope = MessageEnvelope {
        type_id: 0,
        target: 0,
        sender: 1,
        serializer_id: 1,
        target_request_id: 9,
        ..MessageEnvelope::default()
    };
    let resolved = resolve_envelope(&envelope, &batch).unwrap();
    assert_eq!(resolved.target.id, "actor-1");
    assert_eq!(resolved.target.request_id, 9);
    assert_eq!(resolved.sender.unwrap().id, "actor-2");
    assert_eq!(resolved.serializer_id, SerializerId::Proto);
    assert_eq!(resolved.message_type, "Ping");

    let bad_type = MessageEnvelope { type_id: 3, ..envelope.clone() };
    assert_eq!(
        resolve_envelope(&bad_type, &batch),
        Err(EndpointReaderError::Deserialization("Invalid type id: 3".to_string()))
    );
    let bad_serializer = MessageEnvelope { serializer_id: 7, ..envelope.clone() };
    assert_eq!(
        resolve_envelope(&bad_serializer, &batch),
        Err(EndpointReaderError::Deserialization("Invalid SerializerId value: 7".to_string()))
    );
    assert_eq!(deserialize_sender(0, 5, &batch.senders), None);
    assert_eq!(deserialize_sender(1, 5, &batch.senders).unwrap().request_id, 5);
    assert_eq!(deserialize_target(0, 0, &batch.targets).unwrap().request_id, 0);
}

#[test]
fn process_listing_filters_ids() {
    let pids = vec![pid("n", "user/alpha"), pid("n", "user/beta"), pid("n", "system/alpha")];
    let part = list_processes(pids.clone(), "alpha", ListProcessesMatchType::MatchPartOfString).unwrap();
    assert_eq!(part.iter().map(|p| p.id.as_str()).collect::<Vec<_>>(), vec!["user/alpha", "system/alpha"]);
    let exact = list_processes(pids.clone(), "user/beta", ListProcessesMatchType::MatchExactString).unwrap();
    assert_eq!(exact.len(), 1);
    let regex = list_processes(pids.clone(), "^user/", ListProcessesMatchType::MatchRegex).unwrap();
    assert_eq!(regex.len(), 2);
    let all = list_processes(pids.clone(), "", ListProcessesMatchType::MatchRegex).unwrap();
    assert_eq!(all.len(), 3);
    match list_processes(pids, "(", ListProcessesMatchType::MatchRegex) {
        Err(ListProcessesError::InvalidRegex(message)) => assert!(message.starts_with("invalid regex '(': ")),
        Ok(_) => panic!("an unbalanced group must not compile"),
    }
}

#[test]
fn endpoint_supervisor_plans_writer_and_watcher() {
    let supervisor = EndpointSupervisor::new(42u8);
    assert_eq!(*supervisor.remote(), 42);
    let plan = supervisor.plan_endpoint(Some("node-9:8080".to_string())).unwrap();
    assert_eq!(plan.writer_address, "node-9:8080");
    assert_eq!(plan.watcher_address, "node-9:8080");
    match supervisor.plan_endpoint(None) {
        Err(e) => assert_eq!(e, EndpointSupervisorError::AddressNotFound),
        Ok(_) => panic!("a request without address is refused"),
    }
    let strategy = supervisor.supervisor_strategy();
    assert_eq!(strategy.max_nr_of_retries, 0);
    assert_eq!(strategy.within_duration_ns, 0);
    assert_eq!(strategy.directive, Directive::Stop);
}

#[test]
fn delivered_batch_heartbeats_each_address_once() {
    let targets = vec![pid("node-1", "a"), pid("node-2", "b"), pid("node-1", "c")];
    let mut addresses = heartbeat_addresses(&targets);
    addresses.sort();
    assert_eq!(addresses, vec!["node-1".to_string(), "node-2".to_string()]);
    assert!(heartbeat_addresses(&vec![]).is_empty());
}

#[test]
fn list_match_type_from_wire_number_defaults_to_substring() {
    assert_eq!(ListProcessesMatchType::from_i32(0), ListProcessesMatchType::MatchPartOfString);
    assert_eq!(ListProcessesMatchType::from_i32(1), ListProcessesMatchType::MatchExactString);
    assert_eq!(ListProcessesMatchType::from_i32(2), ListProcessesMatchType::MatchRegex);
    assert_eq!(ListProcessesMatchType::from_i32(9), ListProcessesMatchType::MatchPartOfString);
    assert_eq!(ListProcessesMatchType::from_i32(-1), ListProcessesMatchType::MatchPartOfString);
}

#[test]
fn skipped_reconnect_changes_nothing() {
    let mut state = default_state("endpoint-G");
    state.set_connection_state(ConnectionState::Closed);
    assert_eq!(state.begin_reconnect(false), ReconnectStart::Skipped);
    assert_eq!(state.connection_state(), ConnectionState::Closed);
    assert_eq!(state.retries(), 0);
    let mut state = default_state("endpoint-H");
    assert_eq!(state.begin_reconnect(false), ReconnectStart::Started(1));
    assert_eq!(state.begin_reconnect(false), ReconnectStart::Skipped);
    assert_eq!(state.retries(), 1);
    assert_eq!(state.connection_state(), ConnectionState::Reconnecting);
}

#[test]
fn statistics_counters_count_calls_since_removal() {
    let mut table = EndpointStatisticsTable::new();
    table.increment_dead_letter("e");
    table.increment_dead_letter("e");
    table.record_queue_state("e", 8, 2, BackpressureLevel::Warning);
    table.record_queue_state("e", 8, 5, BackpressureLevel::Critical);
    table.record_reconnect_attempt("e");
    let snapshot = table.statistics_snapshot("e").unwrap();
    assert_eq!(snapshot.dead_letters, 2);
    assert_eq!(snapshot.queue_size, 5);
    assert_eq!(snapshot.backpressure_level, BackpressureLevel::Critical);
    assert_eq!(snapshot.reconnect_attempts, 1);
    table.remove_statistics("e");
    assert!(table.statistics_snapshot("e").is_none());
    table.increment_deliver_failure("e");
    let snapshot = table.statistics_snapshot("e").unwrap();
    assert_eq!(snapshot.dead_letters, 0);
    assert_eq!(snapshot.deliver_failure, 1);
    assert_eq!(snapshot.queue_capacity, 0);
    assert_eq!(snapshot.backpressure_level, BackpressureLevel::Normal);
}

#[test]
fn batch_stops_at_first_failure_without_heartbeats() {
    let mut run = BatchRun::new();
    assert!(run.record(Ok(pid("node-1", "a"))));
    assert!(!run.record(Err(EndpointReaderError::UnknownTarget)));
    assert!(run.is_stopped());
    assert_eq!(run.finish(), Err(EndpointReaderError::UnknownTarget));
}

#[test]
fn delivered_batch_heartbeats_each_target_address() {
    let mut run = BatchRun::new();
    assert!(run.record(Ok(pid("node-1", "a"))));
    assert!(run.record(Ok(pid("node-2", "b"))));
    assert!(run.record(Ok(pid("node-1", "c"))));
    assert!(!run.is_stopped());
    let mut addresses = run.finish().unwrap();
    addresses.sort();
    assert_eq!(addresses, vec!["node-1".to_string(), "node-2".to_string()]);
    assert_eq!(BatchRun::new().finish(), Ok(vec![]));
}

#[test]
fn failed_handler_closes_the_stream() {
    assert_eq!(after_handler(true), StreamAction::Continue);
    assert_eq!(after_handler(false), StreamAction::Stop);
}
