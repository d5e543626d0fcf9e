use nexus_actor::cluster::in_memory_provider::InMemoryClusterProvider;
use nexus_actor::cluster::config::RemoteOptions;
use nexus_actor::cluster::identity::ClusterIdentity;
use nexus_actor::cluster::topology::{
    ClusterMember, ClusterProviderError, GrpcRegistryClient, GrpcRegistrySettings, Member,
    RegistryError, RegistryMember, TopologyEvent, WatchUpdate,
};
use nexus_actor::cluster::virtual_actor::{
    VirtualActorMessage, VirtualActorRefusal, VirtualActorState, VirtualActorStep,
};

#[test]
fn cluster_identity_key_joins_kind_and_id() {
    let identity = ClusterIdentity::new("echo", "a-1");
    assert_eq!(identity.kind(), "echo");
    assert_eq!(identity.id(), "a-1");
    assert_eq!(identity.as_key(), "echo/a-1");
}

#[test]
fn cluster_identities_compare_by_kind_and_id() {
    let a = ClusterIdentity::new("echo", "a");
    assert!(a == ClusterIdentity::new("echo", "a"));
    assert!(a != ClusterIdentity::new("echo", "b"));
    assert!(a != ClusterIdentity::new("ping", "a"));
    assert!(a == a.duplicate());
}

#[test]
fn remote_options_builder_sets_fields() {
    let options = RemoteOptions::new("127.0.0.1", 8090);
    assert_eq!(options.host(), "127.0.0.1");
    assert_eq!(options.port(), 8090);
    assert_eq!(options.advertised_address(), None);
    let options = options.with_advertised_address("node.example:8090");
    assert_eq!(options.host(), "127.0.0.1");
    assert_eq!(options.port(), 8090);
    assert_eq!(options.advertised_address(), Some("node.example:8090"));
}

#[test]
fn topology_events_carry_their_kind() {
    let kinds = vec!["echo".to_string()];
    let registered = TopologyEvent::registered("cluster", "node-1", &kinds);
    assert_eq!(registered.cluster_name, "cluster");
    assert_eq!(registered.node_address.as_deref(), Some("node-1"));
    assert_eq!(registered.event_type, "registered");
    assert!(registered.members.is_empty());

    let deregistered = TopologyEvent::deregistered("cluster", "node-1");
    assert_eq!(deregistered.event_type, "deregistered");
    assert_eq!(deregistered.node_address.as_deref(), Some("node-1"));

    let members = vec![ClusterMember::new("node-2".to_string(), vec!["echo".to_string()])];
    let snapshot = TopologyEvent::snapshot("cluster", members);
    assert_eq!(snapshot.event_type, "snapshot");
    assert_eq!(snapshot.node_address, None);
    assert_eq!(snapshot.members.len(), 1);
    assert_eq!(snapshot.members[0].address, "node-2");
}

#[test]
fn registry_errors_render_and_convert() {
    let failed = RegistryError::OperationFailed("boom".to_string());
    assert_eq!(failed.message(), "registry operation failed: boom");
    assert_eq!(RegistryError::WatchClosed.message(), "registry watch closed");
    let provider = ClusterProviderError::from_registry_error(RegistryError::WatchClosed);
    match &provider {
        ClusterProviderError::ProviderError(reason) => assert_eq!(reason, "registry watch closed"),
    }
    assert_eq!(provider.message(), "provider failed: registry watch closed");
}

#[test]
fn registry_member_and_settings() {
    let member = RegistryMember::new(
        "cluster".to_string(),
        "node-1".to_string(),
        vec!["a".to_string(), "b".to_string()],
    );
    assert_eq!(member.cluster_name, "cluster");
    assert_eq!(member.node_address, "node-1");
    assert_eq!(member.kinds, vec!["a".to_string(), "b".to_string()]);
    let settings = GrpcRegistrySettings::default();
    assert_eq!(settings.heartbeat_interval_ns, 5_000_000_000);
    assert_eq!(settings.heartbeat_timeout_ns, 15_000_000_000);
}

#[test]
fn registry_members_become_cluster_members_in_order() {
    let client = GrpcRegistryClient::new("http://127.0.0.1:50051");
    assert_eq!(client.uri(), "http://127.0.0.1:50051");
    let members = vec![
        Member {
            cluster_name: "c".to_string(),
            node_address: "n1".to_string(),
            kinds: vec!["k1".to_string()],
        },
        Member { cluster_name: "c".to_string(), node_address: "n2".to_string(), kinds: vec![] },
    ];
    let topology = GrpcRegistryClient::topology_from_members(members);
    assert_eq!(topology.members.len(), 2);
    assert_eq!(topology.members[0].address, "n1");
    assert_eq!(topology.members[0].kinds, vec!["k1".to_string()]);
    assert_eq!(topology.members[1].address, "n2");
    let update = WatchUpdate {
        members: vec![Member {
            cluster_name: "c".to_string(),
            node_address: "n3".to_string(),
            kinds: vec![],
        }],
    };
    let topology = GrpcRegistryClient::update_from_watch(update);
    assert_eq!(topology.members.len(), 1);
    assert_eq!(topology.members[0].address, "n3");
}

#[test]
fn virtual_actor_refuses_messages_before_init() {
    let mut state = VirtualActorState::new(ClusterIdentity::new("echo", "a"));
    assert_eq!(state.receive(VirtualActorMessage::Absent), VirtualActorStep::Ignore);
    assert_eq!(
        state.receive(VirtualActorMessage::Other),
        VirtualActorStep::Refuse(VirtualActorRefusal::NotInitialized)
    );
    assert_eq!(
        state.receive(VirtualActorMessage::Init(ClusterIdentity::new("echo", "b"))),
        VirtualActorStep::Refuse(VirtualActorRefusal::IdentityMismatch)
    );
    assert!(!state.is_initialized());
}

#[test]
fn virtual_actor_lifecycle() {
    let mut state = VirtualActorState::new(ClusterIdentity::new("echo", "a"));
    assert_eq!(
        state.receive(VirtualActorMessage::Init(ClusterIdentity::new("echo", "a"))),
        VirtualActorStep::Activate
    );
    assert!(state.is_initialized());
    state.activation_finished(true);
    assert!(state.is_active());
    assert_eq!(
        state.receive(VirtualActorMessage::Other),
        VirtualActorStep::Handle { activate_first: false }
    );
    assert_eq!(
        state.receive(VirtualActorMessage::Stop),
        VirtualActorStep::Deactivate { call_deactivate: true }
    );
    state.deactivation_finished(true);
    assert!(!state.is_active());
    assert_eq!(
        state.receive(VirtualActorMessage::Other),
        VirtualActorStep::Handle { activate_first: true }
    );
    state.activation_finished(false);
    assert!(!state.is_active());
    assert!(!state.post_stop());
}

#[test]
fn virtual_actor_post_stop_drops_the_actor() {
    let mut state = VirtualActorState::new(ClusterIdentity::new("echo", "a"));
    state.receive(VirtualActorMessage::Init(ClusterIdentity::new("echo", "a")));
    state.activation_finished(true);
    assert!(state.post_stop());
    assert!(!state.is_active());
    state.post_stop_finished(true);
    assert!(!state.is_initialized());
    assert_eq!(
        state.receive(VirtualActorMessage::Stop),
        VirtualActorStep::Deactivate { call_deactivate: false }
    );
}

#[test]
fn in_memory_provider_tracks_members_and_clients() {
    let mut provider = InMemoryClusterProvider::new();
    assert!(provider.members_snapshot().is_empty());
    let topology = provider.start_member("node-1".to_string(), vec!["echo".to_string()]);
    assert_eq!(topology.members.len(), 1);
    assert_eq!(topology.members[0].address, "node-1");
    assert_eq!(topology.members[0].kinds, vec!["echo".to_string()]);
    provider.start_member("node-2".to_string(), vec![]);
    let topology = provider.start_member(
        "node-1".to_string(),
        vec!["echo".to_string(), "ping".to_string()],
    );
    assert_eq!(topology.members.len(), 2);
    let node1 = topology.members.iter().find(|m| m.address == "node-1").unwrap();
    assert_eq!(node1.kinds, vec!["echo".to_string(), "ping".to_string()]);
    let mut addresses = provider.members_snapshot();
    addresses.sort();
    assert_eq!(addresses, vec!["node-1".to_string(), "node-2".to_string()]);

    provider.start_client("cluster-a".to_string());
    provider.start_client("cluster-a".to_string());
    assert_eq!(provider.clients_snapshot(), vec!["cluster-a".to_string()]);
    let fresh = InMemoryClusterProvider::default();
    assert!(fresh.clients_snapshot().is_empty());
    assert!(fresh.topology_snapshot().is_empty());
}
