use vstd::prelude::*;

verus! {

/// A node of the cluster: its address and the kinds of virtual actor it hosts.
#[derive(Debug, Clone)]
pub struct ClusterMember {
    pub address: String,
    pub kinds: Vec<String>,
}

impl ClusterMember {
    /// The member at `address` hosting `kinds`.
    pub fn new(address: String, kinds: Vec<String>) -> (r: Self)
        ensures
            r.address == address,
            r.kinds == kinds,
    {
        ClusterMember { address, kinds }
    }
}

/// The members of a cluster as one node sees them.
#[derive(Debug, Clone)]
pub struct ClusterTopology {
    pub members: Vec<ClusterMember>,
}

/// A change of the cluster's membership, as published to the event stream.
#[derive(Debug, Clone)]
pub struct TopologyEvent {
    pub cluster_name: String,
    pub node_address: Option<String>,
    pub event_type: String,
    pub members: Vec<ClusterMember>,
}

impl TopologyEvent {
    /// The event that `node_address` joined `cluster_name`; the kinds it
    /// hosts are not part of the event, which lists no members.
    pub fn registered(cluster_name: &str, node_address: &str, _kinds: &[String]) -> (r: Self)
        ensures
            r.cluster_name@ == cluster_name@,
            r.node_address is Some,
            r.node_address->0@ == node_address@,
            r.event_type@ == "registered"@,
            r.members@.len() == 0,
    {
        TopologyEvent {
            cluster_name: String::from_str(cluster_name),
            node_address: Some(String::from_str(node_address)),
            event_type: String::from_str("registered"),
            members: Vec::new(),
        }
    }

    /// The event that `node_address` left `cluster_name`; it lists no members.
    pub fn deregistered(cluster_name: &str, node_address: &str) -> (r: Self)
        ensures
            r.cluster_name@ == cluster_name@,
            r.node_address is Some,
            r.node_address->0@ == node_address@,
            r.event_type@ == "deregistered"@,
            r.members@.len() == 0,
    {
        TopologyEvent {
            cluster_name: String::from_str(cluster_name),
            node_address: Some(String::from_str(node_address)),
            event_type: String::from_str("deregistered"),
            members: Vec::new(),
        }
    }

    /// The full membership of `cluster_name`, with no node address.
    pub fn snapshot(cluster_name: &str, members: Vec<ClusterMember>) -> (r: Self)
        ensures
            r.cluster_name@ == cluster_name@,
            r.node_address is None,
            r.event_type@ == "snapshot"@,
            r.members == members,
    {
        TopologyEvent {
            cluster_name: String::from_str(cluster_name),
            node_address: None,
            event_type: String::from_str("snapshot"),
            members,
        }
    }
}

/// The text of a provider failure with `reason`.
pub open spec fn provider_error_text(reason: Seq<char>) -> Seq<char> {
    "provider failed: "@ + reason
}

/// A cluster provider could not do what it was asked.
#[derive(Debug)]
pub enum ClusterProviderError {
    ProviderError(String),
}

impl ClusterProviderError {
    /// The provider failure that carries the text of a registry failure.
    pub fn from_registry_error(error: RegistryError) -> (r: Self)
        ensures
            r matches ClusterProviderError::ProviderError(text) && text@ == registry_error_text(
                error,
            ),
    {
        ClusterProviderError::ProviderError(error.message())
    }

    /// The text of the failure: `provider failed: ` and the reason.
    pub fn message(&self) -> (r: String)
        ensures
            self matches ClusterProviderError::ProviderError(reason) && r@ == provider_error_text(
                reason@,
            ),
    {
        proof {
            reveal_strlit("provider failed: ");
        }
        match self {
            ClusterProviderError::ProviderError(reason) => String::from_str(
                "provider failed: ",
            ).concat(reason.as_str()),
        }
    }
}

/// A request to the membership registry failed, or its watch ended.
#[derive(Debug)]
pub enum RegistryError {
    OperationFailed(String),
    WatchClosed,
}

/// The text a registry failure is shown as.
pub open spec fn registry_error_text(error: RegistryError) -> Seq<char> {
    match error {
        RegistryError::OperationFailed(reason) => "registry operation failed: "@ + reason@,
        RegistryError::WatchClosed => "registry watch closed"@,
    }
}

impl RegistryError {
    /// The text of the failure.
    pub fn message(&self) -> (r: String)
        ensures
            r@ == registry_error_text(*self),
    {
        proof {
            reveal_strlit("registry operation failed: ");
        }
        match self {
            RegistryError::OperationFailed(reason) => String::from_str(
                "registry operation failed: ",
            ).concat(reason.as_str()),
            RegistryError::WatchClosed => String::from_str("registry watch closed"),
        }
    }
}

/// A node as the registry records it: the cluster it joins, its address and
/// the kinds it hosts.
#[derive(Debug, Clone)]
pub struct RegistryMember {
    pub cluster_name: String,
    pub node_address: String,
    pub kinds: Vec<String>,
}

impl RegistryMember {
    /// The record of `node_address` in `cluster_name` hosting `kinds`.
    pub fn new(cluster_name: String, node_address: String, kinds: Vec<String>) -> (r: Self)
        ensures
            r.cluster_name == cluster_name,
            r.node_address == node_address,
            r.kinds == kinds,
    {
        RegistryMember { cluster_name, node_address, kinds }
    }
}

/// How often a node tells the registry it is alive, and how long the
/// registry waits before it counts a silent node as gone, in nanoseconds.
#[derive(Debug, Clone)]
pub struct GrpcRegistrySettings {
    pub heartbeat_interval_ns: u64,
    pub heartbeat_timeout_ns: u64,
}

impl Default for GrpcRegistrySettings {
    /// A heartbeat every 5 s, a node gone after 15 s of silence.
    fn default() -> (r: Self)
        ensures
            r.heartbeat_interval_ns == 5_000_000_000,
            r.heartbeat_timeout_ns == 15_000_000_000,
    {
        GrpcRegistrySettings {
            heartbeat_interval_ns: 5_000_000_000,
            heartbeat_timeout_ns: 15_000_000_000,
        }
    }
}

/// A member as the registry service sends it.
#[derive(Debug, Clone)]
pub struct Member {
    pub cluster_name: String,
    pub node_address: String,
    pub kinds: Vec<String>,
}

/// A membership update from the registry's watch stream.
#[derive(Debug, Clone)]
pub struct WatchUpdate {
    pub members: Vec<Member>,
}

/// The cluster member that a registry member stands for.
pub open spec fn member_of(member: Member) -> ClusterMember {
    ClusterMember { address: member.node_address, kinds: member.kinds }
}

/// A client of the membership registry service at `uri`.
#[derive(Debug, Clone)]
pub struct GrpcRegistryClient {
    uri: String,
}

impl GrpcRegistryClient {
    /// A client of the service at `uri`.
    pub fn new(uri: &str) -> (r: Self)
        ensures
            r.spec_uri() == uri@,
    {
        GrpcRegistryClient { uri: String::from_str(uri) }
    }

    /// The address of the service.
    pub fn uri(&self) -> (r: &str)
        ensures
            r@ == self.spec_uri(),
    {
        self.uri.as_str()
    }

    /// The address of the service.
    pub closed spec fn spec_uri(&self) -> Seq<char> {
        self.uri@
    }

    /// The topology made of the members the registry reported, in order.
    pub fn topology_from_members(members: Vec<Member>) -> (r: ClusterTopology)
        ensures
            r.members@ == members@.map_values(|m: Member| member_of(m)),
    {
        let ghost reported = members@;
        let mut converted: Vec<ClusterMember> = Vec::new();
        for member in it: members.into_iter()
            invariant
                it.seq() == reported,
                converted@ == reported.take(it.index() as int).map_values(|m: Member| member_of(m)),
        {
            proof {
                assert(reported.take(it.index() + 1) == reported.take(it.index() as int).push(
                    member,
                ));
            }
            converted.push(ClusterMember::new(member.node_address, member.kinds));
        }
        proof {
            assert(reported.take(reported.len() as int) == reported);
        }
        ClusterTopology { members: converted }
    }

    /// The topology a watch update reports.
    pub fn update_from_watch(watch: WatchUpdate) -> (r: ClusterTopology)
        ensures
            r.members@ == watch.members@.map_values(|m: Member| member_of(m)),
    {
        Self::topology_from_members(watch.members)
    }
}

} // verus!
