use vstd::prelude::*;

use crate::supervision::directive::Directive;

verus! {

/// Why the endpoint supervisor refused a request.
#[derive(Debug, Clone, Copy, PartialEq, Eq)]
pub enum EndpointSupervisorError {
    /// The request did not name an address.
    AddressNotFound,
}

/// The actors to start for a remote address: a writer and a watcher, both
/// for that address.
#[derive(Debug)]
pub struct EndpointSpawnPlan {
    pub writer_address: String,
    pub watcher_address: String,
}

/// How the endpoint supervisor treats its failing children: one child at
/// a time, no restarts, every failure stops the child.
#[derive(Debug, Clone, Copy, PartialEq, Eq)]
pub struct EndpointChildStrategy {
    pub max_nr_of_retries: u32,
    pub within_duration_ns: u64,
    pub directive: Directive,
}

/// The actor that starts the writer and the watcher of each remote
/// endpoint, holding the handle of the remote subsystem it serves.
#[derive(Debug)]
pub struct EndpointSupervisor<R> {
    remote: R,
}

impl<R> EndpointSupervisor<R> {
    /// The handle of the remote subsystem.
    pub closed spec fn spec_remote(&self) -> R {
        self.remote
    }

    /// A supervisor serving `remote`.
    pub fn new(remote: R) -> (r: Self)
        ensures
            r.spec_remote() == remote,
    {
        EndpointSupervisor { remote }
    }

    /// The handle of the remote subsystem.
    pub fn remote(&self) -> (r: &R)
        ensures
            *r == self.spec_remote(),
    {
        &self.remote
    }

    /// What to start for a request: for an address, a writer and a watcher
    /// of that address; for a request that names none, the refusal.
    pub fn plan_endpoint(&self, address: Option<String>) -> (r: Result<
        EndpointSpawnPlan,
        EndpointSupervisorError,
    >)
        ensures
            address is None <==> r == Err::<EndpointSpawnPlan, EndpointSupervisorError>(
                EndpointSupervisorError::AddressNotFound,
            ),
            address is Some ==> r is Ok && r->Ok_0.writer_address@ == address->0@
                && r->Ok_0.watcher_address@ == address->0@,
    {
        match address {
            None => Err(EndpointSupervisorError::AddressNotFound),
            Some(address) => {
                let watcher_address = address.clone();
                Ok(EndpointSpawnPlan { writer_address: address, watcher_address })
            },
        }
    }

    /// The strategy for the supervisor's own children.
    pub fn supervisor_strategy(&self) -> (r: EndpointChildStrategy)
        ensures
            r.max_nr_of_retries == 0,
            r.within_duration_ns == 0,
            r.directive == Directive::Stop,
    {
        EndpointChildStrategy { max_nr_of_retries: 0, within_duration_ns: 0, directive: Directive::Stop }
    }
}

} // verus!
