use vstd::prelude::*;

verus! {

/// Where a transport connects or listens.
#[derive(Debug)]
pub struct TransportEndpoint {
    pub uri: String,
}

impl TransportEndpoint {
    /// The endpoint at `uri`.
    pub fn new(uri: String) -> (r: Self)
        ensures
            r.uri == uri,
    {
        TransportEndpoint { uri }
    }

    /// An equal copy.
    pub fn duplicate(&self) -> (r: Self)
        ensures
            r.uri@ == self.uri@,
    {
        TransportEndpoint { uri: self.uri.clone() }
    }
}

/// A transport that connects in memory, for experiments without a network.
#[derive(Debug, Default, Clone, Copy)]
pub struct LoopbackTransport;

impl LoopbackTransport {
    /// The transport.
    pub fn new() -> (r: Self) {
        LoopbackTransport
    }

    /// Connecting always succeeds, with an open handle on `endpoint`.
    pub fn connect(&self, endpoint: &TransportEndpoint) -> (r: LoopbackHandle)
        ensures
            r.spec_endpoint()@ == endpoint.uri@,
            !r.spec_closed(),
    {
        LoopbackHandle::new(endpoint.duplicate())
    }

    /// Serving accepts any listener and does nothing.
    pub fn serve(&self, _listener: &TransportEndpoint) -> (r: bool)
        ensures
            r,
    {
        true
    }
}

/// A connection made by the loopback transport: the endpoint it reaches and
/// whether it was closed.
#[derive(Debug)]
pub struct LoopbackHandle {
    endpoint: TransportEndpoint,
    closed: bool,
}

impl LoopbackHandle {
    /// The uri of the endpoint reached.
    pub closed spec fn spec_endpoint(&self) -> String {
        self.endpoint.uri
    }

    /// Whether the handle was closed.
    pub closed spec fn spec_closed(&self) -> bool {
        self.closed
    }

    fn new(endpoint: TransportEndpoint) -> (r: Self)
        ensures
            r.spec_endpoint() == endpoint.uri,
            !r.spec_closed(),
    {
        LoopbackHandle { endpoint, closed: false }
    }

    /// The endpoint reached.
    pub fn endpoint(&self) -> (r: &TransportEndpoint)
        ensures
            r.uri == self.spec_endpoint(),
    {
        &self.endpoint
    }

    /// Whether `close` was called.
    pub fn is_closed(&self) -> (r: bool)
        ensures
            r == self.spec_closed(),
    {
        self.closed
    }

    /// Close the handle; it stays closed.
    pub fn close(&mut self)
        ensures
            final(self).spec_closed(),
            final(self).spec_endpoint() == old(self).spec_endpoint(),
    {
        self.closed = true;
    }
}

} // verus!
