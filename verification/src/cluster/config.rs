use vstd::prelude::*;

verus! {

/// Where a cluster node listens for remote traffic, and the address it
/// tells its peers when that differs.
#[derive(Debug, Clone)]
pub struct RemoteOptions {
    pub host: String,
    pub port: u16,
    pub advertised_address: Option<String>,
}

impl RemoteOptions {
    /// Options for `host:port`, with no advertised address.
    pub fn new(host: &str, port: u16) -> (r: Self)
        ensures
            r.host@ == host@,
            r.port == port,
            r.advertised_address is None,
    {
        RemoteOptions { host: String::from_str(host), port, advertised_address: None }
    }

    /// The same options, advertising `address`.
    pub fn with_advertised_address(self, address: &str) -> (r: Self)
        ensures
            r.host == self.host,
            r.port == self.port,
            r.advertised_address is Some,
            r.advertised_address->0@ == address@,
    {
        let mut options = self;
        options.advertised_address = Some(String::from_str(address));
        options
    }

    /// The host.
    pub fn host(&self) -> (r: &str)
        ensures
            r@ == self.host@,
    {
        self.host.as_str()
    }

    /// The port.
    pub fn port(&self) -> (r: u16)
        ensures
            r == self.port,
    {
        self.port
    }

    /// The advertised address, if one was set.
    pub fn advertised_address(&self) -> (r: Option<&str>)
        ensures
            r is Some <==> self.advertised_address is Some,
            r is Some ==> r->0@ == self.advertised_address->0@,
    {
        match &self.advertised_address {
            Some(address) => Some(address.as_str()),
            None => None,
        }
    }
}

} // verus!
