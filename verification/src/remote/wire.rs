use vstd::prelude::*;

verus! {

/// The identity of a process: its node address, its id on that node and,
/// for a request, the request id.
#[derive(Debug, Clone, PartialEq, Eq, Hash, Default)]
pub struct Pid {
    pub address: String,
    pub id: String,
    pub request_id: u32,
}

impl Pid {
    /// A process identity with request id 0.
    pub fn new(address: String, id: String) -> (p: Pid)
        ensures
            p.address@ == address@,
            p.id@ == id@,
            p.request_id == 0,
    {
        Pid { address, id, request_id: 0 }
    }

    /// An equal copy.
    pub fn duplicate(&self) -> (r: Pid)
        ensures
            r == *self,
    {
        Pid { address: self.address.clone(), id: self.id.clone(), request_id: self.request_id }
    }
}

/// A header of a remote message: key-value pairs.
#[derive(Debug, Clone, PartialEq, Eq, Default)]
pub struct MessageHeader {
    pub header_data: Vec<(String, String)>,
}

/// One message of a batch as it travels between nodes.  Targets and senders
/// are given by position in the batch's lists: a target at its index, a
/// sender at its index plus one, with 0 meaning no sender.
#[derive(Debug, Clone, PartialEq, Eq, Default)]
pub struct MessageEnvelope {
    pub type_id: i32,
    pub message_data: Vec<u8>,
    pub target: i32,
    pub sender: i32,
    pub serializer_id: u32,
    pub message_header: Option<MessageHeader>,
    pub target_request_id: u32,
    pub sender_request_id: u32,
}

/// A batch of messages with the type names, targets and senders they refer to.
#[derive(Debug, Clone, PartialEq, Eq, Default)]
pub struct MessageBatch {
    pub type_names: Vec<String>,
    pub targets: Vec<Pid>,
    pub envelopes: Vec<MessageEnvelope>,
    pub senders: Vec<Pid>,
}

} // verus!
