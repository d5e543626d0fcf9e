use vstd::prelude::*;

use crate::utils::text::str_equal;

verus! {

/// The type names that a decoder treats specially: the three batch
/// transports, which decode through their root message, and the system
/// messages `Terminated`, `Stop`, `Watch` and `Unwatch`.
#[derive(Debug)]
pub struct WireTypeNames {
    pub pub_sub_batch: String,
    pub deliver_batch_request: String,
    pub pub_sub_auto_respond_batch: String,
    pub terminated: String,
    pub stop: String,
    pub watch: String,
    pub unwatch: String,
}

/// How a received payload is decoded, chosen by its type name.
#[derive(Debug, Clone, Copy, PartialEq, Eq)]
pub enum WireDecodeRoute {
    /// A publish-subscribe batch, decoded as its transport then unwrapped.
    PubSubBatch,
    /// A batch delivery request, decoded as its transport then unwrapped.
    DeliverBatchRequest,
    /// An auto-respond batch, decoded as its transport then unwrapped.
    PubSubAutoRespondBatch,
    /// A termination notice, decoded as protobuf.
    Terminated,
    /// A stop: the payload is not read.
    Stop,
    /// A watch request, decoded as protobuf; it needs a watcher.
    Watch,
    /// An unwatch request, decoded as protobuf; it needs a watcher.
    Unwatch,
    /// Any other message, decoded by the serializer registered for it.
    Registered,
}

/// The route for a payload of type `message_type`: the first special name it
/// equals, in the order batches, `Terminated`, `Stop`, `Watch`, `Unwatch`,
/// else the registered serializer.
pub open spec fn wire_route(names: WireTypeNames, message_type: Seq<char>) -> WireDecodeRoute {
    if message_type == names.pub_sub_batch@ {
        WireDecodeRoute::PubSubBatch
    } else if message_type == names.deliver_batch_request@ {
        WireDecodeRoute::DeliverBatchRequest
    } else if message_type == names.pub_sub_auto_respond_batch@ {
        WireDecodeRoute::PubSubAutoRespondBatch
    } else if message_type == names.terminated@ {
        WireDecodeRoute::Terminated
    } else if message_type == names.stop@ {
        WireDecodeRoute::Stop
    } else if message_type == names.watch@ {
        WireDecodeRoute::Watch
    } else if message_type == names.unwatch@ {
        WireDecodeRoute::Unwatch
    } else {
        WireDecodeRoute::Registered
    }
}

/// The route for a payload of type `message_type`.
pub fn wire_decode_route(names: &WireTypeNames, message_type: &str) -> (r: WireDecodeRoute)
    ensures
        r == wire_route(*names, message_type@),
{
    if str_equal(message_type, names.pub_sub_batch.as_str()) {
        WireDecodeRoute::PubSubBatch
    } else if str_equal(message_type, names.deliver_batch_request.as_str()) {
        WireDecodeRoute::DeliverBatchRequest
    } else if str_equal(message_type, names.pub_sub_auto_respond_batch.as_str()) {
        WireDecodeRoute::PubSubAutoRespondBatch
    } else if str_equal(message_type, names.terminated.as_str()) {
        WireDecodeRoute::Terminated
    } else if str_equal(message_type, names.stop.as_str()) {
        WireDecodeRoute::Stop
    } else if str_equal(message_type, names.watch.as_str()) {
        WireDecodeRoute::Watch
    } else if str_equal(message_type, names.unwatch.as_str()) {
        WireDecodeRoute::Unwatch
    } else {
        WireDecodeRoute::Registered
    }
}

/// The deserialization message for a watch or unwatch request that names
/// no watcher, `None` for any other route.
pub fn missing_watcher_message(route: WireDecodeRoute) -> (r: Option<&'static str>)
    ensures
        route == WireDecodeRoute::Watch ==> r is Some && r->0@ == "Watch message missing watcher"@,
        route == WireDecodeRoute::Unwatch ==> r is Some && r->0@
            == "Unwatch message missing watcher"@,
        route != WireDecodeRoute::Watch && route != WireDecodeRoute::Unwatch ==> r is None,
{
    match route {
        WireDecodeRoute::Watch => Some("Watch message missing watcher"),
        WireDecodeRoute::Unwatch => Some("Unwatch message missing watcher"),
        _ => None,
    }
}

} // verus!
