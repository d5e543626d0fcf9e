use vstd::prelude::*;

use crate::remote::serializer::{invalid_serializer_id_text, serializer_id_of, SerializerId};
use crate::remote::wire::{MessageBatch, MessageEnvelope, Pid};
use crate::utils::text::{i32_to_decimal, signed_decimal, str_equal};

verus! {

/// Why an incoming message batch was rejected.
#[derive(Debug, Clone, PartialEq, Eq)]
pub enum EndpointReaderError {
    UnknownTarget,
    UnknownSender,
    Deserialization(String),
}

/// A copy of `pid` that carries `request_id` when that is not 0.
pub open spec fn with_request_id(pid: Pid, request_id: u32) -> Pid {
    if request_id > 0 {
        Pid { request_id, ..pid }
    } else {
        pid
    }
}

/// A copy of `pid`, with `request_id` when that is not 0.
fn copy_pid(pid: &Pid, request_id: u32) -> (r: Pid)
    ensures
        r == with_request_id(*pid, request_id),
{
    let rid = if request_id > 0 {
        request_id
    } else {
        pid.request_id
    };
    Pid { address: pid.address.clone(), id: pid.id.clone(), request_id: rid }
}

/// The sender of an envelope: none for index 0, else the sender at
/// `index - 1`, carrying `request_id` when that is not 0.
pub fn deserialize_sender(index: i32, request_id: u32, senders: &Vec<Pid>) -> (r: Option<Pid>)
    requires
        index == 0 || 1 <= index <= senders@.len(),
    ensures
        index == 0 ==> r is None,
        index != 0 ==> r == Some(with_request_id(senders@[index - 1], request_id)),
{
    if index == 0 {
        None
    } else {
        let i = (index - 1) as usize;
        Some(copy_pid(&senders[i], request_id))
    }
}

/// The target of an envelope: the target at `index`, carrying `request_id`
/// when that is not 0.
pub fn deserialize_target(index: i32, request_id: u32, targets: &Vec<Pid>) -> (r: Option<Pid>)
    requires
        0 <= index < targets@.len(),
    ensures
        r == Some(with_request_id(targets@[index as int], request_id)),
{
    Some(copy_pid(&targets[index as usize], request_id))
}

/// The parts of an envelope that a reader needs to deliver it.
#[derive(Debug, Clone, PartialEq, Eq)]
pub struct ResolvedEnvelope {
    pub target: Pid,
    pub sender: Option<Pid>,
    pub serializer_id: SerializerId,
    pub message_type: String,
}

/// Whether the references of an envelope lie inside its batch's lists.
pub open spec fn envelope_refs_in_range(envelope: MessageEnvelope, batch: MessageBatch) -> bool {
    &&& (envelope.sender == 0 || 1 <= envelope.sender <= batch.senders@.len())
    &&& 0 <= envelope.target < batch.targets@.len()
}

/// The message of the error for an out-of-range type id.
pub open spec fn invalid_type_id_text(type_id: i32) -> Seq<char> {
    "Invalid type id: "@ + signed_decimal(type_id)
}

/// Resolves the target, sender, format and message type of one envelope of
/// `batch`.  An unknown serializer number or a type id outside the batch's
/// type names is a deserialization error.
pub fn resolve_envelope(envelope: &MessageEnvelope, batch: &MessageBatch) -> (r: Result<ResolvedEnvelope, EndpointReaderError>)
    requires
        envelope_refs_in_range(*envelope, *batch),
    ensures
        serializer_id_of(envelope.serializer_id) is None ==> (r matches Err(
            EndpointReaderError::Deserialization(m),
        ) && m@ == invalid_serializer_id_text(envelope.serializer_id)),
        serializer_id_of(envelope.serializer_id) is Some && !(0 <= envelope.type_id
            < batch.type_names@.len()) ==> (r matches Err(EndpointReaderError::Deserialization(m))
            && m@ == invalid_type_id_text(envelope.type_id)),
        serializer_id_of(envelope.serializer_id) is Some && 0 <= envelope.type_id
            < batch.type_names@.len() ==> r is Ok && r->Ok_0 == (ResolvedEnvelope {
            target: with_request_id(batch.targets@[envelope.target as int], envelope.target_request_id),
            sender: if envelope.sender == 0 {
                None
            } else {
                Some(with_request_id(batch.senders@[envelope.sender - 1], envelope.sender_request_id))
            },
            serializer_id: serializer_id_of(envelope.serializer_id)->0,
            message_type: batch.type_names@[envelope.type_id as int],
        }),
{
    let sender = deserialize_sender(envelope.sender, envelope.sender_request_id, &batch.senders);
    let target = match deserialize_target(envelope.target, envelope.target_request_id, &batch.targets) {
        Some(t) => t,
        None => {
            return Err(EndpointReaderError::UnknownTarget);
        },
    };
    let serializer_id = match SerializerId::from_u32(envelope.serializer_id) {
        Ok(id) => id,
        Err(message) => {
            return Err(EndpointReaderError::Deserialization(message));
        },
    };
    if envelope.type_id < 0 || (envelope.type_id as usize) >= batch.type_names.len() {
        let prefix = String::from_str("Invalid type id: ");
        let digits = i32_to_decimal(envelope.type_id);
        proof {
            reveal_strlit("Invalid type id: ");
        }
        return Err(EndpointReaderError::Deserialization(prefix.concat(digits.as_str())));
    }
    let message_type = batch.type_names[envelope.type_id as usize].clone();
    Ok(ResolvedEnvelope { target, sender, serializer_id, message_type })
}

} // verus!

verus! {

/// The kind of an item read from a remote connection stream.
#[derive(Debug, Clone, Copy, PartialEq, Eq, Structural)]
pub enum IncomingMessage {
    ConnectRequest,
    MessageBatch,
    /// A message of another type.
    Other,
    /// A message that carries no type.
    Untyped,
    /// The stream failed.
    ReceiveError,
}

/// What a reader does with an item of the stream.
#[derive(Debug, Clone, Copy, PartialEq, Eq, Structural)]
pub enum StreamAction {
    /// Drop the item: the reader is suspended.
    Skip,
    HandleConnect,
    HandleBatch,
    /// Log the item and go on.
    IgnoreUnknown,
    /// Close the stream.
    Stop,
    /// Go on with the next item.
    Continue,
}

/// The kind of peer asking to connect.
#[derive(Debug, Clone, Copy, PartialEq, Eq, Structural)]
pub enum ConnectionKind {
    Server,
    Client,
}

/// What a reader does for a connect request.
#[derive(Debug, Clone, Copy, PartialEq, Eq, Structural)]
pub struct ConnectionPlan {
    /// The `blocked` flag of the connect response, always sent.
    pub respond_blocked: bool,
    /// Whether the client connection is registered with the endpoint manager.
    pub register_client: bool,
    /// Whether a heartbeat is recorded for the peer.
    pub mark_heartbeat: bool,
}

/// The kind of a decoded remote message.
#[derive(Debug, Clone, Copy, PartialEq, Eq, Structural)]
pub enum DecodedKind {
    /// A notice that a watched process terminated.
    Terminated,
    /// A system message for a local process.
    System,
    /// A user message.
    User,
}

/// How a decoded remote message is delivered.
#[derive(Debug, Clone, Copy, PartialEq, Eq, Structural)]
pub enum DeliveryRoute {
    /// Hand a termination notice to the endpoint manager.
    RemoteTerminate,
    /// Send the system message to the local target process.
    SystemToLocal,
    /// Send the bare user message to the target.
    UserDirect,
    /// Send the user message wrapped with its headers and sender.
    UserEnvelope,
}

/// The reader of one remote node's inbound stream; a suspended reader drops
/// what it receives.
///
/// A reader owns its suspension flag and is not cloned: the task that runs
/// the stream and the one that suspends it share the one reader value, so
/// suspending it is seen by the stream.
#[derive(Debug)]
pub struct EndpointReader {
    suspended: bool,
}

impl EndpointReader {
    /// Whether the reader is suspended.
    pub closed spec fn spec_suspended(&self) -> bool {
        self.suspended
    }

    /// A reader that is not suspended.
    pub fn new() -> (r: Self)
        ensures
            !r.spec_suspended(),
    {
        EndpointReader { suspended: false }
    }

    /// Suspends or resumes the reader.
    pub fn set_suspend(&mut self, suspend: bool)
        ensures
            final(self).spec_suspended() == suspend,
    {
        self.suspended = suspend;
    }

    /// Whether the reader is suspended.
    pub fn is_suspended(&self) -> (r: bool)
        ensures
            r == self.spec_suspended(),
    {
        self.suspended
    }

    /// What to do with an item of the stream: a failed stream closes, a
    /// suspended reader drops the item, and an item of unknown type is logged.
    pub fn incoming_action(&self, item: IncomingMessage) -> (r: StreamAction)
        ensures
            item == IncomingMessage::ReceiveError ==> r == StreamAction::Stop,
            item != IncomingMessage::ReceiveError && self.spec_suspended() ==> r
                == StreamAction::Skip,
            item != IncomingMessage::ReceiveError && !self.spec_suspended() ==> r == match item {
                IncomingMessage::ConnectRequest => StreamAction::HandleConnect,
                IncomingMessage::MessageBatch => StreamAction::HandleBatch,
                _ => StreamAction::IgnoreUnknown,
            },
    {
        match item {
            IncomingMessage::ReceiveError => StreamAction::Stop,
            _ => {
                if self.suspended {
                    StreamAction::Skip
                } else {
                    match item {
                        IncomingMessage::ConnectRequest => StreamAction::HandleConnect,
                        IncomingMessage::MessageBatch => StreamAction::HandleBatch,
                        _ => StreamAction::IgnoreUnknown,
                    }
                }
            },
        }
    }
}

/// What to do for a connect request from a peer of kind `kind`: the answer
/// always goes out and says whether the peer is blocked; an accepted client
/// is registered when it has a connection key and a manager is running, and
/// an accepted peer gets a heartbeat recorded when a manager is running.
pub fn plan_connection(kind: ConnectionKind, blocked: bool, has_connection_key: bool, has_manager: bool) -> (r: ConnectionPlan)
    ensures
        r.respond_blocked == blocked,
        r.register_client == (kind == ConnectionKind::Client && !blocked && has_connection_key
            && has_manager),
        r.mark_heartbeat == (!blocked && has_manager),
{
    let register_client = match kind {
        ConnectionKind::Client => !blocked && has_connection_key && has_manager,
        ConnectionKind::Server => false,
    };
    ConnectionPlan { respond_blocked: blocked, register_client, mark_heartbeat: !blocked && has_manager }
}

/// How to deliver a decoded message: a system message needs a local target
/// process; a user message without sender or header goes bare.
pub fn route_decoded(kind: DecodedKind, has_local_process: bool, has_sender: bool, has_header: bool) -> (r: Result<DeliveryRoute, EndpointReaderError>)
    ensures
        kind == DecodedKind::Terminated ==> r == Ok::<DeliveryRoute, EndpointReaderError>(
            DeliveryRoute::RemoteTerminate,
        ),
        kind == DecodedKind::System && has_local_process ==> r == Ok::<
            DeliveryRoute,
            EndpointReaderError,
        >(DeliveryRoute::SystemToLocal),
        kind == DecodedKind::System && !has_local_process ==> r == Err::<
            DeliveryRoute,
            EndpointReaderError,
        >(EndpointReaderError::UnknownTarget),
        kind == DecodedKind::User && !has_sender && !has_header ==> r == Ok::<
            DeliveryRoute,
            EndpointReaderError,
        >(DeliveryRoute::UserDirect),
        kind == DecodedKind::User && (has_sender || has_header) ==> r == Ok::<
            DeliveryRoute,
            EndpointReaderError,
        >(DeliveryRoute::UserEnvelope),
{
    match kind {
        DecodedKind::Terminated => Ok(DeliveryRoute::RemoteTerminate),
        DecodedKind::System => {
            if has_local_process {
                Ok(DeliveryRoute::SystemToLocal)
            } else {
                Err(EndpointReaderError::UnknownTarget)
            }
        },
        DecodedKind::User => {
            if !has_sender && !has_header {
                Ok(DeliveryRoute::UserDirect)
            } else {
                Ok(DeliveryRoute::UserEnvelope)
            }
        },
    }
}

/// The addresses of the processes that a delivered batch reached, each once:
/// after a batch is delivered, a heartbeat is recorded for each of them.
pub fn heartbeat_addresses(targets: &Vec<Pid>) -> (r: Vec<String>)
    ensures
        r@.map_values(|a: String| a@).to_set() == targets@.map_values(|p: Pid| p.address@).to_set(),
        r@.map_values(|a: String| a@).no_duplicates(),
{
    let ghost all = targets@.map_values(|p: Pid| p.address@);
    let mut out: Vec<String> = Vec::new();
    let mut i: usize = 0;
    while i < targets.len()
        invariant
            i <= targets@.len(),
            all == targets@.map_values(|p: Pid| p.address@),
            out@.map_values(|a: String| a@).to_set() == all.take(i as int).to_set(),
            out@.map_values(|a: String| a@).no_duplicates(),
        decreases targets@.len() - i,
    {
        let address = targets[i].address.as_str();
        let ghost seen = out@.map_values(|a: String| a@);
        let mut found = false;
        let mut j: usize = 0;
        while j < out.len()
            invariant
                j <= out@.len(),
                seen == out@.map_values(|a: String| a@),
                found <==> exists|k: int| 0 <= k < j && seen[k] == address@,
            decreases out@.len() - j,
        {
            proof {
                assert(seen[j as int] == out@[j as int]@);
            }
            if str_equal(out[j].as_str(), address) {
                found = true;
            }
            j = j + 1;
        }
        proof {
            assert(all.take(i + 1) =~= all.take(i as int).push(address@));
        }
        if !found {
            out.push(String::from_str(address));
            proof {
                let now = out@.map_values(|a: String| a@);
                assert(now =~= seen.push(address@));
                assert(!seen.contains(address@));
                seen.lemma_push_to_set_commute(address@);
                all.take(i as int).lemma_push_to_set_commute(address@);
            }
        } else {
            proof {
                let k = choose|k: int| 0 <= k < j && seen[k] == address@;
                assert(seen.to_set().contains(address@));
                all.take(i as int).lemma_push_to_set_commute(address@);
                assert(all.take(i as int).to_set().insert(address@) =~= all.take(i as int).to_set());
            }
        }
        i = i + 1;
    }
    proof {
        assert(all.take(targets@.len() as int) =~= all);
    }
    out
}

/// The outcome of a batch whose envelopes came out as `outcomes`, each the
/// target an envelope was delivered to or the error it failed with: the
/// error of the first failing envelope, or, when none failed, the addresses
/// of all the targets, each to get a heartbeat.
pub open spec fn batch_outcome(outcomes: Seq<Result<Pid, EndpointReaderError>>) -> Result<
    Set<Seq<char>>,
    EndpointReaderError,
>
    decreases outcomes.len(),
{
    if outcomes.len() == 0 {
        Ok(Set::empty())
    } else {
        match outcomes[0] {
            Err(e) => Err(e),
            Ok(target) => match batch_outcome(outcomes.drop_first()) {
                Err(e) => Err(e),
                Ok(addresses) => Ok(addresses.insert(target.address@)),
            },
        }
    }
}

/// The progress through one batch: the targets delivered so far, in
/// order, and the error that stopped it, if one did.  A stopped run takes
/// no further envelope.
#[derive(Debug)]
pub struct BatchRun {
    delivered: Vec<Pid>,
    failure: Option<EndpointReaderError>,
}

impl BatchRun {
    /// The outcomes recorded so far: the deliveries, then the failure if any.
    pub closed spec fn spec_outcomes(&self) -> Seq<Result<Pid, EndpointReaderError>> {
        let ok = self.delivered@.map_values(|p: Pid| Ok::<Pid, EndpointReaderError>(p));
        match self.failure {
            Some(e) => ok.push(Err(e)),
            None => ok,
        }
    }

    /// Whether an envelope failed, which ends the batch.
    pub closed spec fn spec_stopped(&self) -> bool {
        self.failure is Some
    }

    /// A run over a batch before its first envelope.
    pub fn new() -> (r: Self)
        ensures
            r.spec_outcomes() == Seq::<Result<Pid, EndpointReaderError>>::empty(),
            !r.spec_stopped(),
    {
        BatchRun { delivered: Vec::new(), failure: None }
    }

    /// Whether an envelope failed, which ends the batch.
    pub fn is_stopped(&self) -> (r: bool)
        ensures
            r == self.spec_stopped(),
    {
        self.failure.is_some()
    }

    /// Records how the next envelope went: the target it was delivered to,
    /// or the error it failed with.  Returns whether the batch goes on to
    /// its next envelope: it stops at the first failure, and what was
    /// delivered before stays delivered.
    pub fn record(&mut self, outcome: Result<Pid, EndpointReaderError>) -> (go_on: bool)
        requires
            !old(self).spec_stopped(),
        ensures
            final(self).spec_outcomes() == old(self).spec_outcomes().push(outcome),
            go_on == outcome is Ok,
            final(self).spec_stopped() == outcome is Err,
    {
        let ghost before = self.delivered@;
        match outcome {
            Ok(target) => {
                let ghost t = target;
                self.delivered.push(target);
                proof {
                    assert(self.delivered@.map_values(|p: Pid| Ok::<Pid, EndpointReaderError>(p))
                        =~= before.map_values(|p: Pid| Ok::<Pid, EndpointReaderError>(p)).push(
                        Ok(t),
                    ));
                }
                true
            },
            Err(e) => {
                self.failure = Some(e);
                false
            },
        }
    }

    /// The result of the batch: the first failure's error, with no
    /// heartbeat to record; or, when every envelope was delivered, the
    /// addresses of the delivered targets, each once, to get a heartbeat.
    pub fn finish(self) -> (r: Result<Vec<String>, EndpointReaderError>)
        ensures
            batch_outcome(self.spec_outcomes()) matches Err(e) ==> r == Err::<
                Vec<String>,
                EndpointReaderError,
            >(e),
            batch_outcome(self.spec_outcomes()) matches Ok(addresses) ==> r is Ok
                && r->Ok_0@.map_values(|a: String| a@).to_set() == addresses
                && r->Ok_0@.map_values(|a: String| a@).no_duplicates(),
    {
        let ghost delivered = self.delivered@;
        proof {
            lemma_batch_outcome_of_run(delivered, self.failure);
        }
        match self.failure {
            Some(e) => Err(e),
            None => Ok(heartbeat_addresses(&self.delivered)),
        }
    }
}

/// Deliveries followed by at most one failure: the failure decides the
/// batch, else the addresses of the deliveries do.
proof fn lemma_batch_outcome_of_run(delivered: Seq<Pid>, failure: Option<EndpointReaderError>)
    ensures
        ({
            let ok = delivered.map_values(|p: Pid| Ok::<Pid, EndpointReaderError>(p));
            let outcomes = match failure {
                Some(e) => ok.push(Err(e)),
                None => ok,
            };
            &&& failure matches Some(e) ==> batch_outcome(outcomes) == Err::<
                Set<Seq<char>>,
                EndpointReaderError,
            >(e)
            &&& failure is None ==> batch_outcome(outcomes) == Ok::<
                Set<Seq<char>>,
                EndpointReaderError,
            >(delivered.map_values(|p: Pid| p.address@).to_set())
        }),
    decreases delivered.len(),
{
    let ok = delivered.map_values(|p: Pid| Ok::<Pid, EndpointReaderError>(p));
    let outcomes = match failure {
        Some(e) => ok.push(Err(e)),
        None => ok,
    };
    if delivered.len() == 0 {
        if failure is Some {
            assert(outcomes.drop_first().len() == 0);
        }
        assert(delivered.map_values(|p: Pid| p.address@).to_set() =~= Set::<Seq<char>>::empty());
    } else {
        let rest = delivered.drop_first();
        lemma_batch_outcome_of_run(rest, failure);
        let rest_ok = rest.map_values(|p: Pid| Ok::<Pid, EndpointReaderError>(p));
        let rest_outcomes = match failure {
            Some(e) => rest_ok.push(Err(e)),
            None => rest_ok,
        };
        assert(outcomes.drop_first() =~= rest_outcomes);
        assert(outcomes[0] == Ok::<Pid, EndpointReaderError>(delivered[0]));
        let addrs = delivered.map_values(|p: Pid| p.address@);
        let rest_addrs = rest.map_values(|p: Pid| p.address@);
        assert(addrs =~= seq![delivered[0].address@] + rest_addrs);
        assert(addrs.to_set() =~= rest_addrs.to_set().insert(delivered[0].address@)) by {
            assert forall|x: Seq<char>| #[trigger] addrs.to_set().contains(x)
                == rest_addrs.to_set().insert(delivered[0].address@).contains(x) by {
                if addrs.contains(x) {
                    let k = choose|k: int| 0 <= k < addrs.len() && addrs[k] == x;
                    if k > 0 {
                        assert(rest_addrs[k - 1] == x);
                    }
                }
                if rest_addrs.contains(x) {
                    let k = choose|k: int| 0 <= k < rest_addrs.len() && rest_addrs[k] == x;
                    assert(addrs[k + 1] == x);
                }
                if x == delivered[0].address@ {
                    assert(addrs[0] == x);
                }
            }
        }
    }
}

/// What a reader's stream does after a connect or batch handler ran: it
/// goes on after success and closes after a failure.
pub fn after_handler(succeeded: bool) -> (r: StreamAction)
    ensures
        succeeded ==> r == StreamAction::Continue,
        !succeeded ==> r == StreamAction::Stop,
{
    if succeeded {
        StreamAction::Continue
    } else {
        StreamAction::Stop
    }
}

/// A batch ends with the error of its first failing envelope, whatever
/// comes after it, and records no heartbeat; a batch with no failing
/// envelope records one heartbeat for each distinct target address.
pub proof fn lemma_batch_stops_at_first_failure(
    outcomes: Seq<Result<Pid, EndpointReaderError>>,
    first: int,
)
    requires
        0 <= first < outcomes.len(),
        outcomes[first] is Err,
        forall|i: int| 0 <= i < first ==> outcomes[i] is Ok,
    ensures
        batch_outcome(outcomes) == Err::<Set<Seq<char>>, EndpointReaderError>(
            outcomes[first]->Err_0,
        ),
    decreases first,
{
    if first > 0 {
        lemma_batch_stops_at_first_failure(outcomes.drop_first(), first - 1);
    }
}

/// A batch with no failing envelope records a heartbeat for exactly the
/// addresses of its targets.
pub proof fn lemma_batch_all_delivered(outcomes: Seq<Result<Pid, EndpointReaderError>>)
    requires
        forall|i: int| 0 <= i < outcomes.len() ==> outcomes[i] is Ok,
    ensures
        batch_outcome(outcomes) is Ok,
        forall|a: Seq<char>|
            batch_outcome(outcomes)->Ok_0.contains(a) <==> exists|i: int|
                0 <= i < outcomes.len() && (#[trigger] outcomes[i])->Ok_0.address@ == a,
    decreases outcomes.len(),
{
    if outcomes.len() > 0 {
        let rest = outcomes.drop_first();
        lemma_batch_all_delivered(rest);
        assert forall|a: Seq<char>|
            batch_outcome(outcomes)->Ok_0.contains(a) <==> exists|i: int|
                0 <= i < outcomes.len() && (#[trigger] outcomes[i])->Ok_0.address@ == a by {
            if batch_outcome(rest)->Ok_0.contains(a) {
                let j = choose|j: int| 0 <= j < rest.len() && (#[trigger] rest[j])->Ok_0.address@ == a;
                assert(outcomes[j + 1] == rest[j]);
            }
            if exists|i: int| 0 <= i < outcomes.len() && (#[trigger] outcomes[i])->Ok_0.address@ == a {
                let i = choose|i: int| 0 <= i < outcomes.len() && (#[trigger] outcomes[i])->Ok_0.address@ == a;
                if i > 0 {
                    assert(rest[i - 1] == outcomes[i]);
                }
            }
        }
    }
}

} // verus!
