use vstd::prelude::*;

verus! {

/// Why a future did not complete with a reply.
#[derive(Debug, Clone, Copy, PartialEq, Eq, Structural)]
pub enum ActorFutureError {
    /// No reply came in time.
    TimeoutError,
    /// The request went to a dead letter.
    DeadLetterError,
}

impl ActorFutureError {
    /// The text of the error.
    pub fn message(self) -> (r: &'static str)
        ensures
            self == ActorFutureError::TimeoutError ==> r@ == "future: timeout"@,
            self == ActorFutureError::DeadLetterError ==> r@ == "future: dead letter"@,
    {
        match self {
            ActorFutureError::TimeoutError => "future: timeout",
            ActorFutureError::DeadLetterError => "future: dead letter",
        }
    }
}

/// What a future does with a reply: a dead-letter response fails it, any
/// other reply completes it.
#[derive(Debug, Clone, Copy, PartialEq, Eq, Structural)]
pub enum FutureResolution {
    Complete,
    Fail(ActorFutureError),
}

/// The resolution of a user reply, given whether it is a dead-letter response.
pub fn resolve_user_reply(is_dead_letter_response: bool) -> (r: FutureResolution)
    ensures
        is_dead_letter_response ==> r == FutureResolution::Fail(ActorFutureError::DeadLetterError),
        !is_dead_letter_response ==> r == FutureResolution::Complete,
{
    if is_dead_letter_response {
        FutureResolution::Fail(ActorFutureError::DeadLetterError)
    } else {
        FutureResolution::Complete
    }
}

/// The resolution of a system reply: always completion.
pub fn resolve_system_reply() -> (r: FutureResolution)
    ensures
        r == FutureResolution::Complete,
{
    FutureResolution::Complete
}

/// Whether a future with a timeout of `timeout_ns` nanoseconds schedules
/// its timeout: only a positive timeout does, however short.
pub fn schedules_timeout(timeout_ns: u128) -> (r: bool)
    ensures
        r == (timeout_ns > 0),
{
    timeout_ns > 0
}

/// The name a future's process is registered under: `future_` and its id.
pub open spec fn future_process_name(id: u64) -> Seq<char> {
    "future_"@ + crate::utils::text::decimal_digits(id as nat)
}

/// The registered name of the future process with `id`.
pub fn future_process_id(id: u64) -> (r: String)
    ensures
        r@ == future_process_name(id),
{
    proof {
        reveal_strlit("future_");
    }
    let digits = crate::utils::text::u64_to_decimal(id);
    String::from_str("future_").concat(digits.as_str())
}

/// How a settled future is reported: the outcome label, the error label
/// if it failed, and whether it counts as completed (else as timed out).
#[derive(Debug, Clone, Copy, PartialEq, Eq)]
pub struct FutureOutcome {
    pub outcome: &'static str,
    pub error: Option<&'static str>,
    pub completed: bool,
}

/// The report of a future that settled with `error`, as labels and kind.
pub open spec fn future_outcome_spec(error: Option<ActorFutureError>) -> FutureOutcome {
    match error {
        None => FutureOutcome { outcome: "completed", error: None, completed: true },
        Some(ActorFutureError::TimeoutError) => FutureOutcome {
            outcome: "timeout",
            error: Some("timeout"),
            completed: false,
        },
        Some(ActorFutureError::DeadLetterError) => FutureOutcome {
            outcome: "dead_letter",
            error: Some("dead_letter"),
            completed: false,
        },
    }
}

/// The report of a future that settled with `error`.
pub fn future_outcome(error: Option<ActorFutureError>) -> (r: FutureOutcome)
    ensures
        r == future_outcome_spec(error),
        error is None ==> r.outcome@ == "completed"@ && r.error is None && r.completed,
        error == Some(ActorFutureError::TimeoutError) ==> r.outcome@ == "timeout"@ && r.error
            is Some && r.error->0@ == "timeout"@ && !r.completed,
        error == Some(ActorFutureError::DeadLetterError) ==> r.outcome@ == "dead_letter"@
            && r.error is Some && r.error->0@ == "dead_letter"@ && !r.completed,
{
    match error {
        None => FutureOutcome { outcome: "completed", error: None, completed: true },
        Some(ActorFutureError::TimeoutError) => FutureOutcome {
            outcome: "timeout",
            error: Some("timeout"),
            completed: false,
        },
        Some(ActorFutureError::DeadLetterError) => FutureOutcome {
            outcome: "dead_letter",
            error: Some("dead_letter"),
            completed: false,
        },
    }
}

/// How far a future has come: waiting, completed with a reply, or failed.
#[derive(Debug)]
pub enum FutureStatus<M> {
    Pending,
    Completed(M),
    Failed(ActorFutureError),
}

/// The error a future in `status` holds, if it failed.
pub open spec fn status_error<M>(status: FutureStatus<M>) -> Option<ActorFutureError> {
    match status {
        FutureStatus::Failed(e) => Some(e),
        _ => None,
    }
}

/// The state of a future process: its status and the processes its outcome
/// is piped to.
#[derive(Debug)]
pub struct ActorFutureState<M, P> {
    status: FutureStatus<M>,
    pipes: Vec<P>,
}

impl<M, P> ActorFutureState<M, P> {
    /// The status.
    pub closed spec fn spec_status(&self) -> FutureStatus<M> {
        self.status
    }

    /// The processes the outcome is piped to, in the order they were added.
    pub closed spec fn spec_pipes(&self) -> Seq<P> {
        self.pipes@
    }

    /// A future waiting for its reply, piped nowhere.
    pub fn new() -> (r: Self)
        ensures
            r.spec_status() is Pending,
            r.spec_pipes() == Seq::<P>::empty(),
    {
        ActorFutureState { status: FutureStatus::Pending, pipes: Vec::new() }
    }

    /// Pipe the outcome to `pid` as well.
    pub fn pipe_to(&mut self, pid: P)
        ensures
            final(self).spec_status() == old(self).spec_status(),
            final(self).spec_pipes() == old(self).spec_pipes().push(pid),
    {
        self.pipes.push(pid);
    }

    /// Complete the future with `result`.
    pub fn complete(&mut self, result: M)
        ensures
            final(self).spec_status() == FutureStatus::Completed(result),
            final(self).spec_pipes() == old(self).spec_pipes(),
    {
        self.status = FutureStatus::Completed(result);
    }

    /// Fail the future with `error`.
    pub fn fail(&mut self, error: ActorFutureError)
        ensures
            final(self).spec_status() == FutureStatus::<M>::Failed(error),
            final(self).spec_pipes() == old(self).spec_pipes(),
    {
        self.status = FutureStatus::Failed(error);
    }

    /// Whether the future is still waiting.
    pub fn is_empty(&self) -> (r: bool)
        ensures
            r == self.spec_status() is Pending,
    {
        match self.status {
            FutureStatus::Pending => true,
            _ => false,
        }
    }

    /// The outcome: `None` while waiting, else the reply or the error.
    pub fn result(&self) -> (r: Option<Result<&M, ActorFutureError>>)
        ensures
            self.spec_status() is Pending ==> r is None,
            self.spec_status() matches FutureStatus::Completed(m) ==> r == Some(
                Ok::<&M, ActorFutureError>(&m),
            ),
            self.spec_status() matches FutureStatus::Failed(e) ==> r == Some(
                Err::<&M, ActorFutureError>(e),
            ),
    {
        match &self.status {
            FutureStatus::Pending => None,
            FutureStatus::Completed(m) => Some(Ok(m)),
            FutureStatus::Failed(e) => Some(Err(*e)),
        }
    }

    /// The timeout went off: the future fails with `TimeoutError`, and every
    /// process it was piped to is returned, to be sent `TimeoutError`; the
    /// pipes are cleared.
    pub fn handle_timeout(&mut self) -> (notify: Vec<P>)
        ensures
            final(self).spec_status() == FutureStatus::<M>::Failed(ActorFutureError::TimeoutError),
            notify@ == old(self).spec_pipes(),
            final(self).spec_pipes() == Seq::<P>::empty(),
    {
        self.fail(ActorFutureError::TimeoutError);
        let mut notify: Vec<P> = Vec::new();
        std::mem::swap(&mut notify, &mut self.pipes);
        notify
    }

    /// A user reply came in: a dead-letter response fails the future with
    /// `DeadLetterError`; any other reply completes it.  Returns how the
    /// settled future is reported.
    pub fn handle_user_reply(&mut self, reply: M, is_dead_letter_response: bool) -> (r: FutureOutcome)
        ensures
            is_dead_letter_response ==> final(self).spec_status() == FutureStatus::<M>::Failed(
                ActorFutureError::DeadLetterError,
            ),
            !is_dead_letter_response ==> final(self).spec_status() == FutureStatus::Completed(reply),
            final(self).spec_pipes() == old(self).spec_pipes(),
            r == future_outcome_spec(status_error(final(self).spec_status())),
    {
        match resolve_user_reply(is_dead_letter_response) {
            FutureResolution::Fail(e) => self.fail(e),
            FutureResolution::Complete => self.complete(reply),
        }
        self.outcome()
    }

    /// A system reply came in: it completes the future.  Returns how the
    /// settled future is reported.
    pub fn handle_system_reply(&mut self, reply: M) -> (r: FutureOutcome)
        ensures
            final(self).spec_status() == FutureStatus::Completed(reply),
            final(self).spec_pipes() == old(self).spec_pipes(),
            r == future_outcome_spec(None),
    {
        self.complete(reply);
        self.outcome()
    }

    /// How the future is reported, by the error it holds.
    pub fn outcome(&self) -> (r: FutureOutcome)
        ensures
            r == future_outcome_spec(status_error(self.spec_status())),
    {
        match &self.status {
            FutureStatus::Failed(e) => future_outcome(Some(*e)),
            _ => future_outcome(None),
        }
    }
}

} // verus!
