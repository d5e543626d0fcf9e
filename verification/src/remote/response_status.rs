use vstd::prelude::*;

use crate::remote::wire::Pid;

verus! {

/// The status carried by an answer to a remote activation request.
#[derive(Debug, Clone, Copy, PartialEq, Eq, Structural)]
pub enum ResponseStatusCode {
    Success,
    Unavailable,
    Timeout,
    ProcessNameAlreadyExists,
    Error,
    DeadLetter,
    Max,
}

/// The wire value of each status code.
pub open spec fn status_code_value(c: ResponseStatusCode) -> i32 {
    match c {
        ResponseStatusCode::Success => 0,
        ResponseStatusCode::Unavailable => 1,
        ResponseStatusCode::Timeout => 2,
        ResponseStatusCode::ProcessNameAlreadyExists => 3,
        ResponseStatusCode::Error => 4,
        ResponseStatusCode::DeadLetter => 5,
        ResponseStatusCode::Max => 6,
    }
}

/// The status code whose wire value is `v`, for `0 <= v <= 6`.
pub open spec fn status_code_of(v: i32) -> Option<ResponseStatusCode> {
    if v == 0 {
        Some(ResponseStatusCode::Success)
    } else if v == 1 {
        Some(ResponseStatusCode::Unavailable)
    } else if v == 2 {
        Some(ResponseStatusCode::Timeout)
    } else if v == 3 {
        Some(ResponseStatusCode::ProcessNameAlreadyExists)
    } else if v == 4 {
        Some(ResponseStatusCode::Error)
    } else if v == 5 {
        Some(ResponseStatusCode::DeadLetter)
    } else if v == 6 {
        Some(ResponseStatusCode::Max)
    } else {
        None
    }
}

/// The error that a status code stands for; `Success` stands for none, and
/// `Error` and `Max` both stand for an unknown error.
pub open spec fn error_of(c: ResponseStatusCode) -> Option<ResponseError> {
    match c {
        ResponseStatusCode::Success => None,
        ResponseStatusCode::Max => Some(ResponseError { code: ResponseStatusCode::Error }),
        _ => Some(ResponseError { code: c }),
    }
}

impl ResponseStatusCode {
    /// The wire value.
    pub fn to_i32(self) -> (r: i32)
        ensures
            r == status_code_value(self),
    {
        match self {
            ResponseStatusCode::Success => 0,
            ResponseStatusCode::Unavailable => 1,
            ResponseStatusCode::Timeout => 2,
            ResponseStatusCode::ProcessNameAlreadyExists => 3,
            ResponseStatusCode::Error => 4,
            ResponseStatusCode::DeadLetter => 5,
            ResponseStatusCode::Max => 6,
        }
    }

    /// The status code with wire value `value`, or `None` for a value outside 0..=6.
    pub fn from_i32(value: i32) -> (r: Option<Self>)
        ensures
            r == status_code_of(value),
            r is Some <==> 0 <= value <= 6,
            r is Some ==> status_code_value(r->0) == value,
    {
        match value {
            0 => Some(ResponseStatusCode::Success),
            1 => Some(ResponseStatusCode::Unavailable),
            2 => Some(ResponseStatusCode::Timeout),
            3 => Some(ResponseStatusCode::ProcessNameAlreadyExists),
            4 => Some(ResponseStatusCode::Error),
            5 => Some(ResponseStatusCode::DeadLetter),
            6 => Some(ResponseStatusCode::Max),
            _ => None,
        }
    }

    /// `Ok(())` for `Success`, otherwise the error the code stands for.
    pub fn ensure_ok(self) -> (r: Result<(), ResponseError>)
        ensures
            self == ResponseStatusCode::Success ==> r is Ok,
            self != ResponseStatusCode::Success ==> r == Err::<(), ResponseError>(error_of(self)->0),
    {
        match self.as_error() {
            None => Ok(()),
            Some(err) => Err(err),
        }
    }

    /// The error the code stands for, `None` for `Success`.
    pub fn as_error(self) -> (r: Option<ResponseError>)
        ensures
            r == error_of(self),
    {
        match self {
            ResponseStatusCode::Success => None,
            ResponseStatusCode::Unavailable => Some(ResponseError::new(ResponseStatusCode::Unavailable)),
            ResponseStatusCode::Timeout => Some(ResponseError::new(ResponseStatusCode::Timeout)),
            ResponseStatusCode::ProcessNameAlreadyExists => Some(
                ResponseError::new(ResponseStatusCode::ProcessNameAlreadyExists),
            ),
            ResponseStatusCode::Error => Some(ResponseError::new(ResponseStatusCode::Error)),
            ResponseStatusCode::DeadLetter => Some(ResponseError::new(ResponseStatusCode::DeadLetter)),
            ResponseStatusCode::Max => Some(ResponseError::new(ResponseStatusCode::Error)),
        }
    }

    /// The name of the code, as an error message shows it; the success code
    /// shows as `Ok`.
    pub fn name(self) -> (r: &'static str)
        ensures
            self == ResponseStatusCode::Success ==> r@ == "Ok"@,
            self == ResponseStatusCode::Unavailable ==> r@ == "Unavailable"@,
            self == ResponseStatusCode::Timeout ==> r@ == "Timeout"@,
            self == ResponseStatusCode::ProcessNameAlreadyExists ==> r@
                == "ProcessNameAlreadyExists"@,
            self == ResponseStatusCode::Error ==> r@ == "Error"@,
            self == ResponseStatusCode::DeadLetter ==> r@ == "DeadLetter"@,
            self == ResponseStatusCode::Max ==> r@ == "Max"@,
    {
        match self {
            ResponseStatusCode::Success => "Ok",
            ResponseStatusCode::Unavailable => "Unavailable",
            ResponseStatusCode::Timeout => "Timeout",
            ResponseStatusCode::ProcessNameAlreadyExists => "ProcessNameAlreadyExists",
            ResponseStatusCode::Error => "Error",
            ResponseStatusCode::DeadLetter => "DeadLetter",
            ResponseStatusCode::Max => "Max",
        }
    }
}

/// A failed response, identified by its status code.
#[derive(Debug, Clone, Copy, PartialEq, Eq, Structural)]
pub struct ResponseError {
    pub code: ResponseStatusCode,
}

impl ResponseError {
    /// The error for a message that reached a dead letter.
    pub fn dead_letter() -> (r: ResponseError)
        ensures
            r.code == ResponseStatusCode::DeadLetter,
    {
        ResponseError { code: ResponseStatusCode::DeadLetter }
    }

    /// The error for a name that is taken already.
    pub fn process_name_already_exists() -> (r: ResponseError)
        ensures
            r.code == ResponseStatusCode::ProcessNameAlreadyExists,
    {
        ResponseError { code: ResponseStatusCode::ProcessNameAlreadyExists }
    }

    /// The error for a request that timed out.
    pub fn timeout() -> (r: ResponseError)
        ensures
            r.code == ResponseStatusCode::Timeout,
    {
        ResponseError { code: ResponseStatusCode::Timeout }
    }

    /// The error for an unavailable peer.
    pub fn unavailable() -> (r: ResponseError)
        ensures
            r.code == ResponseStatusCode::Unavailable,
    {
        ResponseError { code: ResponseStatusCode::Unavailable }
    }

    /// The error for any other failure.
    pub fn unknown() -> (r: ResponseError)
        ensures
            r.code == ResponseStatusCode::Error,
    {
        ResponseError { code: ResponseStatusCode::Error }
    }

    /// The error with the given code.
    pub fn new(code: ResponseStatusCode) -> (r: Self)
        ensures
            r.code == code,
    {
        ResponseError { code }
    }

    /// The status code.
    pub fn code(self) -> (r: ResponseStatusCode)
        ensures
            r == self.code,
    {
        self.code
    }

    /// Whether retrying may succeed: only for `Unavailable` and `Timeout`.
    pub fn is_retryable(self) -> (r: bool)
        ensures
            r == (self.code == ResponseStatusCode::Unavailable || self.code
                == ResponseStatusCode::Timeout),
    {
        match self.code {
            ResponseStatusCode::Unavailable | ResponseStatusCode::Timeout => true,
            _ => false,
        }
    }

    /// The error message: the name of the status code.
    pub fn message(self) -> (r: &'static str)
        ensures
            self.code == ResponseStatusCode::Timeout ==> r@ == "Timeout"@,
            self.code == ResponseStatusCode::DeadLetter ==> r@ == "DeadLetter"@,
            self.code == ResponseStatusCode::Unavailable ==> r@ == "Unavailable"@,
            self.code == ResponseStatusCode::ProcessNameAlreadyExists ==> r@
                == "ProcessNameAlreadyExists"@,
            self.code == ResponseStatusCode::Error ==> r@ == "Error"@,
            self.code == ResponseStatusCode::Success ==> r@ == "Ok"@,
            self.code == ResponseStatusCode::Max ==> r@ == "Max"@,
    {
        self.code.name()
    }
}

/// The answer to a remote activation request.
#[derive(Debug, Clone, PartialEq, Eq, Default)]
pub struct ActorPidResponse {
    pub pid: Option<Pid>,
    pub status_code: i32,
}

/// Status decoding for activation answers.
pub trait ActorPidResponseExt {
    /// The status code carried by the answer.
    fn status_code_enum(&self) -> ResponseStatusCode;

    /// The error carried by the answer, if any.
    fn status_error(&self) -> Option<ResponseError>;
}

/// The status code of an answer whose wire status is `v`: an unknown wire
/// value reads as `Error`.
pub open spec fn status_code_or_error(v: i32) -> ResponseStatusCode {
    match status_code_of(v) {
        Some(c) => c,
        None => ResponseStatusCode::Error,
    }
}

impl ActorPidResponseExt for ActorPidResponse {
    fn status_code_enum(&self) -> (r: ResponseStatusCode)
        ensures
            r == status_code_or_error(self.status_code),
    {
        match ResponseStatusCode::from_i32(self.status_code) {
            Some(c) => c,
            None => ResponseStatusCode::Error,
        }
    }

    fn status_error(&self) -> (r: Option<ResponseError>)
        ensures
            r == error_of(status_code_or_error(self.status_code)),
    {
        self.status_code_enum().as_error()
    }
}

/// Decoding the wire value of a status code gives that code back.
pub proof fn lemma_status_code_round_trip(c: ResponseStatusCode)
    ensures
        status_code_of(status_code_value(c)) == Some(c),
{
}

/// Every status code but `Success` stands for an error, and the error keeps the
/// code, except that `Max` stands for an unknown error.
pub proof fn lemma_error_keeps_code(c: ResponseStatusCode)
    ensures
        (error_of(c) is None) <==> c == ResponseStatusCode::Success,
        c != ResponseStatusCode::Success && c != ResponseStatusCode::Max ==> error_of(c)->0.code == c,
        c == ResponseStatusCode::Max ==> error_of(c)->0.code == ResponseStatusCode::Error,
{
}

} // verus!
