use nexus_actor::remote::response_status::{
    ActorPidResponse, ActorPidResponseExt, ResponseError, ResponseStatusCode,
};

#[test]
fn ensure_ok_accepts_ok() {
    assert!(ResponseStatusCode::Success.ensure_ok().is_ok());
}

#[test]
fn ensure_ok_converts_error() {
    let err = ResponseStatusCode::Timeout.ensure_ok().unwrap_err();
    assert_eq!(err.code(), ResponseStatusCode::Timeout);
    assert!(err.is_retryable());
}

#[test]
fn actor_pid_response_ext_maps_status() {
    let response = ActorPidResponse {
        pid: None,
        status_code: ResponseStatusCode::DeadLetter.to_i32(),
    };
    assert_eq!(response.status_code_enum(), ResponseStatusCode::DeadLetter);
    assert_eq!(response.status_error(), Some(ResponseError::dead_letter()));
}

#[test]
fn status_codes_round_trip_through_wire_values() {
    let codes = [
        ResponseStatusCode::Success,
        ResponseStatusCode::Unavailable,
        ResponseStatusCode::Timeout,
        ResponseStatusCode::ProcessNameAlreadyExists,
        ResponseStatusCode::Error,
        ResponseStatusCode::DeadLetter,
        ResponseStatusCode::Max,
    ];
    for (i, code) in codes.iter().enumerate() {
        assert_eq!(code.to_i32(), i as i32);
        assert_eq!(ResponseStatusCode::from_i32(i as i32), Some(*code));
    }
    assert_eq!(ResponseStatusCode::from_i32(7), None);
    assert_eq!(ResponseStatusCode::from_i32(-1), None);
}

#[test]
fn unknown_wire_status_reads_as_error() {
    let response = ActorPidResponse { pid: None, status_code: 42 };
    assert_eq!(response.status_code_enum(), ResponseStatusCode::Error);
    assert_eq!(response.status_error(), Some(ResponseError::unknown()));
}

#[test]
fn max_status_maps_to_generic_error() {
    assert_eq!(
        ResponseStatusCode::Max.as_error(),
        Some(ResponseError::new(ResponseStatusCode::Error))
    );
    assert_eq!(ResponseStatusCode::Success.as_error(), None);
}

#[test]
fn response_error_constants_and_retry_rules() {
    assert_eq!(ResponseError::timeout().code(), ResponseStatusCode::Timeout);
    assert_eq!(ResponseError::unavailable().code(), ResponseStatusCode::Unavailable);
    assert_eq!(
        ResponseError::process_name_already_exists().code(),
        ResponseStatusCode::ProcessNameAlreadyExists
    );
    assert!(ResponseError::unavailable().is_retryable());
    assert!(!ResponseError::dead_letter().is_retryable());
    assert!(!ResponseError::unknown().is_retryable());
    assert_eq!(ResponseError::dead_letter().message(), "DeadLetter");
    assert_eq!(ResponseStatusCode::Success.name(), "Ok");
}
