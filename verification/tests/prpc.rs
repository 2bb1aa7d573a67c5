use pastureen::prpc::error::{PRPCError, PRPCErrorType};
use pastureen::prpc::messages;
use pastureen::prpc::request_response::{PRPCRequest, PRPCResponse};

#[test]
fn test_result_to_response() {
    let result: Result<i32, PRPCError> = Ok(1);
    let response: PRPCResponse<i32> = result.into();
    assert_eq!(response.result, Some(1));
}

#[test]
fn error_to_response() {
    let result: Result<i32, PRPCError> = Err(PRPCError {
        kind: PRPCErrorType::NotFound,
        message: "nothing here".to_string(),
    });
    let response: PRPCResponse<i32> = result.into();
    assert_eq!(response.result, None);
    let err = response.error.unwrap();
    assert_eq!(err.kind, PRPCErrorType::NotFound);
    assert_eq!(err.message, "nothing here");
}

#[test]
fn error_to_wire_message() {
    let err = PRPCError {
        kind: PRPCErrorType::Unauthenticated,
        message: "who are you".to_string(),
    };
    let response: messages::PRPCResponse<i32> = err.into();
    match response {
        messages::PRPCResponse::Error { code, message } => {
            assert_eq!(code, 16);
            assert_eq!(message, "who are you");
        }
        messages::PRPCResponse::Result(_) => panic!("expected the error answer"),
    }
}

#[test]
fn error_codes_are_fixed() {
    assert_eq!(PRPCErrorType::Cancelled.to_code(), 1);
    assert_eq!(PRPCErrorType::Unknown.to_code(), 2);
    assert_eq!(PRPCErrorType::InvalidArgument.to_code(), 3);
    assert_eq!(PRPCErrorType::DeadlineExceeded.to_code(), 4);
    assert_eq!(PRPCErrorType::NotFound.to_code(), 5);
    assert_eq!(PRPCErrorType::AlreadyExists.to_code(), 6);
    assert_eq!(PRPCErrorType::PermissionDenied.to_code(), 7);
    assert_eq!(PRPCErrorType::ResourceExhausted.to_code(), 8);
    assert_eq!(PRPCErrorType::FailedPrecondition.to_code(), 9);
    assert_eq!(PRPCErrorType::Aborted.to_code(), 10);
    assert_eq!(PRPCErrorType::OutOfRange.to_code(), 11);
    assert_eq!(PRPCErrorType::Unimplemented.to_code(), 12);
    assert_eq!(PRPCErrorType::Internal.to_code(), 13);
    assert_eq!(PRPCErrorType::Unavailable.to_code(), 14);
    assert_eq!(PRPCErrorType::DataLoss.to_code(), 15);
    assert_eq!(PRPCErrorType::Unauthenticated.to_code(), 16);
}

#[test]
fn codes_round_trip_and_unknowns_collapse() {
    for code in 1u8..=16 {
        let kind = PRPCErrorType::from_code(code);
        assert_eq!(kind.to_code(), code);
    }
    assert_eq!(PRPCErrorType::from_code(0), PRPCErrorType::Unknown);
    assert_eq!(PRPCErrorType::from_code(17), PRPCErrorType::Unknown);
}

#[test]
fn request_shapes_carry_their_fields() {
    let req = PRPCRequest {
        auth: Some("bearer".to_string()),
        command: "add".to_string(),
        params: 7u8,
    };
    assert_eq!(req.command, "add");
    let req2: messages::PRPCReqeust<u8> = messages::PRPCReqeust {
        auth: None,
        command: "add".to_string(),
        params: 7u8,
    };
    assert_eq!(req2.params, 7);
}
