use ndc_client::error::{log_in_current_span, ClientError, ErrorResponse, SpanStatus, Tracing};
use ndc_client::error::ConnectorURLError;
use ndc_client::response::{
    classify_status, failure_outcome, read_response, success_outcome, ResponseClass,
};

#[test]
fn informational_redirect_and_ok_are_success() {
    for s in [100u16, 101, 200, 204, 299, 301, 399] {
        assert_eq!(classify_status(s), ResponseClass::Success);
    }
}

#[test]
fn client_and_server_errors_are_failures() {
    for s in [400u16, 404, 499, 500, 503, 599] {
        assert_eq!(classify_status(s), ResponseClass::ConnectorFailure);
    }
}

#[test]
fn statuses_outside_error_ranges_are_success() {
    assert_eq!(classify_status(600), ResponseClass::Success);
    assert_eq!(classify_status(0), ResponseClass::Success);
}

#[test]
fn success_body_is_returned() {
    let r: Result<u32, ClientError> = success_outcome(Ok(7));
    assert!(matches!(r, Ok(7)));
}

#[test]
fn success_body_of_wrong_shape_is_decode_error() {
    let decoded = serde_json::from_str::<u32>("\"x\"");
    let r = success_outcome(decoded);
    assert!(matches!(r, Err(ClientError::Serde(_))));
}

#[test]
fn failure_envelope_becomes_connector_error() {
    let envelope = ErrorResponse { message: "bad".to_string(), details: serde_json::Value::Null };
    let r: Result<u32, ClientError> = failure_outcome(422, Ok(envelope));
    match r {
        Err(ClientError::ConnectorError(c)) => {
            assert_eq!(c.status, 422);
            assert_eq!(c.error_response.message, "bad");
        }
        _ => panic!("expected a connector error"),
    }
}

#[test]
fn failure_envelope_of_wrong_shape_is_decode_error() {
    let decoded = serde_json::from_str::<u32>("{}").map(|_| ErrorResponse {
        message: String::new(),
        details: serde_json::Value::Null,
    });
    let r: Result<u32, ClientError> = failure_outcome(500, decoded);
    assert!(matches!(r, Err(ClientError::Serde(_))));
}

#[test]
fn traced_errors_pass_through_unchanged() {
    let envelope = ErrorResponse { message: "m".to_string(), details: serde_json::Value::Null };
    let r: Result<u32, ClientError> = failure_outcome(404, Ok(envelope));
    let mut span = SpanStatus::new();
    match r.with_traced_errors(&mut span) {
        Err(ClientError::ConnectorError(c)) => {
            assert_eq!(c.status, 404);
            assert_eq!(c.error_response.message, "m");
        }
        _ => panic!("expected the same connector error"),
    }
    assert_eq!(span.error.as_deref(), Some("m"));
    let mut untouched = SpanStatus::new();
    let ok: Result<u32, ClientError> = Ok(3);
    assert!(matches!(ok.with_traced_errors(&mut untouched), Ok(3)));
    assert!(untouched.error.is_none());
}

#[test]
fn connector_error_description_is_its_message() {
    let e = ClientError::ConnectorError(ndc_client::error::ConnectorError {
        status: 400,
        error_response: ErrorResponse { message: "oops".to_string(), details: serde_json::Value::Null },
    });
    assert_eq!(e.describe(), "oops");
}

fn envelope_of(v: serde_json::Value) -> Result<ErrorResponse, serde_json::Error> {
    let message: String = serde_json::from_value(v["message"].clone())?;
    Ok(ErrorResponse { message, details: v["details"].clone() })
}

#[test]
fn read_response_decodes_success_body_as_result() {
    let body = serde_json::Value::from(5u32);
    let r: Result<u32, ClientError> =
        read_response(200, body, |v| serde_json::from_value(v), |_| panic!("envelope decoder called"));
    assert!(matches!(r, Ok(5)));
}

#[test]
fn read_response_decodes_failure_body_as_envelope() {
    let mut object = serde_json::Map::new();
    object.insert("message".to_string(), serde_json::Value::from("nope"));
    object.insert("details".to_string(), serde_json::Value::Null);
    let body = serde_json::Value::Object(object);
    let r: Result<u32, ClientError> =
        read_response(503, body, |_| panic!("result decoder called"), envelope_of);
    match r {
        Err(ClientError::ConnectorError(c)) => {
            assert_eq!(c.status, 503);
            assert_eq!(c.error_response.message, "nope");
        }
        _ => panic!("expected a connector error"),
    }
}

#[test]
fn read_response_with_malformed_envelope_is_decode_error() {
    let body = serde_json::Value::from(1u32);
    let r: Result<u32, ClientError> =
        read_response(400, body, |_| panic!("result decoder called"), envelope_of);
    assert!(matches!(r, Err(ClientError::Serde(_))));
}

#[test]
fn cannot_be_a_base_description_is_fixed() {
    let e = ClientError::ConnectorURLError(ConnectorURLError::URLCannotBeABase());
    assert_eq!(e.describe(), "the base URL cannot have a path appended");
}

#[test]
fn logging_records_description_on_span() {
    let mut span = SpanStatus::new();
    let e = ClientError::ConnectorURLError(ConnectorURLError::URLCannotBeABase());
    log_in_current_span(&mut span, &e);
    assert_eq!(span.error.as_deref(), Some("the base URL cannot have a path appended"));
}
