use vstd::prelude::*;

use crate::error::{ClientError, ConnectorError, ErrorResponse};

verus! {

/// How a response is read: as the operation's result, or as a failure
/// reported by the connector.
#[derive(Clone, Copy, Debug, PartialEq, Eq, Structural)]
pub enum ResponseClass {
    Success,
    ConnectorFailure,
}

/// A status of the client error range.
pub open spec fn is_client_error(status: u16) -> bool {
    400 <= status && status <= 499
}

/// A status of the server error range.
pub open spec fn is_server_error(status: u16) -> bool {
    500 <= status && status <= 599
}

/// Only client and server errors are failures; every other status,
/// informational and redirection ones included, is a success.
pub open spec fn class_of(status: u16) -> ResponseClass {
    if is_client_error(status) || is_server_error(status) {
        ResponseClass::ConnectorFailure
    } else {
        ResponseClass::Success
    }
}

/// Decides from the status alone how the body of a response is read.
pub fn classify_status(status: u16) -> (r: ResponseClass)
    ensures
        r == class_of(status),
{
    if (400 <= status && status <= 499) || (500 <= status && status <= 599) {
        ResponseClass::ConnectorFailure
    } else {
        ResponseClass::Success
    }
}

pub open spec fn success_outcome_of<T>(decoded: Result<T, serde_json::Error>) -> Result<
    T,
    ClientError,
> {
    match decoded {
        Ok(value) => Ok(value),
        Err(e) => Err(ClientError::Serde(e)),
    }
}

pub open spec fn failure_outcome_of<T>(
    status: u16,
    decoded: Result<ErrorResponse, serde_json::Error>,
) -> Result<T, ClientError> {
    match decoded {
        Ok(error_response) => Err(
            ClientError::ConnectorError(ConnectorError { status, error_response }),
        ),
        Err(e) => Err(ClientError::Serde(e)),
    }
}

/// The outcome of a response whose status and body are given: the body read
/// as the result under a success status, as an error envelope otherwise.
pub open spec fn response_outcome<T>(
    status: u16,
    as_result: Result<T, serde_json::Error>,
    as_envelope: Result<ErrorResponse, serde_json::Error>,
) -> Result<T, ClientError> {
    match class_of(status) {
        ResponseClass::Success => success_outcome_of(as_result),
        ResponseClass::ConnectorFailure => failure_outcome_of(status, as_envelope),
    }
}

/// The outcome of a success response, from its body decoded as the
/// operation's result; a body of another shape is a decode failure.
pub fn success_outcome<T>(decoded: Result<T, serde_json::Error>) -> (r: Result<T, ClientError>)
    ensures
        r == success_outcome_of(decoded),
{
    match decoded {
        Ok(value) => Ok(value),
        Err(e) => Err(ClientError::Serde(e)),
    }
}

/// The outcome of a failure response, from its status and its body decoded
/// as an error envelope; a body of another shape is a decode failure.
pub fn failure_outcome<T>(status: u16, decoded: Result<ErrorResponse, serde_json::Error>) -> (r:
    Result<T, ClientError>)
    ensures
        r == failure_outcome_of::<T>(status, decoded),
{
    match decoded {
        Ok(error_response) => Err(
            ClientError::ConnectorError(ConnectorError { status, error_response }),
        ),
        Err(e) => Err(ClientError::Serde(e)),
    }
}

/// Every status from 100 to 599 is either a success or a connector
/// failure, and it is a failure exactly when it lies from 400 to 599.
pub proof fn lemma_classification_total(status: u16)
    requires
        100 <= status <= 599,
    ensures
        (class_of(status) == ResponseClass::Success) != (class_of(status)
            == ResponseClass::ConnectorFailure),
        class_of(status) == ResponseClass::ConnectorFailure <==> 400 <= status <= 599,
{
}

/// Whether a failure happened before a status and a well-formed body were
/// both had: a transport, decode or endpoint failure.
pub open spec fn is_transport_or_decode_failure<T>(r: Result<T, ClientError>) -> bool {
    match r {
        Ok(_) => false,
        Err(ClientError::ConnectorError(_)) => false,
        Err(_) => true,
    }
}

/// A response gives exactly one of a result, a connector failure or a
/// decode failure; a result only under a success status, and a connector
/// failure, carrying the status, only under a failure status.
pub proof fn lemma_outcome_exclusive<T>(
    status: u16,
    as_result: Result<T, serde_json::Error>,
    as_envelope: Result<ErrorResponse, serde_json::Error>,
)
    ensures
        ({
            let r = response_outcome(status, as_result, as_envelope);
            &&& (r is Ok) as int + (r matches Err(ClientError::ConnectorError(_))) as int
                + is_transport_or_decode_failure(r) as int == 1
            &&& r is Ok ==> class_of(status) == ResponseClass::Success
            &&& r matches Err(ClientError::ConnectorError(c)) ==> c.status == status
                && class_of(status) == ResponseClass::ConnectorFailure
        }),
{
}

/// Reads a response whose status and JSON body are given: the status alone
/// decides whether the body is decoded, by `decode_result`, as the
/// operation's result, or, by `decode_envelope`, as an error envelope. Only
/// the decoder that the status selects is called, and whatever it returns,
/// the call gives exactly one of a result, a connector failure or a decode
/// failure.
pub fn read_response<T, F, G>(
    status: u16,
    body: serde_json::Value,
    decode_result: F,
    decode_envelope: G,
) -> (r: Result<T, ClientError>) where
    F: FnOnce(serde_json::Value) -> Result<T, serde_json::Error>,
    G: FnOnce(serde_json::Value) -> Result<ErrorResponse, serde_json::Error>,

    requires
        class_of(status) == ResponseClass::Success ==> decode_result.requires((body,)),
        class_of(status) == ResponseClass::ConnectorFailure ==> decode_envelope.requires((body,)),
    ensures
        class_of(status) == ResponseClass::Success ==> exists|decoded: Result<
            T,
            serde_json::Error,
        >|
            #[trigger] decode_result.ensures((body,), decoded) && r == success_outcome_of(
                decoded,
            ),
        class_of(status) == ResponseClass::ConnectorFailure ==> exists|
            decoded: Result<ErrorResponse, serde_json::Error>,
        |
            #[trigger] decode_envelope.ensures((body,), decoded) && r == failure_outcome_of::<T>(
                status,
                decoded,
            ),
        (r is Ok) as int + (r matches Err(ClientError::ConnectorError(_))) as int
            + is_transport_or_decode_failure(r) as int == 1,
        r is Ok ==> class_of(status) == ResponseClass::Success,
        r matches Err(ClientError::ConnectorError(c)) ==> c.status == status && class_of(status)
            == ResponseClass::ConnectorFailure,
{
    match classify_status(status) {
        ResponseClass::Success => {
            let decoded = decode_result(body);
            success_outcome(decoded)
        },
        ResponseClass::ConnectorFailure => {
            let decoded = decode_envelope(body);
            failure_outcome(status, decoded)
        },
    }
}

} // verus!
