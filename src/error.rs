use vstd::prelude::*;

verus! {

/// The URL parser's error, carried inside [`ConnectorURLError`].
#[verifier::external_type_specification]
#[verifier::external_body]
pub struct ExParseError(url::ParseError);

/// The HTTP transport's error, carried inside [`ClientError`].
#[verifier::external_type_specification]
#[verifier::external_body]
pub struct ExTransportError(reqwest::Error);

/// The JSON decoder's error, carried inside [`ClientError`].
#[verifier::external_type_specification]
#[verifier::external_body]
pub struct ExJsonError(serde_json::Error);

/// A JSON document, carried inside [`ErrorResponse`].
#[verifier::external_type_specification]
#[verifier::external_body]
pub struct ExJsonValue(serde_json::Value);

/// Why the endpoint of an operation could not be resolved from the base URL.
#[derive(Debug)]
pub enum ConnectorURLError {
    /// The base URL has no hierarchical path to extend.
    URLCannotBeABase(),
    /// Resolving the operation's path against the base failed.
    URLParseError(url::ParseError),
}

/// The structured body that a connector sends with a failure status.
#[derive(Debug)]
pub struct ErrorResponse {
    pub message: String,
    pub details: serde_json::Value,
}

/// A failure reported by the connector: the status it answered with and the
/// error envelope of its body.
#[derive(Debug)]
pub struct ConnectorError {
    pub status: u16,
    pub error_response: ErrorResponse,
}

/// Every way a call can fail.
#[derive(Debug)]
pub enum ClientError {
    /// The exchange itself failed: connection, TLS, timeout or cancellation.
    Reqwest(reqwest::Error),
    /// The body was not JSON, or did not have the expected shape.
    Serde(serde_json::Error),
    /// The connector answered with a client or server error status.
    ConnectorError(ConnectorError),
    /// The endpoint could not be resolved; no exchange took place.
    ConnectorURLError(ConnectorURLError),
}

/// Relies on `Display` of url's `ParseError`: a description of the error.
#[verifier::external_body]
fn parse_error_text(e: &url::ParseError) -> String {
    e.to_string()
}

/// Relies on `Display` of reqwest's `Error`: a description of the error.
#[verifier::external_body]
fn transport_error_text(e: &reqwest::Error) -> String {
    e.to_string()
}

/// Relies on `Display` of serde_json's `Error`: a description of the error.
#[verifier::external_body]
fn json_error_text(e: &serde_json::Error) -> String {
    e.to_string()
}

impl ClientError {
    /// A human-readable description of the failure.
    pub fn describe(&self) -> (r: String)
        ensures
            self matches ClientError::ConnectorError(c) ==> r@ == c.error_response.message@,
            self matches ClientError::ConnectorURLError(ConnectorURLError::URLCannotBeABase())
                ==> r@ == "the base URL cannot have a path appended"@,
    {
        match self {
            ClientError::Reqwest(e) => transport_error_text(e),
            ClientError::Serde(e) => json_error_text(e),
            ClientError::ConnectorError(c) => c.error_response.message.clone(),
            ClientError::ConnectorURLError(ConnectorURLError::URLParseError(e)) => parse_error_text(e),
            ClientError::ConnectorURLError(ConnectorURLError::URLCannotBeABase()) => {
                "the base URL cannot have a path appended".to_string()
            },
        }
    }
}

/// Relies on opentelemetry's `get_active_span` and `SpanRef::set_status`:
/// marks the active span, if there is one, as failed with `description`.
#[verifier::external_body]
fn mark_current_span_failed(description: String) {
    opentelemetry::trace::get_active_span(
        |span| span.set_status(opentelemetry::trace::Status::Error { description: description.into() }),
    );
}

/// The status recorded on a trace span by the calls made within it: the
/// description of the failure, once one was recorded.
#[derive(Debug)]
pub struct SpanStatus {
    pub error: Option<String>,
}

impl SpanStatus {
    /// A span on which no failure has been recorded.
    pub fn new() -> (r: SpanStatus)
        ensures
            r.error is None,
    {
        SpanStatus { error: None }
    }
}

/// Records `e` as the error status of `span`, and of the active trace span
/// of the process, if there is one.
pub fn log_in_current_span(span: &mut SpanStatus, e: &ClientError)
    ensures
        final(span).error is Some,
        e matches ClientError::ConnectorError(c) ==> final(span).error->0@
            == c.error_response.message@,
        e matches ClientError::ConnectorURLError(ConnectorURLError::URLCannotBeABase())
            ==> final(span).error->0@ == "the base URL cannot have a path appended"@,
{
    let description = e.describe();
    span.error = Some(description.clone());
    mark_current_span_failed(description);
}

/// Observation of failures on a trace span.
pub trait Tracing: Sized {
    /// Whether the value is a failure.
    spec fn is_failure(&self) -> bool;

    /// Records a failure on `span` and hands the value back as it was; a
    /// value that is no failure leaves `span` as it was.
    fn with_traced_errors(self, span: &mut SpanStatus) -> (r: Self)
        ensures
            r == self,
            !self.is_failure() ==> *final(span) == *old(span),
            self.is_failure() ==> final(span).error is Some,
    ;
}

impl<A> Tracing for Result<A, ClientError> {
    open spec fn is_failure(&self) -> bool {
        self is Err
    }

    fn with_traced_errors(self, span: &mut SpanStatus) -> (r: Self) {
        match self {
            Ok(x) => Ok(x),
            Err(e) => {
                log_in_current_span(span, &e);
                Err(e)
            },
        }
    }
}

} // verus!
