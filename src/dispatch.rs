use vstd::prelude::*;

use crate::endpoint::{append_path, cannot_be_extended, endpoint_of};
use crate::error::{ClientError, ConnectorURLError, SpanStatus, Tracing};
use crate::option_view;
use crate::headers::{headers_view, inject_trace_context, outgoing_headers_of, Header};

verus! {

/// The HTTP method of an operation.
#[derive(Clone, Copy, Debug, PartialEq, Eq, Structural)]
pub enum Method {
    Get,
    Post,
}

/// The operations of the connector protocol.
#[derive(Clone, Copy, Debug, PartialEq, Eq, Structural)]
pub enum Operation {
    CapabilitiesGet,
    SchemaGet,
    QueryPost,
    MutationPost,
    ExplainPost,
}

impl Operation {
    pub open spec fn method_spec(self) -> Method {
        match self {
            Operation::CapabilitiesGet | Operation::SchemaGet => Method::Get,
            _ => Method::Post,
        }
    }

    /// The path of the operation, relative to the connector's base URL.
    pub open spec fn path_spec(self) -> Seq<char> {
        match self {
            Operation::CapabilitiesGet => "capabilities"@,
            Operation::SchemaGet => "schema"@,
            Operation::QueryPost => "query"@,
            Operation::MutationPost => "mutation"@,
            Operation::ExplainPost => "explain"@,
        }
    }

    /// The HTTP method of the operation: GET for capabilities and schema,
    /// POST for the others, which carry a JSON body.
    pub fn method(&self) -> (r: Method)
        ensures
            r == self.method_spec(),
    {
        match self {
            Operation::CapabilitiesGet | Operation::SchemaGet => Method::Get,
            _ => Method::Post,
        }
    }

    /// The path of the operation, relative to the connector's base URL.
    pub fn path(&self) -> (r: &'static str)
        ensures
            r@ == self.path_spec(),
    {
        match self {
            Operation::CapabilitiesGet => "capabilities",
            Operation::SchemaGet => "schema",
            Operation::QueryPost => "query",
            Operation::MutationPost => "mutation",
            Operation::ExplainPost => "explain",
        }
    }
}

/// What a client is configured with: the connector's base URL, the user
/// agent to announce, if any, and the headers to send with every request.
pub struct Configuration {
    pub base_path: String,
    pub user_agent: Option<String>,
    pub headers: Vec<Header>,
}

/// A request ready to be sent.
#[derive(Debug)]
pub struct OutgoingRequest {
    pub method: Method,
    pub url: String,
    pub headers: Vec<Header>,
}

/// What `append_path` owes for `base` and `path` when it fails with `e`.
pub open spec fn resolution_failure(base: Seq<char>, path: Seq<char>, e: ConnectorURLError) -> bool {
    match e {
        ConnectorURLError::URLCannotBeABase() => cannot_be_extended(base),
        ConnectorURLError::URLParseError(_) => endpoint_of(base, path) is None
            && !cannot_be_extended(base),
    }
}

/// Builds the request of `operation`: its method, its endpoint under the
/// configured base URL, and its headers, the current trace context's first,
/// then the user agent's, then the configured ones. When the endpoint cannot
/// be resolved the call fails there, before any header is made, and the
/// failure is recorded on `span`.
pub fn prepare_request(
    configuration: &Configuration,
    operation: Operation,
    span: &mut SpanStatus,
) -> (r: Result<
    OutgoingRequest,
    ClientError,
>)
    ensures
        r is Ok <==> endpoint_of(configuration.base_path@, operation.path_spec()) is Some,
        r is Ok ==> *final(span) == *old(span),
        r is Err ==> final(span).error is Some,
        r matches Ok(request) ==> {
            &&& request.method == operation.method_spec()
            &&& endpoint_of(configuration.base_path@, operation.path_spec()) == Some(request.url@)
            &&& exists|trace: Seq<Header>|
                headers_view(request.headers@) == outgoing_headers_of(
                    #[trigger] headers_view(trace),
                    option_view(configuration.user_agent),
                    headers_view(configuration.headers@),
                )
        },
        r matches Err(e) ==> e matches ClientError::ConnectorURLError(u) && resolution_failure(
            configuration.base_path@,
            operation.path_spec(),
            u,
        ),
{
    let url = match append_path(configuration.base_path.as_str(), operation.path()) {
        Ok(url) => url,
        Err(e) => {
            let failed: Result<OutgoingRequest, ClientError> = Err(
                ClientError::ConnectorURLError(e),
            );
            return failed.with_traced_errors(span);
        },
    };
    let headers = inject_trace_context(&configuration.user_agent, &configuration.headers);
    Ok(OutgoingRequest { method: operation.method(), url, headers })
}

} // verus!
