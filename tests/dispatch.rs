use ndc_client::dispatch::{prepare_request, Configuration, Method, Operation};
use ndc_client::error::{ClientError, ConnectorURLError, SpanStatus};

fn config(base: &str) -> Configuration {
    Configuration {
        base_path: base.to_string(),
        user_agent: Some("client/1".to_string()),
        headers: vec![("x-key".to_string(), b"v".to_vec())],
    }
}

#[test]
fn operations_have_their_method_and_path() {
    assert_eq!(Operation::CapabilitiesGet.method(), Method::Get);
    assert_eq!(Operation::SchemaGet.method(), Method::Get);
    assert_eq!(Operation::QueryPost.method(), Method::Post);
    assert_eq!(Operation::MutationPost.method(), Method::Post);
    assert_eq!(Operation::ExplainPost.method(), Method::Post);
    assert_eq!(Operation::CapabilitiesGet.path(), "capabilities");
    assert_eq!(Operation::SchemaGet.path(), "schema");
    assert_eq!(Operation::QueryPost.path(), "query");
    assert_eq!(Operation::MutationPost.path(), "mutation");
    assert_eq!(Operation::ExplainPost.path(), "explain");
}

#[test]
fn prepared_request_has_endpoint_and_headers() {
    let mut span = SpanStatus::new();
    let r = prepare_request(&config("http://h/ndc"), Operation::MutationPost, &mut span).unwrap();
    assert!(span.error.is_none());
    assert_eq!(r.method, Method::Post);
    assert_eq!(r.url, "http://h/ndc/mutation");
    assert!(r.headers.contains(&("user-agent".to_string(), b"client/1".to_vec())));
    assert!(r.headers.contains(&("x-key".to_string(), b"v".to_vec())));
}

#[test]
fn unresolvable_base_fails_before_any_request() {
    let mut span = SpanStatus::new();
    let r = prepare_request(&config("::"), Operation::QueryPost, &mut span);
    assert!(span.error.is_some());
    assert!(matches!(r, Err(ClientError::ConnectorURLError(ConnectorURLError::URLParseError(_)))));
}

#[test]
fn opaque_base_cannot_be_extended() {
    let mut span = SpanStatus::new();
    let r = prepare_request(&config("mailto:a@b"), Operation::SchemaGet, &mut span);
    assert_eq!(span.error.as_deref(), Some("the base URL cannot have a path appended"));
    assert!(matches!(r, Err(ClientError::ConnectorURLError(ConnectorURLError::URLCannotBeABase()))));
}
