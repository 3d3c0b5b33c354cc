use ndc_client::headers::{merge_headers, outgoing_headers, ToHeaderString};

fn h(name: &str, value: &str) -> (String, Vec<u8>) {
    (name.to_string(), value.as_bytes().to_vec())
}

#[test]
fn static_headers_replace_same_name() {
    let r = merge_headers(vec![h("a", "1"), h("b", "2")], &vec![h("b", "3"), h("c", "4")]);
    assert_eq!(r, vec![h("a", "1"), h("b", "3"), h("c", "4")]);
}

#[test]
fn merge_into_empty() {
    let r = merge_headers(vec![], &vec![h("x", "1")]);
    assert_eq!(r, vec![h("x", "1")]);
}

#[test]
fn outgoing_headers_without_trace_hold_user_agent_and_static() {
    let r = outgoing_headers(vec![], &Some("agent/1".to_string()), &vec![h("authorization", "t")]);
    assert_eq!(r, vec![h("user-agent", "agent/1"), h("authorization", "t")]);
}

#[test]
fn outgoing_headers_keep_trace_first() {
    let r = outgoing_headers(
        vec![h("traceparent", "00-1-2-01")],
        &Some("agent/1".to_string()),
        &vec![h("x-extra", "y")],
    );
    assert_eq!(r, vec![h("traceparent", "00-1-2-01"), h("user-agent", "agent/1"), h("x-extra", "y")]);
}

#[test]
fn outgoing_headers_without_user_agent() {
    let r = outgoing_headers(vec![h("traceparent", "v")], &None, &vec![]);
    assert_eq!(r, vec![h("traceparent", "v")]);
}

#[test]
fn static_user_agent_overrides_configured_one() {
    let r = outgoing_headers(vec![], &Some("a".to_string()), &vec![h("user-agent", "b")]);
    assert_eq!(r, vec![h("user-agent", "b")]);
}

#[test]
fn str_header_string_is_itself() {
    assert_eq!("abc".to_header_string(), "abc");
}

#[test]
fn object_header_string_is_json() {
    let mut m = std::collections::HashMap::new();
    m.insert("k".to_string(), serde_json::Value::Bool(true));
    assert_eq!(m.to_header_string(), "{\"k\":true}");
}

#[test]
fn non_utf8_static_value_is_kept_as_is() {
    let raw = ("x-raw".to_string(), vec![0xffu8, 0x00, 0x80]);
    let r = outgoing_headers(vec![], &None, &vec![raw.clone()]);
    assert_eq!(r, vec![raw]);
}

#[test]
fn header_names_are_replaced_regardless_of_case() {
    let r = merge_headers(vec![h("User-Agent", "a"), h("x-Trace", "t")], &vec![h("USER-AGENT", "b")]);
    assert_eq!(r, vec![h("x-Trace", "t"), h("USER-AGENT", "b")]);
}
