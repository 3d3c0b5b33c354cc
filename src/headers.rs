use vstd::prelude::*;

use crate::option_view;
use vstd::utf8::encode_utf8;

verus! {

/// A request header: its name and the bytes of its value.
pub type Header = (String, Vec<u8>);

/// The name of the header that carries the configured user agent.
pub open spec fn user_agent_name() -> Seq<char> {
    "user-agent"@
}

fn user_agent_header_name() -> (r: String)
    ensures
        r@ == user_agent_name(),
{
    "user-agent".to_string()
}

/// A header as plain values: its name and the bytes of its value.
pub type HeaderText = (Seq<char>, Seq<u8>);

pub open spec fn header_view(h: Header) -> HeaderText {
    (h.0@, h.1@)
}

pub open spec fn headers_view(headers: Seq<Header>) -> Seq<HeaderText> {
    headers.map_values(|h: Header| header_view(h))
}

/// A byte with ASCII upper case letters turned to lower case.
pub open spec fn ascii_lower(b: u8) -> u8 {
    if 65 <= b <= 90 {
        (b + 32) as u8
    } else {
        b
    }
}

/// Whether two header names are the same name: header names are compared
/// without regard to ASCII case.
pub open spec fn same_name(a: Seq<char>, b: Seq<char>) -> bool {
    let x = encode_utf8(a);
    let y = encode_utf8(b);
    x.len() == y.len() && forall|i: int| 0 <= i < x.len() ==> ascii_lower(#[trigger] x[i])
        == ascii_lower(y[i])
}

/// Whether some header of `headers` is named `name`.
pub open spec fn has_name(headers: Seq<HeaderText>, name: Seq<char>) -> bool {
    exists|i: int| 0 <= i < headers.len() && same_name((#[trigger] headers[i]).0, name)
}

/// `headers` with `later` merged in: every header of `later` is added, and
/// each header of `headers` whose name `later` also uses, in any ASCII
/// case, is dropped.
pub open spec fn merged_headers(headers: Seq<HeaderText>, later: Seq<HeaderText>) -> Seq<HeaderText> {
    headers.filter(|h: HeaderText| !has_name(later, h.0)) + later
}

/// The headers decorating a request before the static ones: the trace
/// context's, then the user agent's, if one is configured.
pub open spec fn leading_headers(trace: Seq<HeaderText>, user_agent: Option<Seq<char>>) -> Seq<HeaderText> {
    match user_agent {
        Some(agent) => trace.push((user_agent_name(), encode_utf8(agent))),
        None => trace,
    }
}

/// The headers of an outgoing request: the trace context's and the user
/// agent's, with the static headers merged in last.
pub open spec fn outgoing_headers_of(
    trace: Seq<HeaderText>,
    user_agent: Option<Seq<char>>,
    static_headers: Seq<HeaderText>,
) -> Seq<HeaderText> {
    merged_headers(leading_headers(trace, user_agent), static_headers)
}

fn utf8_bytes(text: &str) -> (r: Vec<u8>)
    ensures
        r@ == encode_utf8(text@),
{
    let bytes = text.as_bytes();
    let mut r: Vec<u8> = Vec::new();
    let mut i: usize = 0;
    while i < bytes.len()
        invariant
            i <= bytes@.len(),
            bytes@ == encode_utf8(text@),
            r@ == bytes@.take(i as int),
        decreases bytes@.len() - i,
    {
        r.push(bytes[i]);
        i = i + 1;
        assert(r@ == bytes@.take(i as int));
    }
    assert(bytes@.take(bytes@.len() as int) == bytes@);
    r
}

fn clone_bytes(bytes: &Vec<u8>) -> (r: Vec<u8>)
    ensures
        r@ == bytes@,
{
    let mut r: Vec<u8> = Vec::new();
    let mut i: usize = 0;
    while i < bytes.len()
        invariant
            i <= bytes@.len(),
            r@ == bytes@.take(i as int),
        decreases bytes@.len() - i,
    {
        r.push(bytes[i]);
        i = i + 1;
        assert(r@ == bytes@.take(i as int));
    }
    assert(bytes@.take(bytes@.len() as int) == bytes@);
    r
}

fn clone_header(h: &Header) -> (r: Header)
    ensures
        header_view(r) == header_view(*h),
{
    (h.0.clone(), clone_bytes(&h.1))
}

fn lower_byte(b: u8) -> (r: u8)
    ensures
        r == ascii_lower(b),
{
    if 65 <= b && b <= 90 {
        b + 32
    } else {
        b
    }
}

fn names_match(a: &String, b: &String) -> (r: bool)
    ensures
        r == same_name(a@, b@),
{
    let x = a.as_str().as_bytes();
    let y = b.as_str().as_bytes();
    if x.len() != y.len() {
        return false;
    }
    let mut i: usize = 0;
    while i < x.len()
        invariant
            i <= x@.len(),
            x@.len() == y@.len(),
            x@ == encode_utf8(a@),
            y@ == encode_utf8(b@),
            forall|j: int| 0 <= j < i ==> ascii_lower(#[trigger] x@[j]) == ascii_lower(y@[j]),
        decreases x@.len() - i,
    {
        if lower_byte(x[i]) != lower_byte(y[i]) {
            return false;
        }
        i = i + 1;
    }
    true
}

fn contains_name(headers: &Vec<Header>, name: &String) -> (r: bool)
    ensures
        r == has_name(headers_view(headers@), name@),
{
    let mut i: usize = 0;
    while i < headers.len()
        invariant
            i <= headers.len(),
            forall|j: int| 0 <= j < i ==> !same_name((#[trigger] headers@[j]).0@, name@),
            headers_view(headers@).len() == headers.len(),
        decreases headers.len() - i,
    {
        if names_match(&headers[i].0, name) {
            assert(same_name(headers_view(headers@)[i as int].0, name@));
            return true;
        }
        i = i + 1;
    }
    assert forall|j: int| 0 <= j < headers.len() implies !same_name(
        (#[trigger] headers_view(headers@)[j]).0,
        name@,
    ) by {
        assert(!same_name(headers@[j].0@, name@));
    }
    false
}

/// Merges `later` into `headers`: each header of `headers` whose name
/// `later` uses is replaced by those of `later`.
pub fn merge_headers(headers: Vec<Header>, later: &Vec<Header>) -> (r: Vec<Header>)
    ensures
        headers_view(r@) == merged_headers(headers_view(headers@), headers_view(later@)),
{
    let ghost hv = headers_view(headers@);
    let ghost lv = headers_view(later@);
    let ghost keep = |h: HeaderText| !has_name(lv, h.0);
    let mut r: Vec<Header> = Vec::new();
    let mut i: usize = 0;
    while i < headers.len()
        invariant
            i <= headers.len(),
            hv == headers_view(headers@),
            lv == headers_view(later@),
            keep == (|h: HeaderText| !has_name(lv, h.0)),
            headers_view(r@) == hv.take(i as int).filter(keep),
        decreases headers.len() - i,
    {
        proof {
            assert(hv.take(i + 1) == hv.take(i as int).push(hv[i as int]));
            hv.take(i as int).lemma_filter_push(hv[i as int], keep);
        }
        if !contains_name(later, &headers[i].0) {
            let h = clone_header(&headers[i]);
            proof {
                assert(headers_view(r@.push(h)) == headers_view(r@).push(header_view(h)));
            }
            r.push(h);
        }
        i = i + 1;
    }
    assert(hv.take(headers.len() as int) == hv);
    let mut j: usize = 0;
    let ghost filtered = headers_view(r@);
    while j < later.len()
        invariant
            j <= later.len(),
            lv == headers_view(later@),
            headers_view(r@) == filtered + lv.take(j as int),
        decreases later.len() - j,
    {
        let h = clone_header(&later[j]);
        proof {
            assert(headers_view(r@.push(h)) == headers_view(r@).push(header_view(h)));
            assert(lv.take(j + 1) == lv.take(j as int).push(lv[j as int]));
        }
        r.push(h);
        j = j + 1;
        assert(headers_view(r@) == filtered + lv.take(j as int));
    }
    assert(lv.take(later.len() as int) == lv);
    r
}

/// The headers of an outgoing request, from the trace context's headers,
/// the configured user agent and the configured static headers.
pub fn outgoing_headers(
    trace: Vec<Header>,
    user_agent: &Option<String>,
    static_headers: &Vec<Header>,
) -> (r: Vec<Header>)
    ensures
        headers_view(r@) == outgoing_headers_of(
            headers_view(trace@),
            option_view(*user_agent),
            headers_view(static_headers@),
        ),
{
    let mut leading = trace;
    match user_agent {
        Some(agent) => {
            let h = (user_agent_header_name(), utf8_bytes(agent.as_str()));
            proof {
                assert(headers_view(leading@.push(h)) == headers_view(leading@).push(header_view(h)));
            }
            leading.push(h);
        },
        None => {},
    }
    merge_headers(leading, static_headers)
}

/// Relies on opentelemetry's `Context::current` and on the global text map
/// propagator's `inject_context`: the headers that carry the current trace
/// context. They depend on the process's tracing state, so nothing is
/// promised of them.
#[verifier::external_body]
pub fn current_trace_headers() -> (r: Vec<Header>) {
    let context = opentelemetry::Context::current();
    let mut injected = std::collections::HashMap::new();
    opentelemetry::global::get_text_map_propagator(
        |propagator| propagator.inject_context(&context, &mut injected),
    );
    injected.into_iter().map(|(name, value)| (name, value.into_bytes())).collect()
}

/// The headers of an outgoing request decorated with the current trace
/// context: whatever the trace context's headers are, the user agent and
/// the static headers are merged after them.
pub fn inject_trace_context(user_agent: &Option<String>, static_headers: &Vec<Header>) -> (r: Vec<
    Header,
>)
    ensures
        exists|trace: Seq<Header>|
            headers_view(r@) == outgoing_headers_of(
                #[trigger] headers_view(trace),
                option_view(*user_agent),
                headers_view(static_headers@),
            ),
{
    let trace = current_trace_headers();
    let r = outgoing_headers(trace, user_agent, static_headers);
    assert(headers_view(r@) == outgoing_headers_of(
        headers_view(trace@),
        option_view(*user_agent),
        headers_view(static_headers@),
    ));
    r
}

/// The outgoing headers hold every static header, and the user agent where
/// one is configured and no static header takes its name, whatever headers
/// the trace context brought.
pub proof fn lemma_outgoing_headers_complete(
    trace: Seq<HeaderText>,
    user_agent: Option<Seq<char>>,
    static_headers: Seq<HeaderText>,
)
    ensures
        forall|i: int|
            0 <= i < static_headers.len() ==> outgoing_headers_of(
                trace,
                user_agent,
                static_headers,
            ).contains(#[trigger] static_headers[i]),
        user_agent is Some && !has_name(static_headers, user_agent_name()) ==> outgoing_headers_of(
            trace,
            user_agent,
            static_headers,
        ).contains((user_agent_name(), encode_utf8(user_agent->0))),
{
    let leading = leading_headers(trace, user_agent);
    let keep = |h: HeaderText| !has_name(static_headers, h.0);
    let kept = leading.filter(keep);
    let all = outgoing_headers_of(trace, user_agent, static_headers);
    assert(all == kept + static_headers);
    assert forall|i: int| 0 <= i < static_headers.len() implies all.contains(
        #[trigger] static_headers[i],
    ) by {
        assert(all[kept.len() + i] == static_headers[i]);
    }
    if user_agent is Some && !has_name(static_headers, user_agent_name()) {
        let agent = (user_agent_name(), encode_utf8(user_agent->0));
        assert(leading[leading.len() - 1] == agent);
        assert(leading.contains(agent));
        leading.lemma_filter_contains(keep, leading.len() - 1);
        let k = choose|k: int| 0 <= k < kept.len() && kept[k] == agent;
        assert(all[k] == agent);
    }
}

/// Values that can stand as the value of a header.
pub trait ToHeaderString: Sized {
    /// Whether `text` is the header text of this value.
    spec fn is_header_string(self, text: Seq<char>) -> bool;

    fn to_header_string(self) -> (r: String)
        ensures
            self.is_header_string(r@),
    ;
}

impl<'a> ToHeaderString for &'a str {
    /// A string stands as itself.
    open spec fn is_header_string(self, text: Seq<char>) -> bool {
        text == self@
    }

    fn to_header_string(self) -> (r: String) {
        self.to_string()
    }
}

/// Relies on serde_json's `to_value` and on `Display` of its `Value`: the
/// compact JSON text of an object, empty when it cannot be encoded.
#[verifier::external_body]
fn json_object_text(object: std::collections::HashMap<String, serde_json::Value>) -> String {
    serde_json::to_value(object).map_or(String::new(), |value| value.to_string())
}

impl ToHeaderString for std::collections::HashMap<String, serde_json::Value> {
    /// An object stands as its JSON text, which the encoder alone decides.
    open spec fn is_header_string(self, text: Seq<char>) -> bool {
        true
    }

    fn to_header_string(self) -> (r: String) {
        json_object_text(self)
    }
}

} // verus!
