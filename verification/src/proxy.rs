//! The per-request plumbing the orchestrator computes: the request
//! context with its upstream target, the forwarded-for header value, and
//! the reconstruction of the response handed back to the client.

use crate::paths::str_eq;
use vstd::prelude::*;
use vstd::slice::slice_to_vec;
use vstd::string::StringExecFns;

verus! {

/// Relies on uuid::Uuid::new_v4: a freshly drawn random correlation id.
/// Nothing is promised of its text, which differs from call to call.
#[verifier::external_body]
fn fresh_request_id() -> String {
    uuid::Uuid::new_v4().to_string()
}

/// The address a request is resent to: the fixed scheme, the configured
/// upstream host and port, and the original path with its query.
pub fn target_url(upstream: &str, path: &str) -> (r: String)
    ensures
        r@ == "http://"@ + upstream@ + path@,
{
    let mut url = String::from_str("http://");
    url.append(upstream);
    url.append(path);
    url
}

/// Everything one inbound request carries through the proxy, fixed at
/// entry: correlation id, method, path with query, the fully buffered
/// body, and the resolved upstream target.
#[derive(Debug, PartialEq, Eq)]
pub struct RequestContext {
    pub id: String,
    pub method: String,
    pub path: String,
    pub body: Vec<u8>,
    pub target_url: String,
}

impl RequestContext {
    /// Builds the context of one request against the configured upstream;
    /// the correlation id is drawn fresh.
    pub fn new(method: String, path: String, body: Vec<u8>, upstream: &str) -> (r: RequestContext)
        ensures
            r.method == method,
            r.path == path,
            r.body == body,
            r.target_url@ == "http://"@ + upstream@ + path@,
    {
        let target = target_url(upstream, path.as_str());
        RequestContext { id: fresh_request_id(), method, path, body, target_url: target }
    }
}

/// The X-Forwarded-For value handed upstream: the client address alone,
/// or appended after the value the request already carried.
pub fn extend_forwarded_for(existing: Option<&str>, peer: &str) -> (r: String)
    ensures
        existing is None ==> r@ == peer@,
        existing matches Some(e) ==> r@ == e@ + ", "@ + peer@,
{
    match existing {
        None => peer.to_owned(),
        Some(e) => {
            let mut out = e.to_owned();
            out.append(", ");
            out.append(peer);
            out
        },
    }
}

/// What the upstream answered, reduced to plain values: the status code,
/// the header pairs in order, and the body bytes.
#[derive(Debug, PartialEq, Eq)]
pub struct UpstreamResponse {
    pub status: u16,
    pub headers: Vec<(String, String)>,
    pub body: Vec<u8>,
}

/// What is handed back to the proxy's own client.
#[derive(Debug, PartialEq, Eq)]
pub struct ClientResponse {
    pub status: u16,
    pub headers: Vec<(String, String)>,
    pub body: Vec<u8>,
}

/// The hop-by-hop header that is never copied to the client. Names are
/// compared as handed in; the HTTP layer normalizes them to lower case.
pub open spec fn is_connection_header(name: Seq<char>) -> bool {
    name == "connection"@
}

/// The headers the client receives: the upstream's, in their order, with
/// every connection header left out.
pub open spec fn forwarded_headers(hs: Seq<(String, String)>) -> Seq<(String, String)>
    decreases hs.len(),
{
    if hs.len() == 0 {
        Seq::empty()
    } else if is_connection_header(hs[0].0@) {
        forwarded_headers(hs.skip(1))
    } else {
        seq![hs[0]] + forwarded_headers(hs.skip(1))
    }
}

/// Unfolds `forwarded_headers` one step at position `i` of `hs`.
proof fn lemma_forwarded_headers_step(hs: Seq<(String, String)>, i: int)
    requires
        0 <= i < hs.len(),
    ensures
        is_connection_header(hs[i].0@) ==> forwarded_headers(hs.skip(i)) == forwarded_headers(
            hs.skip(i + 1),
        ),
        !is_connection_header(hs[i].0@) ==> forwarded_headers(hs.skip(i)) == seq![hs[i]]
            + forwarded_headers(hs.skip(i + 1)),
{
    let t = hs.skip(i);
    assert(t[0] == hs[i]);
    assert(t.skip(1) =~= hs.skip(i + 1));
}

/// Rebuilds the client response from the upstream response: status code
/// and body bytes pass through unchanged, and the headers are copied in
/// order, minus the connection header.
pub fn build_client_response(upstream: &UpstreamResponse) -> (r: ClientResponse)
    ensures
        r.status == upstream.status,
        r.body@ == upstream.body@,
        r.headers@ == forwarded_headers(upstream.headers@),
{
    let ghost hs = upstream.headers@;
    let mut headers: Vec<(String, String)> = Vec::new();
    let mut i: usize = 0;
    proof {
        assert(hs.skip(0) =~= hs);
    }
    while i < upstream.headers.len()
        invariant
            0 <= i <= upstream.headers.len(),
            hs == upstream.headers@,
            forwarded_headers(hs) == headers@ + forwarded_headers(hs.skip(i as int)),
        decreases upstream.headers.len() - i,
    {
        proof {
            lemma_forwarded_headers_step(hs, i as int);
        }
        let pair = &upstream.headers[i];
        if !str_eq(pair.0.as_str(), "connection") {
            let ghost before = headers@;
            headers.push((pair.0.clone(), pair.1.clone()));
            proof {
                assert(headers@ =~= before + seq![hs[i as int]]);
                assert(before + seq![hs[i as int]] + forwarded_headers(hs.skip(i + 1)) =~= before
                    + (seq![hs[i as int]] + forwarded_headers(hs.skip(i + 1))));
            }
        }
        i = i + 1;
    }
    proof {
        assert(hs.skip(i as int) =~= Seq::<(String, String)>::empty());
        assert(forwarded_headers(hs) =~= headers@);
    }
    ClientResponse {
        status: upstream.status,
        headers,
        body: slice_to_vec(upstream.body.as_slice()),
    }
}

/// No forwarded header is the connection header.
proof fn lemma_forwarded_no_connection(hs: Seq<(String, String)>)
    ensures
        forall|i: int| 0 <= i < forwarded_headers(hs).len() ==> !is_connection_header(
            #[trigger] forwarded_headers(hs)[i].0@,
        ),
    decreases hs.len(),
{
    if hs.len() > 0 {
        lemma_forwarded_no_connection(hs.skip(1));
        let f = forwarded_headers(hs);
        let rest = forwarded_headers(hs.skip(1));
        if is_connection_header(hs[0].0@) {
            assert forall|i: int| 0 <= i < f.len() implies !is_connection_header(f[i].0@) by {
                assert(f[i] == rest[i]);
            }
        } else {
            assert forall|i: int| 0 <= i < f.len() implies !is_connection_header(f[i].0@) by {
                if i > 0 {
                    assert(f[i] == rest[i - 1]);
                }
            }
        }
    }
}

/// Every header other than the connection header is forwarded.
proof fn lemma_forwarded_keeps_others(hs: Seq<(String, String)>)
    ensures
        forall|i: int|
            0 <= i < hs.len() && !is_connection_header(#[trigger] hs[i].0@)
                ==> forwarded_headers(hs).contains(hs[i]),
    decreases hs.len(),
{
    if hs.len() > 0 {
        lemma_forwarded_keeps_others(hs.skip(1));
        assert forall|i: int|
            0 <= i < hs.len() && !is_connection_header(hs[i].0@) implies forwarded_headers(
            hs,
        ).contains(hs[i]) by {
            let f = forwarded_headers(hs);
            if i == 0 {
                assert(f[0] == hs[0]);
            } else {
                assert(hs.skip(1)[i - 1] == hs[i]);
                let rest = forwarded_headers(hs.skip(1));
                assert(rest.contains(hs[i]));
                let k = choose|k: int| 0 <= k < rest.len() && rest[k] == hs[i];
                if !is_connection_header(hs[0].0@) {
                    assert(f[k + 1] == rest[k]);
                }
            }
        }
    }
}

/// Round trip: the client sees the upstream's status code and body bytes
/// unchanged; the connection header is never among the headers it
/// receives, and every other header pair reaches it in its original
/// order.
pub proof fn lemma_response_round_trip(u: UpstreamResponse, r: ClientResponse)
    requires
        r.status == u.status,
        r.body@ == u.body@,
        r.headers@ == forwarded_headers(u.headers@),
    ensures
        r.status == u.status,
        r.body@ == u.body@,
        forall|i: int| 0 <= i < r.headers@.len() ==> !is_connection_header(
            #[trigger] r.headers@[i].0@,
        ),
        forall|i: int|
            0 <= i < u.headers@.len() && !is_connection_header(#[trigger] u.headers@[i].0@)
                ==> r.headers@.contains(u.headers@[i]),
{
    lemma_forwarded_no_connection(u.headers@);
    lemma_forwarded_keeps_others(u.headers@);
}

} // verus!
