//! The two static pages the acceptor serves itself: the liveness body at the
//! root, and the interactive explorer page for the query endpoint.

use vstd::prelude::*;
use vstd::string::*;
use crate::dispatch::Response;

verus! {

/// `needle` occurs somewhere in `hay`.
pub open spec fn contains_seq(hay: Seq<char>, needle: Seq<char>) -> bool {
    exists|i: int|
        0 <= i && i + needle.len() <= hay.len() && #[trigger] hay.subrange(i, i + needle.len())
            == needle
}

/// The explorer page generated for a query endpoint URL: a fixed HTML
/// template around the URL, a pure function of the URL alone.
pub uninterp spec fn graphiql_page_of(url: Seq<char>) -> Seq<char>;

/// Relies on `juniper::http::graphiql::graphiql_source` (no subscriptions
/// endpoint): it substitutes the endpoint URL into a fixed, non-empty HTML
/// template, so the page contains the URL verbatim and is strictly longer
/// than it.
#[verifier::external_body]
fn graphiql_source_page(endpoint_url: &str) -> (r: String)
    ensures
        r@ == graphiql_page_of(endpoint_url@),
        contains_seq(r@, endpoint_url@),
        r@.len() > endpoint_url@.len(),
{
    juniper::http::graphiql::graphiql_source(endpoint_url, None)
}

/// The explorer page response: always 200, HTML, and a body that carries
/// the configured query-endpoint URL verbatim.
pub fn graphiql_response(endpoint_url: &str) -> (r: Response)
    ensures
        r.status == 200,
        r.content_type@ == ("text/html; charset=utf-8")@,
        r.body@ == graphiql_page_of(endpoint_url@),
        contains_seq(r.body@, endpoint_url@),
        r.body@.len() > endpoint_url@.len(),
{
    Response {
        status: 200,
        content_type: String::from_str("text/html; charset=utf-8"),
        body: graphiql_source_page(endpoint_url),
    }
}

/// The liveness response at the root: always 200 with the fixed body,
/// whatever the state of schema, context or worker pool — it takes none of
/// them.
pub fn index_response() -> (r: Response)
    ensures
        r.status == 200,
        r.content_type@ == ("text/plain; charset=utf-8")@,
        r.body@ == ("Hello world!")@,
{
    Response {
        status: 200,
        content_type: String::from_str("text/plain; charset=utf-8"),
        body: String::from_str("Hello world!"),
    }
}

} // verus!
