//! The acceptor's route table: three fixed paths, matched by method and
//! path, and nothing else.

use vstd::prelude::*;

verus! {

#[derive(PartialEq, Eq, Structural, Clone, Copy, Debug)]
pub enum Method {
    Get,
    Post,
}

/// Where one inbound request line is sent.
#[derive(PartialEq, Eq, Structural, Clone, Copy, Debug)]
pub enum Route {
    /// `POST /graphql`: dispatch the body to execution.
    QueryEndpoint,
    /// `GET /graphiql`: the interactive explorer page.
    ExplorerPage,
    /// `GET /`: the liveness body.
    Liveness,
    NotFound,
}

/// The route table as a function of method and path.
pub open spec fn route_spec(m: Method, p: Seq<char>) -> Route {
    if m == Method::Post && p == ("/graphql")@ {
        Route::QueryEndpoint
    } else if m == Method::Get && p == ("/graphiql")@ {
        Route::ExplorerPage
    } else if m == Method::Get && p == ("/")@ {
        Route::Liveness
    } else {
        Route::NotFound
    }
}

/// Character-wise string equality.
fn str_eq(a: &str, b: &str) -> (r: bool)
    ensures
        r == (a@ == b@),
{
    let a_len: usize = a.unicode_len();
    let b_len: usize = b.unicode_len();
    if a_len != b_len {
        return false;
    }
    let mut i: usize = 0;
    while i < a_len
        invariant
            i <= a_len,
            a_len == a@.len(),
            a_len == b@.len(),
            forall|j: int| 0 <= j < i ==> a@[j] == b@[j],
        decreases a_len - i,
    {
        if a.get_char(i) != b.get_char(i) {
            return false;
        }
        i = i + 1;
    }
    proof {
        assert(a@ =~= b@);
    }
    true
}

/// Decides `route_spec` for an inbound method and path.
pub fn route(m: Method, path: &str) -> (r: Route)
    ensures
        r == route_spec(m, path@),
{
    match m {
        Method::Post => {
            if str_eq(path, "/graphql") {
                Route::QueryEndpoint
            } else {
                Route::NotFound
            }
        },
        Method::Get => {
            if str_eq(path, "/graphiql") {
                Route::ExplorerPage
            } else if str_eq(path, "/") {
                Route::Liveness
            } else {
                Route::NotFound
            }
        },
    }
}

} // verus!
