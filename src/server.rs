//! Routing of the gateway's own HTTP endpoint.
use vstd::prelude::*;
use crate::dispatch::Method;

verus! {

/// What an incoming request is answered with.
#[derive(Clone, Copy, Debug, PartialEq, Eq, Structural)]
pub enum Route {
    /// The in-browser query editor page.
    GraphiQL,
    /// A query to execute.
    GraphQL,
    /// The request body, sent back.
    Echo,
    /// Status 404.
    NotFound,
}

/// The route for a method and path.
pub open spec fn route_spec(method: Method, path: Seq<char>) -> Route {
    if method == Method::Get && (path == "/"@ || path == "/echo"@) {
        Route::GraphiQL
    } else if method == Method::Post && path == "/graphql"@ {
        Route::GraphQL
    } else if method == Method::Post && path == "/echo"@ {
        Route::Echo
    } else {
        Route::NotFound
    }
}

/// Whether two texts are equal.
pub fn same_text(a: &str, b: &str) -> (r: bool)
    ensures
        r == (a@ == b@),
{
    let n = a.unicode_len();
    if n != b.unicode_len() {
        return false;
    }
    let mut i: usize = 0;
    while i < n
        invariant
            i <= n,
            n == a@.len(),
            n == b@.len(),
            forall|k: int| 0 <= k < i ==> a@[k] == b@[k],
        decreases n - i,
    {
        if a.get_char(i) != b.get_char(i) {
            return false;
        }
        i = i + 1;
    }
    assert(a@ =~= b@);
    true
}

/// Picks the route of an incoming request.
pub fn route(method: Method, path: &str) -> (r: Route)
    ensures
        r == route_spec(method, path@),
{
    match method {
        Method::Get => if same_text(path, "/") || same_text(path, "/echo") {
            Route::GraphiQL
        } else {
            Route::NotFound
        },
        Method::Post => if same_text(path, "/graphql") {
            Route::GraphQL
        } else if same_text(path, "/echo") {
            Route::Echo
        } else {
            Route::NotFound
        },
        _ => Route::NotFound,
    }
}

} // verus!
