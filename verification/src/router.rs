//! The routing table: which handler serves a method and a path.

use vstd::prelude::*;
use crate::http::{method_name, Method};
use crate::text::text_eq;

verus! {

/// The handlers that a request can be routed to.
#[derive(Clone, Copy, Debug, PartialEq, Eq, Structural)]
pub enum Route {
    /// The fixed status text.
    Root,
    /// The visitor counter.
    Visitors,
    /// The recent-activity feed.
    Github,
    /// The now-playing snapshot.
    Spotify,
    /// The contact relay.
    Contact,
    /// The list of published posts.
    Blog,
}

/// The method and the path under which `route` is served.
pub open spec fn endpoint_of(route: Route) -> (Method, Seq<char>) {
    match route {
        Route::Root => (Method::Get, "/"@),
        Route::Visitors => (Method::Post, "/api/visitors"@),
        Route::Github => (Method::Get, "/api/github"@),
        Route::Spotify => (Method::Get, "/api/spotify"@),
        Route::Contact => (Method::Post, "/api/contact"@),
        Route::Blog => (Method::Get, "/api/blog"@),
    }
}

/// Whether `route` is served for the method named `method` on `path`. Both
/// match as a whole and by their exact characters.
pub open spec fn serves(route: Route, method: Seq<char>, path: Seq<char>) -> bool {
    method == method_name(endpoint_of(route).0) && path == endpoint_of(route).1
}

/// The handler that serves the method named `method` on `path`, if there
/// is one.
pub open spec fn route_of(method: Seq<char>, path: Seq<char>) -> Option<Route> {
    if serves(Route::Root, method, path) {
        Some(Route::Root)
    } else if serves(Route::Visitors, method, path) {
        Some(Route::Visitors)
    } else if serves(Route::Github, method, path) {
        Some(Route::Github)
    } else if serves(Route::Spotify, method, path) {
        Some(Route::Spotify)
    } else if serves(Route::Contact, method, path) {
        Some(Route::Contact)
    } else if serves(Route::Blog, method, path) {
        Some(Route::Blog)
    } else {
        None
    }
}

/// Looks up the handler for the method named `method` on `path`.
pub fn route(method: &str, path: &str) -> (found: Option<Route>)
    ensures
        found == route_of(method@, path@),
{
    proof {
        lemma_endpoints_differ();
    }
    if text_eq(method, Method::Get.name()) {
        if text_eq(path, "/") {
            Some(Route::Root)
        } else if text_eq(path, "/api/github") {
            Some(Route::Github)
        } else if text_eq(path, "/api/spotify") {
            Some(Route::Spotify)
        } else if text_eq(path, "/api/blog") {
            Some(Route::Blog)
        } else {
            None
        }
    } else if text_eq(method, Method::Post.name()) {
        if text_eq(path, "/api/visitors") {
            Some(Route::Visitors)
        } else if text_eq(path, "/api/contact") {
            Some(Route::Contact)
        } else {
            None
        }
    } else {
        None
    }
}

/// No two handlers share an endpoint: the two methods have different
/// names, and the six paths differ from one another.
pub proof fn lemma_endpoints_differ()
    ensures
        method_name(Method::Get) != method_name(Method::Post),
        forall|a: Route, b: Route| a != b ==> endpoint_of(a).1 != endpoint_of(b).1,
{
    reveal_strlit("GET");
    reveal_strlit("POST");
    reveal_strlit("/");
    reveal_strlit("/api/visitors");
    reveal_strlit("/api/github");
    reveal_strlit("/api/spotify");
    reveal_strlit("/api/contact");
    reveal_strlit("/api/blog");
    // The root differs by its length, the others in the character that
    // follows "/api/".
    assert("GET"@.len() == 3 && "POST"@.len() == 4);
    assert("/"@.len() == 1);
    assert("/api/visitors"@[5] == 'v');
    assert("/api/github"@[5] == 'g');
    assert("/api/spotify"@[5] == 's');
    assert("/api/contact"@[5] == 'c');
    assert("/api/blog"@[5] == 'b');
}

/// A request is routed to a handler exactly where its method and path are
/// that handler's endpoint: every handler can be reached, and under one
/// method and path only.
pub proof fn lemma_route_is_endpoint(method: Seq<char>, path: Seq<char>, route: Route)
    ensures
        route_of(method, path) == Some(route) <==> serves(route, method, path),
{
    lemma_endpoints_differ();
}

} // verus!
