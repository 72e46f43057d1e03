//! The HTTP routes that the backend mounts, as plain data.
use vstd::prelude::*;

verus! {

/// An HTTP method.
#[derive(PartialEq, Eq, Structural, Debug)]
pub enum Method {
    Get,
    Post,
}

/// A route: its method, its URI pattern (with `<name>` parameters), its handler's name,
/// and the `<name>` that the request body is bound to, if the handler takes one.
pub struct RouteSpec {
    pub method: Method,
    pub uri: String,
    pub handler: String,
    pub data: Option<String>,
}

/// A route as plain values.
pub open spec fn route_view(r: RouteSpec) -> (Method, Seq<char>, Seq<char>, Option<Seq<char>>) {
    (r.method, r.uri@, r.handler@, match r.data {
        Some(d) => Some(d@),
        None => None,
    })
}

/// A route without a request body.
pub fn route(method: Method, uri: &str, handler: &str) -> (r: RouteSpec)
    ensures
        route_view(r) == (method, uri@, handler@, None::<Seq<char>>),
{
    RouteSpec { method, uri: String::from_str(uri), handler: String::from_str(handler), data: None }
}

/// A route whose handler binds the request body to `data`.
pub fn route_with_data(method: Method, uri: &str, handler: &str, data: &str) -> (r: RouteSpec)
    ensures
        route_view(r) == (method, uri@, handler@, Some(data@)),
{
    RouteSpec {
        method,
        uri: String::from_str(uri),
        handler: String::from_str(handler),
        data: Some(String::from_str(data)),
    }
}

/// The text used to answer a request for a project that is not there or not the caller's.
pub open spec fn project_not_found() -> Seq<char> {
    seq!['p', 'r', 'o', 'j', 'e', 'c', 't', ' ', 'n', 'o', 't', ' ', 'f', 'o', 'u', 'n', 'd']
}

/// `project not found`.
pub fn project_not_found_text() -> (text: String)
    ensures
        text@ == project_not_found(),
{
    proof {
        reveal_strlit("project not found");
    }
    String::from_str("project not found")
}

} // verus!
