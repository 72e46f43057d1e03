//! The user routes.
use vstd::prelude::*;
use crate::routing::{route, route_view, route_with_data, Method, RouteSpec};

verus! {

/// The routes mounted under `/api/user`: `get_me`, `update_me` and `get`.
pub fn routes() -> (table: Vec<RouteSpec>)
    ensures
        table@.len() == 3,
        route_view(table@[0]) == (Method::Get, seq!['/', 'm', 'e'], seq!['g', 'e', 't', '_', 'm', 'e'], None::<Seq<char>>),
        route_view(table@[1]) == (Method::Post, seq!['/', 'm', 'e'], seq!['u', 'p', 'd', 'a', 't', 'e', '_', 'm', 'e'], Some(seq!['<', 'u', 's', 'e', 'r', '>'])),
        route_view(table@[2]) == (Method::Get, seq!['/', '<', 'i', 'd', '>'], seq!['g', 'e', 't'], None::<Seq<char>>),
{
    proof {
        reveal_strlit("/me");
        reveal_strlit("get_me");
        reveal_strlit("update_me");
        reveal_strlit("<user>");
        reveal_strlit("/<id>");
        reveal_strlit("get");
    }
    let mut table: Vec<RouteSpec> = Vec::new();
    table.push(route(Method::Get, "/me", "get_me"));
    table.push(route_with_data(Method::Post, "/me", "update_me", "<user>"));
    table.push(route(Method::Get, "/<id>", "get"));
    table
}

} // verus!
