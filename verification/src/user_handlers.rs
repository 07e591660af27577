//! The route table the user operations are served under.

use vstd::prelude::*;
use vstd::string::*;

verus! {

/// One route: an HTTP method and a path pattern.
#[derive(Debug)]
pub struct RouteDef {
    pub method: String,
    pub path: String,
}

/// The user routes, in mounting order: list, lookup, update, create,
/// login, delete.
pub fn get_routes() -> (r: Vec<RouteDef>)
    ensures
        r@.len() == 6,
        r@[0].method@ == "GET"@ && r@[0].path@ == "/"@,
        r@[1].method@ == "GET"@ && r@[1].path@ == "/<name>"@,
        r@[2].method@ == "PUT"@ && r@[2].path@ == "/<name>"@,
        r@[3].method@ == "POST"@ && r@[3].path@ == "/"@,
        r@[4].method@ == "POST"@ && r@[4].path@ == "/auth"@,
        r@[5].method@ == "DELETE"@ && r@[5].path@ == "/<name>"@,
{
    let mut out: Vec<RouteDef> = Vec::new();
    out.push(RouteDef { method: String::from_str("GET"), path: String::from_str("/") });
    out.push(RouteDef { method: String::from_str("GET"), path: String::from_str("/<name>") });
    out.push(RouteDef { method: String::from_str("PUT"), path: String::from_str("/<name>") });
    out.push(RouteDef { method: String::from_str("POST"), path: String::from_str("/") });
    out.push(RouteDef { method: String::from_str("POST"), path: String::from_str("/auth") });
    out.push(RouteDef { method: String::from_str("DELETE"), path: String::from_str("/<name>") });
    out
}

} // verus!
