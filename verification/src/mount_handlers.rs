//! The route table the volume and file operations are served under.

use vstd::prelude::*;
use vstd::string::*;
use crate::user_handlers::RouteDef;

verus! {

/// The volume routes, in mounting order: volume list/lookup/resize/
/// delete, backup launch, browse, the file verbs, job listing, dump, and
/// the extended-attribute verbs.
pub fn get_routes() -> (r: Vec<RouteDef>)
    ensures
        r@.len() == 14,
        r@[0].method@ == "GET"@ && r@[0].path@ == "/"@,
        r@[1].method@ == "GET"@ && r@[1].path@ == "/id/<name>"@,
        r@[2].method@ == "PUT"@ && r@[2].path@ == "/id/<name>"@,
        r@[3].method@ == "DELETE"@ && r@[3].path@ == "/id/<name>"@,
        r@[4].method@ == "POST"@ && r@[4].path@ == "/id/<name>/backup"@,
        r@[5].method@ == "GET"@ && r@[5].path@ == "/browse"@,
        r@[6].method@ == "PUT"@ && r@[6].path@ == "/file"@,
        r@[7].method@ == "DELETE"@ && r@[7].path@ == "/file"@,
        r@[8].method@ == "GET"@ && r@[8].path@ == "/id/<name>/jobs"@,
        r@[9].method@ == "GET"@ && r@[9].path@ == "/dump"@,
        r@[10].method@ == "POST"@ && r@[10].path@ == "/file"@,
        r@[11].method@ == "GET"@ && r@[11].path@ == "/xattrs"@,
        r@[12].method@ == "PUT"@ && r@[12].path@ == "/xattrs"@,
        r@[13].method@ == "DELETE"@ && r@[13].path@ == "/xattrs"@,
{
    let mut out: Vec<RouteDef> = Vec::new();
    out.push(RouteDef { method: String::from_str("GET"), path: String::from_str("/") });
    out.push(RouteDef { method: String::from_str("GET"), path: String::from_str("/id/<name>") });
    out.push(RouteDef { method: String::from_str("PUT"), path: String::from_str("/id/<name>") });
    out.push(
        RouteDef { method: String::from_str("DELETE"), path: String::from_str("/id/<name>") },
    );
    out.push(
        RouteDef {
            method: String::from_str("POST"),
            path: String::from_str("/id/<name>/backup"),
        },
    );
    out.push(RouteDef { method: String::from_str("GET"), path: String::from_str("/browse") });
    out.push(RouteDef { method: String::from_str("PUT"), path: String::from_str("/file") });
    out.push(RouteDef { method: String::from_str("DELETE"), path: String::from_str("/file") });
    out.push(
        RouteDef { method: String::from_str("GET"), path: String::from_str("/id/<name>/jobs") },
    );
    out.push(RouteDef { method: String::from_str("GET"), path: String::from_str("/dump") });
    out.push(RouteDef { method: String::from_str("POST"), path: String::from_str("/file") });
    out.push(RouteDef { method: String::from_str("GET"), path: String::from_str("/xattrs") });
    out.push(RouteDef { method: String::from_str("PUT"), path: String::from_str("/xattrs") });
    out.push(RouteDef { method: String::from_str("DELETE"), path: String::from_str("/xattrs") });
    out
}

} // verus!
