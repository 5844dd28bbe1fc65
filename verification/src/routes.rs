//! The route table: a fixed, immutable mapping from request path to an
//! upstream structured-query API, matched by exact string equality.

use vstd::prelude::*;

use crate::text::str_eq;

verus! {

/// A route table entry: the base URL of the upstream API and its host name,
/// as it appears in rendered documents.
pub struct Route {
    pub base: String,
    pub host: String,
}

/// The fixed route table: the (base URL, host) pair each path maps to.
pub open spec fn route_of(path: Seq<char>) -> Option<(Seq<char>, Seq<char>)> {
    if path == "/wikipedia"@ {
        Some(("https://en.wikipedia.org/w/api.php"@, "en.wikipedia.org"@))
    } else if path == "/nethack"@ {
        Some(("https://nethackwiki.com/w/api.php"@, "nethackwiki.com"@))
    } else if path == "/xkcd"@ {
        Some(("https://explainxkcd.com/wiki/api.php"@, "explainxkcd.com"@))
    } else {
        None
    }
}

/// Looks a path up in the route table by exact match.  Total: an unknown
/// path is an absence, not an error.
pub fn lookup(path: &str) -> (r: Option<Route>)
    ensures
        r is Some <==> route_of(path@) is Some,
        r matches Some(route) ==> route_of(path@) == Some((route.base@, route.host@)),
{
    if str_eq(path, "/wikipedia") {
        Some(
            Route {
                base: "https://en.wikipedia.org/w/api.php".to_owned(),
                host: "en.wikipedia.org".to_owned(),
            },
        )
    } else if str_eq(path, "/nethack") {
        Some(
            Route {
                base: "https://nethackwiki.com/w/api.php".to_owned(),
                host: "nethackwiki.com".to_owned(),
            },
        )
    } else if str_eq(path, "/xkcd") {
        Some(
            Route {
                base: "https://explainxkcd.com/wiki/api.php".to_owned(),
                host: "explainxkcd.com".to_owned(),
            },
        )
    } else {
        None
    }
}

} // verus!
