//! The list of paths that the host router is asked to serve.

use vstd::prelude::*;
use vstd::string::StringExecFns;

verus! {

/// A route as the host router wants it: the root is written `/`, not as
/// the empty path.
pub open spec fn route_of(route: Seq<char>) -> Seq<char> {
    if route.len() == 0 {
        "/"@
    } else {
        route
    }
}

/// The paths to register for an application that declares `routes`: each
/// of them, the root written as `/`; and the root alone where the
/// application declares none.
pub open spec fn route_list(routes: Seq<Seq<char>>) -> Seq<Seq<char>> {
    if routes.len() == 0 {
        seq!["/"@]
    } else {
        Seq::new(routes.len(), |i: int| route_of(routes[i]))
    }
}

/// The list of paths is never empty, no path in it is empty, and an
/// application without routes gets the root alone.
pub proof fn lemma_route_list_has_root(routes: Seq<Seq<char>>)
    ensures
        route_list(routes).len() >= 1,
        routes.len() == 0 ==> route_list(routes) == seq!["/"@],
        routes.len() > 0 ==> route_list(routes).len() == routes.len(),
        forall|i: int| 0 <= i < route_list(routes).len() ==> (#[trigger] route_list(routes)[i]).len() > 0,
{
    reveal_strlit("/");
}

/// Turns the routes that the router collected from an application into the
/// list of paths to register with the host router.
pub fn generate_route_list(routes: Vec<String>) -> (r: Vec<String>)
    ensures
        r.deep_view() == route_list(routes.deep_view()),
        r.len() >= 1,
{
    let n = routes.len();
    if n == 0 {
        let mut list: Vec<String> = Vec::new();
        list.push(String::from_str("/"));
        proof {
            assert(list.deep_view() =~= route_list(routes.deep_view()));
        }
        return list;
    }
    let mut list: Vec<String> = Vec::new();
    let mut i: usize = 0;
    while i < n
        invariant
            n == routes.len(),
            i <= n,
            list.len() == i,
            forall|j: int| 0 <= j < i ==> (#[trigger] list[j])@ == route_of(routes[j]@),
        decreases n - i,
    {
        let route = &routes[i];
        if route.as_str().is_empty() {
            list.push(String::from_str("/"));
        } else {
            list.push(route.clone());
        }
        i = i + 1;
    }
    proof {
        assert(list.deep_view() =~= route_list(routes.deep_view()));
    }
    list
}

} // verus!
