//! The routing table: which method and path reach which endpoint.

use crate::handlers::Endpoint;
use crate::text::same_text;
use vstd::prelude::*;

verus! {

/// One row of the routing table. Method and path are matched letter for
/// letter.
#[derive(Clone, Copy, Debug, PartialEq, Eq)]
pub struct Route {
    pub method: &'static str,
    pub path: &'static str,
    pub endpoint: Endpoint,
}

/// A row as contracts see it.
pub struct RouteView {
    pub method: Seq<char>,
    pub path: Seq<char>,
    pub endpoint: Endpoint,
}

impl View for Route {
    type V = RouteView;

    open spec fn view(&self) -> RouteView {
        RouteView { method: self.method@, path: self.path@, endpoint: self.endpoint }
    }
}

impl RouteView {
    /// Whether the row is the one for `method` and `path`.
    pub open spec fn matches(self, method: Seq<char>, path: Seq<char>) -> bool {
        self.method == method && self.path == path
    }
}

/// The table.
pub open spec fn route_table() -> Seq<RouteView> {
    seq![
        RouteView { method: "GET"@, path: "/products"@, endpoint: Endpoint::ListProducts },
        RouteView { method: "GET"@, path: "/customers"@, endpoint: Endpoint::ListCustomers },
        RouteView { method: "GET"@, path: "/orders"@, endpoint: Endpoint::ListOrders },
        RouteView { method: "POST"@, path: "/orders"@, endpoint: Endpoint::CreateOrder },
    ]
}

/// The endpoint of the first row of `table` for `method` and `path`, if
/// there is such a row.
pub open spec fn lookup(table: Seq<RouteView>, method: Seq<char>, path: Seq<char>) -> Option<
    Endpoint,
>
    decreases table.len(),
{
    if table.len() == 0 {
        None
    } else if table[0].matches(method, path) {
        Some(table[0].endpoint)
    } else {
        lookup(table.drop_first(), method, path)
    }
}

/// The endpoint that a request with `method` for `path` reaches.
pub open spec fn route_of(method: Seq<char>, path: Seq<char>) -> Option<Endpoint> {
    lookup(route_table(), method, path)
}

/// The rows of a table, seen as contracts see them.
pub open spec fn rows_view(rows: Seq<Route>) -> Seq<RouteView> {
    rows.map_values(|row: Route| row@)
}

/// The routing table, row by row, for whoever registers the handlers.
pub fn routes() -> (rows: Vec<Route>)
    ensures
        rows_view(rows@) == route_table(),
{
    let mut rows: Vec<Route> = Vec::new();
    rows.push(Route { method: "GET", path: "/products", endpoint: Endpoint::ListProducts });
    rows.push(Route { method: "GET", path: "/customers", endpoint: Endpoint::ListCustomers });
    rows.push(Route { method: "GET", path: "/orders", endpoint: Endpoint::ListOrders });
    rows.push(Route { method: "POST", path: "/orders", endpoint: Endpoint::CreateOrder });
    proof {
        assert(rows_view(rows@) =~= route_table());
    }
    rows
}

/// Looking a request up in a table whose first `n` rows do not match it is
/// looking it up in the rest.
proof fn lemma_lookup_skips(table: Seq<RouteView>, n: int, method: Seq<char>, path: Seq<char>)
    requires
        0 <= n <= table.len(),
        forall|j: int| 0 <= j < n ==> !(#[trigger] table[j]).matches(method, path),
    ensures
        lookup(table, method, path) == lookup(table.skip(n), method, path),
    decreases n,
{
    if n == 0 {
        assert(table.skip(0) =~= table);
    } else {
        assert(!table[0].matches(method, path));
        let rest = table.drop_first();
        assert forall|j: int| 0 <= j < n - 1 implies !(#[trigger] rest[j]).matches(
            method,
            path,
        ) by {
            assert(rest[j] == table[j + 1]);
        }
        lemma_lookup_skips(rest, n - 1, method, path);
        assert(rest.skip(n - 1) =~= table.skip(n));
    }
}

/// The endpoint that a request with `method` for `path` reaches, or `None`
/// where the table has no row for it.
pub fn route(method: &str, path: &str) -> (endpoint: Option<Endpoint>)
    ensures
        endpoint == route_of(method@, path@),
{
    let rows = routes();
    let ghost table = route_table();
    let mut i: usize = 0;
    while i < rows.len()
        invariant
            i <= rows@.len(),
            table == route_table(),
            rows_view(rows@) == table,
            forall|j: int| 0 <= j < i ==> !(#[trigger] table[j]).matches(method@, path@),
        decreases rows@.len() - i,
    {
        let row = rows[i];
        assert(row@ == table[i as int]);
        if same_text(row.method, method) && same_text(row.path, path) {
            proof {
                lemma_lookup_skips(table, i as int, method@, path@);
                assert(table.skip(i as int)[0] == table[i as int]);
            }
            return Some(row.endpoint);
        }
        i += 1;
    }
    proof {
        lemma_lookup_skips(table, table.len() as int, method@, path@);
    }
    None
}

/// No two rows of the table are for the same method and path, so the row
/// that `route_of` finds is the only one for the request.
pub proof fn lemma_rows_are_distinct()
    ensures
        forall|i: int, j: int|
            0 <= i < j < route_table().len() ==> !(#[trigger] route_table()[i]).matches(
                (#[trigger] route_table()[j]).method,
                route_table()[j].path,
            ),
{
    reveal_strlit("GET");
    reveal_strlit("POST");
    reveal_strlit("/products");
    reveal_strlit("/customers");
    reveal_strlit("/orders");
    assert("GET"@.len() != "POST"@.len());
    assert("/products"@[1] != "/customers"@[1]);
    assert("/products"@[1] != "/orders"@[1]);
    assert("/customers"@[1] != "/orders"@[1]);
}

/// What `lookup` finds is in the table, and where it finds nothing the
/// table has no row for the request.
pub proof fn lemma_lookup_finds_a_row(table: Seq<RouteView>, method: Seq<char>, path: Seq<char>)
    ensures
        match lookup(table, method, path) {
            Some(endpoint) => exists|i: int|
                0 <= i < table.len() && (#[trigger] table[i]).matches(method, path)
                    && table[i].endpoint == endpoint,
            None => forall|i: int|
                0 <= i < table.len() ==> !(#[trigger] table[i]).matches(method, path),
        },
    decreases table.len(),
{
    if table.len() > 0 && !table[0].matches(method, path) {
        let rest = table.drop_first();
        lemma_lookup_finds_a_row(rest, method, path);
        match lookup(rest, method, path) {
            Some(endpoint) => {
                let i = choose|i: int|
                    0 <= i < rest.len() && (#[trigger] rest[i]).matches(method, path)
                        && rest[i].endpoint == endpoint;
                assert(table[i + 1] == rest[i]);
            },
            None => {
                assert forall|i: int| 0 <= i < table.len() implies !(#[trigger] table[i]).matches(
                    method,
                    path,
                ) by {
                    if i > 0 {
                        assert(table[i] == rest[i - 1]);
                    }
                }
            },
        }
    }
}

/// A request reaches an endpoint exactly if the table has a row with its
/// method, its path and that endpoint.
pub proof fn lemma_route_of_is_the_table(method: Seq<char>, path: Seq<char>, endpoint: Endpoint)
    ensures
        route_of(method, path) == Some(endpoint) <==> exists|i: int|
            0 <= i < route_table().len() && (#[trigger] route_table()[i]).matches(method, path)
                && route_table()[i].endpoint == endpoint,
{
    let table = route_table();
    lemma_lookup_finds_a_row(table, method, path);
    lemma_rows_are_distinct();
    if exists|i: int|
        0 <= i < table.len() && (#[trigger] table[i]).matches(method, path) && table[i].endpoint
            == endpoint {
        let i = choose|i: int|
            0 <= i < table.len() && (#[trigger] table[i]).matches(method, path)
                && table[i].endpoint == endpoint;
        let found = route_of(method, path)->Some_0;
        let k = choose|k: int|
            0 <= k < table.len() && (#[trigger] table[k]).matches(method, path)
                && table[k].endpoint == found;
        assert(k == i) by {
            if k < i {
                assert(!table[k].matches(table[i].method, table[i].path));
            } else if i < k {
                assert(!table[i].matches(table[k].method, table[k].path));
            }
        }
    }
}

/// Every endpoint has a row in the table: each can be reached.
pub proof fn lemma_every_endpoint_is_routed(endpoint: Endpoint)
    ensures
        exists|i: int|
            0 <= i < route_table().len() && (#[trigger] route_table()[i]).endpoint == endpoint,
{
    let table = route_table();
    match endpoint {
        Endpoint::ListProducts => assert(table[0].endpoint == endpoint),
        Endpoint::ListCustomers => assert(table[1].endpoint == endpoint),
        Endpoint::ListOrders => assert(table[2].endpoint == endpoint),
        Endpoint::CreateOrder => assert(table[3].endpoint == endpoint),
    }
}

} // verus!
