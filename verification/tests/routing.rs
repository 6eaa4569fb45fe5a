use shop_api::handlers::Endpoint;
use shop_api::router::{route, routes, Route};
use shop_api::text::same_text;

#[test]
fn get_products_reaches_the_product_listing() {
    assert_eq!(route("GET", "/products"), Some(Endpoint::ListProducts));
}

#[test]
fn get_customers_reaches_the_customer_listing() {
    assert_eq!(route("GET", "/customers"), Some(Endpoint::ListCustomers));
}

#[test]
fn get_orders_reaches_the_order_listing() {
    assert_eq!(route("GET", "/orders"), Some(Endpoint::ListOrders));
}

#[test]
fn post_orders_reaches_order_creation() {
    assert_eq!(route("POST", "/orders"), Some(Endpoint::CreateOrder));
}

#[test]
fn only_orders_accept_post() {
    assert_eq!(route("POST", "/products"), None);
    assert_eq!(route("POST", "/customers"), None);
}

#[test]
fn other_methods_reach_nothing() {
    for method in ["PUT", "DELETE", "PATCH", "HEAD", "OPTIONS", ""] {
        for path in ["/products", "/customers", "/orders"] {
            assert_eq!(route(method, path), None);
        }
    }
}

#[test]
fn methods_and_paths_are_matched_letter_for_letter() {
    assert_eq!(route("get", "/orders"), None);
    assert_eq!(route("Post", "/orders"), None);
    assert_eq!(route("GET", "/Orders"), None);
    assert_eq!(route("GET", "/orders/"), None);
    assert_eq!(route("GET", "orders"), None);
    assert_eq!(route("GET", "/order"), None);
    assert_eq!(route("GET", "/"), None);
    assert_eq!(route("GET", ""), None);
    assert_eq!(route("GET ", "/orders"), None);
}

#[test]
fn the_table_has_the_four_rows_in_order() {
    assert_eq!(
        routes(),
        vec![
            Route { method: "GET", path: "/products", endpoint: Endpoint::ListProducts },
            Route { method: "GET", path: "/customers", endpoint: Endpoint::ListCustomers },
            Route { method: "GET", path: "/orders", endpoint: Endpoint::ListOrders },
            Route { method: "POST", path: "/orders", endpoint: Endpoint::CreateOrder },
        ]
    );
}

#[test]
fn every_row_routes_to_its_own_endpoint() {
    for row in routes() {
        assert_eq!(route(row.method, row.path), Some(row.endpoint));
    }
}

#[test]
fn every_endpoint_has_exactly_one_row() {
    let rows = routes();
    for endpoint in [
        Endpoint::ListProducts,
        Endpoint::ListCustomers,
        Endpoint::ListOrders,
        Endpoint::CreateOrder,
    ] {
        assert_eq!(rows.iter().filter(|row| row.endpoint == endpoint).count(), 1);
    }
}

#[test]
fn no_two_rows_share_method_and_path() {
    let rows = routes();
    for i in 0..rows.len() {
        for j in (i + 1)..rows.len() {
            assert!(rows[i].method != rows[j].method || rows[i].path != rows[j].path);
        }
    }
}

#[test]
fn same_text_compares_characters() {
    assert!(same_text("", ""));
    assert!(same_text("/orders", "/orders"));
    assert!(!same_text("/orders", "/order"));
    assert!(!same_text("/order", "/orders"));
    assert!(!same_text("/orders", "/orderz"));
    assert!(!same_text("GET", "get"));
    assert!(!same_text("", "x"));
}

#[test]
fn same_text_handles_text_beyond_ascii() {
    assert!(same_text("/bestellungen/\u{00fc}", "/bestellungen/\u{00fc}"));
    assert!(!same_text("/bestellungen/\u{00fc}", "/bestellungen/u"));
    assert!(!same_text("\u{00e9}", "e\u{0301}"));
    assert!(same_text("\u{1f600}", "\u{1f600}"));
    assert!(!same_text("\u{1f600}", "\u{1f601}"));
}
