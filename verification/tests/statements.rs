use chrono::{NaiveDate, NaiveDateTime};
use shop_api::handlers::{
    add_order_statement, get_customers_statement, get_orders_statement, get_products_statement,
};
use shop_api::records::{NewOrder, Resource};
use shop_api::statement::{insert_order, select_all, Param, Statement};
use uuid::Uuid;

fn moment(h: u32, m: u32, s: u32, micro: u32) -> NaiveDateTime {
    NaiveDate::from_ymd_opt(2024, 2, 29).unwrap().and_hms_micro_opt(h, m, s, micro).unwrap()
}

const INSERT: &str = "INSERT INTO \"order\" (customer_id, product_id, quantity, order_date) VALUES ($1, $2, $3, $4) RETURNING id, customer_id, product_id, quantity, order_date";

#[test]
fn products_are_read_with_both_columns() {
    let statement = select_all(Resource::Product);
    assert_eq!(statement.sql, "SELECT id, name FROM product");
    assert!(statement.params.is_empty());
}

#[test]
fn customers_are_read_with_both_columns() {
    let statement = select_all(Resource::Customer);
    assert_eq!(statement.sql, "SELECT id, name FROM customer");
    assert!(statement.params.is_empty());
}

#[test]
fn orders_are_read_with_all_five_columns_from_the_quoted_table() {
    let statement = select_all(Resource::Order);
    assert_eq!(
        statement.sql,
        "SELECT id, customer_id, product_id, quantity, order_date FROM \"order\""
    );
    assert!(statement.params.is_empty());
}

#[test]
fn each_listing_issues_the_read_of_its_own_table() {
    assert_eq!(get_products_statement(), select_all(Resource::Product));
    assert_eq!(get_customers_statement(), select_all(Resource::Customer));
    assert_eq!(get_orders_statement(), select_all(Resource::Order));
}

#[test]
fn reads_have_no_condition_and_no_limit() {
    for resource in [Resource::Product, Resource::Customer, Resource::Order] {
        let sql = select_all(resource).sql.to_uppercase();
        assert!(sql.starts_with("SELECT "));
        assert!(!sql.contains("WHERE"));
        assert!(!sql.contains("LIMIT"));
        assert!(!sql.contains("ORDER BY"));
    }
}

#[test]
fn insert_supplies_every_column_but_the_id_and_returns_the_row() {
    let new_order = NewOrder {
        customer_id: Uuid::from_u128(1),
        product_id: Uuid::from_u128(2),
        quantity: 1,
    };
    let statement = insert_order(new_order, moment(0, 0, 0, 0));
    assert_eq!(statement.sql, INSERT);
}

#[test]
fn insert_binds_customer_product_quantity_and_date_in_that_order() {
    let customer = Uuid::from_u128(0x1111_2222_3333_4444_5555_6666_7777_8888);
    let product = Uuid::from_u128(0x9999_aaaa_bbbb_cccc_dddd_eeee_ffff_0000);
    let at = moment(13, 5, 59, 123_456);
    let statement = insert_order(
        NewOrder { customer_id: customer, product_id: product, quantity: 7 },
        at,
    );
    assert_eq!(
        statement,
        Statement {
            sql: INSERT,
            params: vec![
                Param::Uuid(customer),
                Param::Uuid(product),
                Param::Int4(7),
                Param::Timestamp(at),
            ],
        }
    );
}

#[test]
fn insert_has_one_placeholder_for_each_parameter() {
    let statement = insert_order(
        NewOrder { customer_id: Uuid::nil(), product_id: Uuid::nil(), quantity: 0 },
        moment(1, 2, 3, 4),
    );
    for k in 1..=statement.params.len() {
        assert_eq!(statement.sql.matches(format!("${}", k).as_str()).count(), 1);
    }
    assert_eq!(statement.sql.matches('$').count(), statement.params.len());
}

#[test]
fn insert_keeps_customer_and_product_apart_when_they_are_equal_or_swapped() {
    let a = Uuid::from_u128(10);
    let b = Uuid::from_u128(20);
    let at = moment(9, 0, 0, 0);
    let ab = insert_order(NewOrder { customer_id: a, product_id: b, quantity: 1 }, at);
    let ba = insert_order(NewOrder { customer_id: b, product_id: a, quantity: 1 }, at);
    assert_eq!(ab.params[0], Param::Uuid(a));
    assert_eq!(ab.params[1], Param::Uuid(b));
    assert_eq!(ba.params[0], Param::Uuid(b));
    assert_eq!(ba.params[1], Param::Uuid(a));
    assert_ne!(ab, ba);
}

#[test]
fn insert_passes_any_quantity_on_unchanged() {
    for quantity in [i32::MIN, -1, 0, 1, 3, i32::MAX] {
        let statement = insert_order(
            NewOrder { customer_id: Uuid::nil(), product_id: Uuid::max(), quantity },
            moment(0, 0, 0, 0),
        );
        assert_eq!(statement.params[2], Param::Int4(quantity));
    }
}

#[test]
fn insert_passes_the_given_date_on_unchanged() {
    let early = NaiveDate::from_ymd_opt(1970, 1, 1).unwrap().and_hms_opt(0, 0, 0).unwrap();
    let late = NaiveDate::from_ymd_opt(9999, 12, 31).unwrap().and_hms_nano_opt(23, 59, 59, 999_999_999).unwrap();
    for at in [early, late, moment(12, 0, 0, 1)] {
        let statement = insert_order(
            NewOrder { customer_id: Uuid::nil(), product_id: Uuid::nil(), quantity: 1 },
            at,
        );
        assert_eq!(statement.params[3], Param::Timestamp(at));
    }
}

fn wall_clock() -> NaiveDateTime {
    chrono::DateTime::<chrono::Utc>::from(std::time::SystemTime::now()).naive_utc()
}

#[test]
fn a_new_order_is_dated_by_the_wall_clock_in_utc() {
    let customer = Uuid::from_u128(0xc);
    let product = Uuid::from_u128(0xb);
    let called = wall_clock();
    let statement = add_order_statement(NewOrder { customer_id: customer, product_id: product, quantity: 3 });
    assert_eq!(statement.sql, INSERT);
    assert_eq!(statement.params.len(), 4);
    assert_eq!(statement.params[0], Param::Uuid(customer));
    assert_eq!(statement.params[1], Param::Uuid(product));
    assert_eq!(statement.params[2], Param::Int4(3));
    match statement.params[3] {
        Param::Timestamp(at) => assert!((at - called).num_seconds().abs() <= 5),
        _ => panic!("the fourth parameter is the order's date"),
    }
}

#[test]
fn two_new_orders_differ_in_nothing_but_their_date() {
    let new_order = NewOrder {
        customer_id: Uuid::from_u128(1),
        product_id: Uuid::from_u128(2),
        quantity: 4,
    };
    let first = add_order_statement(new_order);
    let second = add_order_statement(new_order);
    assert_eq!(first.sql, second.sql);
    assert_eq!(first.params.len(), second.params.len());
    assert_eq!(first.params[..3], second.params[..3]);
    assert!(matches!(first.params[3], Param::Timestamp(_)));
    assert!(matches!(second.params[3], Param::Timestamp(_)));
}
