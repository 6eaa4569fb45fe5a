//! The records that pass between the store and the HTTP surface, and the
//! layout of the tables that hold them.
//!
//! Identifiers and timestamps are values of `uuid` and `chrono`. The library
//! never looks inside one: it carries them from the request to the statement
//! and from the store's rows to the response.

use vstd::prelude::*;

verus! {

/// `uuid::Uuid`, a 128-bit identifier, declared so that records can hold it.
#[verifier::external_type_specification]
#[verifier::external_body]
pub struct ExUuid(uuid::Uuid);

/// `chrono::NaiveDateTime`, a calendar date and time of day without a time
/// zone, declared so that records can hold it.
#[verifier::external_type_specification]
#[verifier::external_body]
pub struct ExNaiveDateTime(chrono::NaiveDateTime);

/// A row of the `product` table. Products are only ever read.
#[derive(Debug, PartialEq, Eq)]
pub struct Product {
    pub id: uuid::Uuid,
    pub name: String,
}

/// A row of the `customer` table. Customers are only ever read.
#[derive(Debug, PartialEq, Eq)]
pub struct Customer {
    pub id: uuid::Uuid,
    pub name: String,
}

/// A row of the `"order"` table. The store assigns `id`; `customer_id` and
/// `product_id` refer to rows of the other two tables, which the store
/// enforces.
#[derive(Clone, Copy, Debug, PartialEq, Eq)]
pub struct Order {
    pub id: uuid::Uuid,
    pub customer_id: uuid::Uuid,
    pub product_id: uuid::Uuid,
    pub quantity: i32,
    pub order_date: chrono::NaiveDateTime,
}

/// What a caller supplies to create an order. The order's date is not among
/// it: it is the time at which the order is placed.
#[derive(Clone, Copy, Debug, PartialEq, Eq)]
pub struct NewOrder {
    pub customer_id: uuid::Uuid,
    pub product_id: uuid::Uuid,
    pub quantity: i32,
}

/// The three kinds of record, each held in a table of its own.
#[derive(Clone, Copy, Debug, PartialEq, Eq, Structural)]
pub enum Resource {
    Product,
    Customer,
    Order,
}

impl Resource {
    /// The table's name as it is written in a statement. `order` is a
    /// reserved word of SQL, so that table's name is quoted.
    pub open spec fn table(self) -> Seq<char> {
        match self {
            Resource::Product => "product"@,
            Resource::Customer => "customer"@,
            Resource::Order => "\"order\""@,
        }
    }

    /// The table's columns, in the order of the record's fields. The same
    /// names are the keys of the record on the wire.
    pub open spec fn columns(self) -> Seq<Seq<char>> {
        match self {
            Resource::Product => seq!["id"@, "name"@],
            Resource::Customer => seq!["id"@, "name"@],
            Resource::Order => seq![
                "id"@,
                "customer_id"@,
                "product_id"@,
                "quantity"@,
                "order_date"@,
            ],
        }
    }

    /// The columns that an insert supplies: all but the first, `id`, which
    /// the store assigns.
    pub open spec fn supplied_columns(self) -> Seq<Seq<char>> {
        self.columns().drop_first()
    }
}

} // verus!
