//! The four request handlers, each in two halves around its one round trip
//! to the store: the statement to issue, and the response to what came back.
//!
//! A caller issues the statement, waits for the store, and hands the outcome
//! to the second half. No handler issues a second statement, whatever the
//! outcome.

use crate::clock::utc_now;
use crate::records::Customer;
use crate::records::NewOrder;
use crate::records::Order;
use crate::records::Product;
use crate::records::Resource;
use crate::statement::insert_order;
use crate::statement::insert_order_view;
use crate::statement::select_all;
use crate::statement::select_all_view;
use crate::statement::Statement;
use vstd::prelude::*;
use vstd::string::StringExecFns;

verus! {

/// The status of a response that carries the requested records.
pub const STATUS_OK: u16 = 200;

/// The status of every response to a failure of the store, whatever failed.
pub const STATUS_INTERNAL_SERVER_ERROR: u16 = 500;

/// What the service offers.
#[derive(Clone, Copy, Debug, PartialEq, Eq, Structural)]
pub enum Endpoint {
    ListProducts,
    ListCustomers,
    ListOrders,
    CreateOrder,
}

impl Endpoint {
    /// How the log names a failure of this endpoint.
    pub open spec fn failure_label(self) -> Seq<char> {
        match self {
            Endpoint::ListProducts => "Failed to fetch products"@,
            Endpoint::ListCustomers => "Failed to fetch customers"@,
            Endpoint::ListOrders => "Failed to fetch orders"@,
            Endpoint::CreateOrder => "Failed to add order"@,
        }
    }

    /// The line that the log gets when the store fails with `message`.
    pub open spec fn failure_line(self, message: Seq<char>) -> Seq<char> {
        self.failure_label() + ": "@ + message
    }
}

/// A failure of the store or of the connection to it, as the driver
/// described it.
#[derive(Debug, PartialEq, Eq)]
pub struct StoreError {
    pub message: String,
}

/// A response without a body, with status 500. `log_line` is for the
/// process's error stream, not for the caller: the caller does not learn what
/// failed.
#[derive(Debug, PartialEq, Eq)]
pub struct Failure {
    pub log_line: String,
}

/// Whether `response` is what `endpoint` answers to `outcome`: the store's
/// value itself, or a failure whose log line names the endpoint and carries
/// the store's message.
pub open spec fn answers<T>(
    endpoint: Endpoint,
    outcome: Result<T, StoreError>,
    response: Result<T, Failure>,
) -> bool {
    match outcome {
        Ok(value) => response == Ok::<T, Failure>(value),
        Err(error) => response is Err && response->Err_0.log_line@ == endpoint.failure_line(
            error.message@,
        ),
    }
}

/// The response of `endpoint` to what the store returned.
pub fn respond<T>(endpoint: Endpoint, outcome: Result<T, StoreError>) -> (response: Result<
    T,
    Failure,
>)
    ensures
        answers(endpoint, outcome, response),
{
    match outcome {
        Ok(value) => Ok(value),
        Err(error) => {
            let label = match endpoint {
                Endpoint::ListProducts => "Failed to fetch products",
                Endpoint::ListCustomers => "Failed to fetch customers",
                Endpoint::ListOrders => "Failed to fetch orders",
                Endpoint::CreateOrder => "Failed to add order",
            };
            let log_line = String::from_str(label).concat(": ").concat(error.message.as_str());
            Err(Failure { log_line })
        },
    }
}

/// The status of a response: 200 with a body, 500 without.
pub open spec fn status_of<T>(response: Result<T, Failure>) -> u16 {
    if response is Ok {
        STATUS_OK
    } else {
        STATUS_INTERNAL_SERVER_ERROR
    }
}

/// The status of a response: 200 with a body, 500 without.
pub fn status<T>(response: &Result<T, Failure>) -> (code: u16)
    ensures
        code == status_of(*response),
{
    match response {
        Ok(_) => STATUS_OK,
        Err(_) => STATUS_INTERNAL_SERVER_ERROR,
    }
}

/// The statement that the product listing issues.
pub fn get_products_statement() -> (statement: Statement)
    ensures
        statement@ == select_all_view(Resource::Product),
{
    select_all(Resource::Product)
}

/// The product listing's response: the rows as the store returned them, in
/// the store's order.
pub fn get_products(outcome: Result<Vec<Product>, StoreError>) -> (response: Result<
    Vec<Product>,
    Failure,
>)
    ensures
        answers(Endpoint::ListProducts, outcome, response),
{
    respond(Endpoint::ListProducts, outcome)
}

/// The statement that the customer listing issues.
pub fn get_customers_statement() -> (statement: Statement)
    ensures
        statement@ == select_all_view(Resource::Customer),
{
    select_all(Resource::Customer)
}

/// The customer listing's response: the rows as the store returned them, in
/// the store's order.
pub fn get_customers(outcome: Result<Vec<Customer>, StoreError>) -> (response: Result<
    Vec<Customer>,
    Failure,
>)
    ensures
        answers(Endpoint::ListCustomers, outcome, response),
{
    respond(Endpoint::ListCustomers, outcome)
}

/// The statement that the order listing issues.
pub fn get_orders_statement() -> (statement: Statement)
    ensures
        statement@ == select_all_view(Resource::Order),
{
    select_all(Resource::Order)
}

/// The order listing's response: the rows as the store returned them, in the
/// store's order.
pub fn get_orders(outcome: Result<Vec<Order>, StoreError>) -> (response: Result<
    Vec<Order>,
    Failure,
>)
    ensures
        answers(Endpoint::ListOrders, outcome, response),
{
    respond(Endpoint::ListOrders, outcome)
}

/// The statement that stores `payload` as an order placed now, by the wall
/// clock in UTC.
///
/// The date is whatever the system clock reads, so the contract fixes all of
/// the statement but the date. A clock set before 1970 is read like any
/// other; only a reading outside the years that `chrono` can hold, -262143
/// to 262142, makes the clock's conversion panic.
pub fn add_order_statement(payload: NewOrder) -> (statement: Statement)
    ensures
        exists|order_date: chrono::NaiveDateTime|
            statement@ == #[trigger] insert_order_view(payload, order_date),
{
    insert_order(payload, utc_now())
}

/// The response to a new order: the row as the store returned it, with the
/// identifier that the store assigned.
pub fn add_order(outcome: Result<Order, StoreError>) -> (response: Result<Order, Failure>)
    ensures
        answers(Endpoint::CreateOrder, outcome, response),
{
    respond(Endpoint::CreateOrder, outcome)
}

/// What the store returns to a listing is what the caller gets, with status
/// 200: as many rows, each at the place where the store put it, none twice
/// that the store did not return twice.
pub proof fn lemma_listing_returns_the_rows<T>(
    endpoint: Endpoint,
    rows: Vec<T>,
    response: Result<Vec<T>, Failure>,
)
    requires
        answers(endpoint, Ok::<Vec<T>, StoreError>(rows), response),
    ensures
        status_of(response) == STATUS_OK,
        response is Ok,
        response->Ok_0@.len() == rows@.len(),
        forall|i: int| 0 <= i < rows@.len() ==> response->Ok_0@[i] == rows@[i],
{
}

/// Whatever fails in the store, and at whichever endpoint, the response is a
/// failure: its status is 500, and its line for the log is the endpoint's
/// label, a colon and the store's message.
pub proof fn lemma_store_failure_is_a_server_failure<T>(
    endpoint: Endpoint,
    error: StoreError,
    response: Result<T, Failure>,
)
    requires
        answers(endpoint, Err::<T, StoreError>(error), response),
    ensures
        status_of(response) == STATUS_INTERNAL_SERVER_ERROR,
        response is Err,
        response->Err_0.log_line@ == endpoint.failure_label() + ": "@ + error.message@,
{
}

} // verus!
