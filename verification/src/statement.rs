//! The statements sent to the store: their text and their parameters.
//!
//! A statement's text is fixed by the layout of the table it names. The
//! functions here return the text as a literal and prove that the literal is
//! the rendering of that layout.

use crate::records::NewOrder;
use crate::records::Resource;
use vstd::prelude::*;

verus! {

/// A value bound to a placeholder of a statement.
#[derive(Clone, Copy, Debug, PartialEq, Eq)]
pub enum Param {
    Uuid(uuid::Uuid),
    Int4(i32),
    Timestamp(chrono::NaiveDateTime),
}

/// One statement for the store: its text, and the values of its
/// placeholders `$1`, `$2`, ... in that order.
#[derive(Debug, PartialEq, Eq)]
pub struct Statement {
    pub sql: &'static str,
    pub params: Vec<Param>,
}

/// A statement as contracts see it.
pub struct StatementView {
    pub text: Seq<char>,
    pub params: Seq<Param>,
}

impl View for Statement {
    type V = StatementView;

    open spec fn view(&self) -> StatementView {
        StatementView { text: self.sql@, params: self.params@ }
    }
}

/// `parts` written one after the other with `", "` between neighbours.
pub open spec fn comma_list(parts: Seq<Seq<char>>) -> Seq<char>
    decreases parts.len(),
{
    if parts.len() == 0 {
        Seq::empty()
    } else if parts.len() == 1 {
        parts[0]
    } else {
        comma_list(parts.drop_last()) + ", "@ + parts.last()
    }
}

/// The placeholder of the `k`-th parameter, counted from 1: `$k`.
pub open spec fn placeholder(k: int) -> Seq<char>
    recommends
        1 <= k <= 9,
{
    seq!['$', (('0' as u8) + k) as u8 as char]
}

/// The placeholders of the first `n` parameters.
pub open spec fn placeholders(n: nat) -> Seq<Seq<char>>
    recommends
        n <= 9,
{
    Seq::new(n, |i: int| placeholder(i + 1))
}

/// The text that reads every row of `resource`, all columns, in the order
/// in which the store holds the rows.
pub open spec fn select_text(resource: Resource) -> Seq<char> {
    "SELECT "@ + comma_list(resource.columns()) + " FROM "@ + resource.table()
}

/// The text that adds one row to `resource` from one parameter for each
/// supplied column, and has the store hand the whole new row back.
pub open spec fn insert_text(resource: Resource) -> Seq<char> {
    "INSERT INTO "@ + resource.table() + " ("@ + comma_list(resource.supplied_columns())
        + ") VALUES ("@ + comma_list(placeholders(resource.supplied_columns().len()))
        + ") RETURNING "@ + comma_list(resource.columns())
}

/// The columns that a new order supplies, each with its value. The date is
/// `order_date`, not a field of `new_order`.
pub open spec fn order_fields(new_order: NewOrder, order_date: chrono::NaiveDateTime) -> Seq<
    (Seq<char>, Param),
> {
    seq![
        ("customer_id"@, Param::Uuid(new_order.customer_id)),
        ("product_id"@, Param::Uuid(new_order.product_id)),
        ("quantity"@, Param::Int4(new_order.quantity)),
        ("order_date"@, Param::Timestamp(order_date)),
    ]
}

/// The statement that reads all of `resource`.
pub open spec fn select_all_view(resource: Resource) -> StatementView {
    StatementView { text: select_text(resource), params: Seq::empty() }
}

/// The statement that stores `new_order` as placed at `order_date`.
pub open spec fn insert_order_view(
    new_order: NewOrder,
    order_date: chrono::NaiveDateTime,
) -> StatementView {
    StatementView {
        text: insert_text(Resource::Order),
        params: order_fields(new_order, order_date).map_values(|f: (Seq<char>, Param)| f.1),
    }
}

/// The fields of a new order are the supplied columns of the order table,
/// in the table's order: the n-th parameter is the value of the n-th
/// supplied column.
pub proof fn lemma_order_fields_follow_the_table(
    new_order: NewOrder,
    order_date: chrono::NaiveDateTime,
)
    ensures
        order_fields(new_order, order_date).map_values(|f: (Seq<char>, Param)| f.0)
            == Resource::Order.supplied_columns(),
        insert_order_view(new_order, order_date).params.len()
            == Resource::Order.supplied_columns().len(),
{
    assert(order_fields(new_order, order_date).map_values(|f: (Seq<char>, Param)| f.0)
        =~= Resource::Order.supplied_columns());
}

/// Adding one part to a list that is not empty adds `", "` and the part to
/// its rendering.
proof fn lemma_comma_list_push(parts: Seq<Seq<char>>, part: Seq<char>)
    requires
        parts.len() > 0,
    ensures
        comma_list(parts.push(part)) == comma_list(parts) + ", "@ + part,
{
    assert(parts.push(part).drop_last() =~= parts);
}

proof fn lemma_two_columns(a: Seq<char>, b: Seq<char>)
    ensures
        comma_list(seq![a, b]) == a + ", "@ + b,
{
    lemma_comma_list_push(seq![a], b);
    assert(seq![a].push(b) =~= seq![a, b]);
}

proof fn lemma_four_columns(a: Seq<char>, b: Seq<char>, c: Seq<char>, d: Seq<char>)
    ensures
        comma_list(seq![a, b, c, d]) == a + ", "@ + b + ", "@ + c + ", "@ + d,
{
    lemma_two_columns(a, b);
    lemma_comma_list_push(seq![a, b], c);
    assert(seq![a, b].push(c) =~= seq![a, b, c]);
    lemma_comma_list_push(seq![a, b, c], d);
    assert(seq![a, b, c].push(d) =~= seq![a, b, c, d]);
}

proof fn lemma_five_columns(a: Seq<char>, b: Seq<char>, c: Seq<char>, d: Seq<char>, e: Seq<char>)
    ensures
        comma_list(seq![a, b, c, d, e]) == a + ", "@ + b + ", "@ + c + ", "@ + d + ", "@ + e,
{
    lemma_four_columns(a, b, c, d);
    lemma_comma_list_push(seq![a, b, c, d], e);
    assert(seq![a, b, c, d].push(e) =~= seq![a, b, c, d, e]);
}

/// The statement that reads all of `resource`.
pub fn select_all(resource: Resource) -> (statement: Statement)
    ensures
        statement@ == select_all_view(resource),
{
    let sql = match resource {
        Resource::Product => {
            proof {
                reveal_strlit("SELECT id, name FROM product");
                reveal_strlit("SELECT ");
                reveal_strlit("id");
                reveal_strlit("name");
                reveal_strlit(", ");
                reveal_strlit(" FROM ");
                reveal_strlit("product");
                lemma_two_columns("id"@, "name"@);
                assert("SELECT id, name FROM product"@ =~= select_text(Resource::Product));
            }
            "SELECT id, name FROM product"
        },
        Resource::Customer => {
            proof {
                reveal_strlit("SELECT id, name FROM customer");
                reveal_strlit("SELECT ");
                reveal_strlit("id");
                reveal_strlit("name");
                reveal_strlit(", ");
                reveal_strlit(" FROM ");
                reveal_strlit("customer");
                lemma_two_columns("id"@, "name"@);
                assert("SELECT id, name FROM customer"@ =~= select_text(Resource::Customer));
            }
            "SELECT id, name FROM customer"
        },
        Resource::Order => {
            proof {
                reveal_strlit(
                    "SELECT id, customer_id, product_id, quantity, order_date FROM \"order\"",
                );
                reveal_strlit("SELECT ");
                reveal_strlit("id");
                reveal_strlit("customer_id");
                reveal_strlit("product_id");
                reveal_strlit("quantity");
                reveal_strlit("order_date");
                reveal_strlit(", ");
                reveal_strlit(" FROM ");
                reveal_strlit("\"order\"");
                lemma_five_columns(
                    "id"@,
                    "customer_id"@,
                    "product_id"@,
                    "quantity"@,
                    "order_date"@,
                );
                assert("SELECT id, customer_id, product_id, quantity, order_date FROM \"order\""@
                    =~= select_text(Resource::Order));
            }
            "SELECT id, customer_id, product_id, quantity, order_date FROM \"order\""
        },
    };
    Statement { sql, params: Vec::new() }
}

/// The rendering of the order table's insert, part by part.
proof fn lemma_order_insert_text()
    ensures
        insert_text(Resource::Order) == "INSERT INTO "@ + "\"order\""@ + " ("@ + (
        "customer_id"@ + ", "@ + "product_id"@ + ", "@ + "quantity"@ + ", "@ + "order_date"@)
            + ") VALUES ("@ + ("$1"@ + ", "@ + "$2"@ + ", "@ + "$3"@ + ", "@ + "$4"@)
            + ") RETURNING "@ + ("id"@ + ", "@ + "customer_id"@ + ", "@ + "product_id"@ + ", "@
            + "quantity"@ + ", "@ + "order_date"@),
{
    let supplied = Resource::Order.supplied_columns();
    assert(supplied =~= seq!["customer_id"@, "product_id"@, "quantity"@, "order_date"@]);
    reveal_strlit("$1");
    reveal_strlit("$2");
    reveal_strlit("$3");
    reveal_strlit("$4");
    assert(placeholder(1) =~= "$1"@);
    assert(placeholder(2) =~= "$2"@);
    assert(placeholder(3) =~= "$3"@);
    assert(placeholder(4) =~= "$4"@);
    assert(placeholders(4) =~= seq!["$1"@, "$2"@, "$3"@, "$4"@]);
    lemma_four_columns("customer_id"@, "product_id"@, "quantity"@, "order_date"@);
    lemma_four_columns("$1"@, "$2"@, "$3"@, "$4"@);
    lemma_five_columns("id"@, "customer_id"@, "product_id"@, "quantity"@, "order_date"@);
}

/// The statement that stores `new_order` as placed at `order_date`.
pub fn insert_order(new_order: NewOrder, order_date: chrono::NaiveDateTime) -> (statement:
    Statement)
    ensures
        statement@ == insert_order_view(new_order, order_date),
{
    let sql =
        "INSERT INTO \"order\" (customer_id, product_id, quantity, order_date) VALUES ($1, $2, $3, $4) RETURNING id, customer_id, product_id, quantity, order_date";
    let mut params: Vec<Param> = Vec::new();
    params.push(Param::Uuid(new_order.customer_id));
    params.push(Param::Uuid(new_order.product_id));
    params.push(Param::Int4(new_order.quantity));
    params.push(Param::Timestamp(order_date));
    proof {
        lemma_order_insert_text();
        reveal_strlit(
            "INSERT INTO \"order\" (customer_id, product_id, quantity, order_date) VALUES ($1, $2, $3, $4) RETURNING id, customer_id, product_id, quantity, order_date",
        );
        reveal_strlit("INSERT INTO ");
        reveal_strlit("\"order\"");
        reveal_strlit(" (");
        reveal_strlit(", ");
        reveal_strlit(") VALUES (");
        reveal_strlit(") RETURNING ");
        reveal_strlit("id");
        reveal_strlit("customer_id");
        reveal_strlit("product_id");
        reveal_strlit("quantity");
        reveal_strlit("order_date");
        reveal_strlit("$1");
        reveal_strlit("$2");
        reveal_strlit("$3");
        reveal_strlit("$4");
        assert(sql@ =~= insert_text(Resource::Order));
        assert(params@ =~= insert_order_view(new_order, order_date).params);
    }
    Statement { sql, params }
}

} // verus!
