//! The statements the SQLite provider runs. A write that depends on what is
//! stored carries its condition in the statement itself, so that SQLite
//! checks and writes in one step.

use vstd::prelude::*;

use crate::model::FulfillmentStatus;

verus! {

pub const CREATE_FULFILLMENT_TABLE: &'static str =
    "CREATE TABLE IF NOT EXISTS fulfillments ( id INTEGER NOT NULL UNIQUE PRIMARY KEY, fulfillmentStatus TEXT NOT NULL, fulfillmentType TEXT NOT NULL );";

/// Takes the status, then the type.
pub const INSERT_FULFILLMENT: &'static str = "INSERT INTO fulfillments VALUES( NULL, ?1, ?2 );";

pub const CREATE_LINE_ITEM_TABLE: &'static str =
    "CREATE TABLE IF NOT EXISTS lineItems ( id INTEGER NOT NULL UNIQUE PRIMARY KEY, fulfillmentId INTEGER NOT NULL, productId INTEGER NOT NULL, quantity INTEGER NOT NULL );";

/// Takes the fulfillment, the product and the quantity. Inserts only where
/// the fulfillment exists and is `New`.
pub const INSERT_LINE_ITEM: &'static str =
    "INSERT INTO lineItems (fulfillmentId, productId, quantity) SELECT $1, $2, $3 WHERE EXISTS ( SELECT 1 FROM fulfillments WHERE id = $1 AND fulfillmentStatus = 'New' );";

pub const SELECT_LINE_ITEM: &'static str =
    "SELECT id, fulfillmentId, productId, quantity FROM lineItems WHERE id=$1;";

pub const SELECT_BY_FULFILLMENT_ID: &'static str =
    "SELECT id, fulfillmentId, productId, quantity FROM lineItems WHERE fulfillmentId=$1;";

pub const CREATE_PRODUCT_TABLE: &'static str =
    "CREATE TABLE IF NOT EXISTS products ( id INTEGER NOT NULL UNIQUE PRIMARY KEY, sku TEXT NOT NULL, description TEXT NOT NULL );";

/// Takes the SKU, then the description.
pub const INSERT_PRODUCT: &'static str = "INSERT INTO products VALUES( NULL, ?1, ?2 );";

pub const SELECT_PRODUCT: &'static str = "SELECT * FROM products WHERE id=?1;";

pub const CREATE_ORDER_TABLE: &'static str =
    "CREATE TABLE IF NOT EXISTS orders ( id INTEGER NOT NULL UNIQUE PRIMARY KEY );";

pub const NEW_ORDER: &'static str = "INSERT INTO orders VALUES( null );";

/// How the statement that moves a fulfillment begins, up to the list of the
/// statuses it may stand at.
pub const SET_STATUS_HEAD: &'static str =
    "UPDATE fulfillments SET fulfillmentStatus = $1 WHERE id = $2 AND fulfillmentStatus IN ( ";

/// How the statement that moves a fulfillment ends.
pub const SET_STATUS_TAIL: &'static str = " );";

/// A name as a text literal of SQL. The names of the statuses hold no
/// quote.
pub open spec fn quoted(name: Seq<char>) -> Seq<char> {
    "'"@ + name + "'"@
}

/// The names of the statuses as a list of text literals of SQL, separated
/// by commas.
pub open spec fn quoted_names(statuses: Seq<FulfillmentStatus>) -> Seq<char>
    decreases statuses.len(),
{
    if statuses.len() == 0 {
        Seq::empty()
    } else if statuses.len() == 1 {
        quoted(statuses[0].name())
    } else {
        quoted_names(statuses.drop_last()) + ", "@ + quoted(statuses.last().name())
    }
}

/// The statement that moves a fulfillment to `target`.
pub open spec fn spec_set_status(target: FulfillmentStatus) -> Seq<char> {
    SET_STATUS_HEAD@ + quoted_names(target.spec_allowed_priors()) + SET_STATUS_TAIL@
}

/// The statement that moves a fulfillment to `target`. It takes the new
/// status, then the identifier, and writes only where the fulfillment
/// stands at one of the allowed priors of `target`, which it lists.
pub fn set_status(target: FulfillmentStatus) -> (statement: String)
    ensures
        statement@ == spec_set_status(target),
{
    let priors = target.allowed_priors();
    let mut statement = SET_STATUS_HEAD.to_string();
    let mut i: usize = 0;
    while i < priors.len()
        invariant
            i <= priors.len(),
            statement@ == SET_STATUS_HEAD@ + quoted_names(priors@.take(i as int)),
        decreases priors.len() - i,
    {
        if i > 0 {
            statement.append(", ");
        }
        let name = String::from(priors[i]);
        statement.append("'");
        statement.append(name.as_str());
        statement.append("'");
        proof {
            let before = priors@.take(i as int);
            let now = priors@.take(i + 1);
            assert(now.drop_last() =~= before);
        }
        i += 1;
    }
    statement.append(SET_STATUS_TAIL);
    statement
}

} // verus!
