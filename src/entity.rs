use vstd::prelude::*;
use crate::random::rand_i64;

verus! {

/// Relies on `fakeit::hipster::sentence`: random filler text, empty when
/// `word_count` is not positive and otherwise starting with a capitalised,
/// non-empty word.
pub assume_specification[ fakeit::hipster::sentence ](word_count: i64) -> (r: String)
    ensures
        word_count <= 0 ==> r@.len() == 0,
        word_count >= 1 ==> r@.len() >= 1,
;

/// Relies on `fakeit::name::full`: a random first and last name joined by a space.
pub assume_specification[ fakeit::name::full ]() -> (r: String)
    ensures
        r@.len() >= 1,
;

/// Units in stock given to every commodity by the bulk load.
pub const INITIAL_INVENTORY: i64 = 100000;

/// Lowest price of a freshly loaded commodity.
pub const MIN_LOAD_PRICE: i64 = 1;

/// Highest price of a freshly loaded commodity.
pub const MAX_LOAD_PRICE: i64 = 99;

/// A commodity row as the workload reads it.
#[derive(Clone, Copy, Debug, PartialEq, Eq, Structural)]
pub struct Commodity {
    pub id: i64,
    pub price: i64,
}

/// An inventory row as the workload reads it.
#[derive(Clone, Copy, Debug, PartialEq, Eq, Structural)]
pub struct Inventory {
    pub commodity_id: i64,
    pub count: i64,
}

/// A commodity to be inserted by the bulk load; the store assigns its id.
#[derive(Clone, Debug)]
pub struct NewCommodity {
    pub title: String,
    pub price: i64,
    pub description: String,
}

/// A consumer to be inserted by the bulk load; the store assigns its id.
#[derive(Clone, Debug)]
pub struct NewConsumer {
    pub name: String,
}

/// An evaluation to be inserted; the store assigns its id.
#[derive(Clone, Debug)]
pub struct NewEvaluation {
    pub consumer_id: i64,
    pub commodity_id: i64,
    pub evaluation: String,
}

/// An order to be inserted; the store assigns its id.
#[derive(Clone, Copy, Debug, PartialEq, Eq, Structural)]
pub struct NewOrder {
    pub consumer_id: i64,
    pub commodity_id: i64,
    /// The commodity's price at the moment of the sale.
    pub sold_unit_price: i64,
    pub sold_number: i64,
}

impl NewCommodity {
    /// A commodity with a short random title, a longer random description and a
    /// random price in `[MIN_LOAD_PRICE, MAX_LOAD_PRICE]`.
    pub fn rand_fake_new() -> (r: NewCommodity)
        ensures
            MIN_LOAD_PRICE <= r.price <= MAX_LOAD_PRICE,
            r.title@.len() >= 1,
            r.description@.len() >= 1,
    {
        let title = fakeit::hipster::sentence(5);
        let price = rand_i64(MIN_LOAD_PRICE, MAX_LOAD_PRICE);
        let description = fakeit::hipster::sentence(30);
        NewCommodity { title, price, description }
    }
}

impl NewConsumer {
    /// A consumer with a random full name.
    pub fn rand_fake_new() -> (r: NewConsumer)
        ensures
            r.name@.len() >= 1,
    {
        NewConsumer { name: fakeit::name::full() }
    }
}

impl NewEvaluation {
    /// An evaluation of `commodity_id` by `consumer_id` with random text.
    pub fn rand_fake_new(consumer_id: i64, commodity_id: i64) -> (r: NewEvaluation)
        ensures
            r.consumer_id == consumer_id,
            r.commodity_id == commodity_id,
            r.evaluation@.len() >= 1,
    {
        NewEvaluation { consumer_id, commodity_id, evaluation: fakeit::hipster::sentence(30) }
    }
}

/// The inventory row loaded for a freshly inserted commodity.
pub fn initial_inventory(commodity_id: i64) -> (r: Inventory)
    ensures
        r.commodity_id == commodity_id,
        r.count == INITIAL_INVENTORY,
{
    Inventory { commodity_id, count: INITIAL_INVENTORY }
}

} // verus!
