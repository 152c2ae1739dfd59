use vstd::prelude::*;
use crate::entity::{Commodity, Inventory, NewOrder};
use crate::random::rand_i64;

verus! {

/// Most units that a single order asks for.
pub const MAX_SOLD_PER_ORDER: i64 = 5;

/// Lowest price that a reprice assigns.
pub const MIN_PRICE: i64 = 1;

/// Highest price that a reprice assigns.
pub const MAX_PRICE: i64 = 1000;

/// Rows changed by a completed sale: one inventory update and one order insert.
pub const SELL_ROWS: u32 = 2;

/// Rows changed by a completed evaluation: one insert.
pub const EVALUATE_ROWS: u32 = 1;

/// Rows changed by a completed reprice: one update.
pub const REPRICE_ROWS: u32 = 1;

/// The three transaction bodies of the sustained load.
#[derive(Clone, Copy, Debug, PartialEq, Eq, Structural)]
pub enum Workload {
    Sell,
    Evaluate,
    Reprice,
}

/// The entity whose absence makes a transaction body fail.
#[derive(Clone, Copy, Debug, PartialEq, Eq, Structural)]
pub enum Missing {
    Commodity,
    Inventory,
    Consumer,
}

/// Draws an id among the `count` rows loaded by the bulk load, `[1, count]`.
pub fn draw_id(count: u32) -> (r: i64)
    requires
        count >= 1,
    ensures
        1 <= r <= count,
{
    rand_i64(1, count as i64)
}

/// Draws how many units an order asks for, `[1, MAX_SOLD_PER_ORDER]`.
pub fn draw_wanted() -> (r: i64)
    ensures
        1 <= r <= MAX_SOLD_PER_ORDER,
{
    rand_i64(1, MAX_SOLD_PER_ORDER)
}

/// Draws a new price, `[MIN_PRICE, MAX_PRICE]`.
pub fn draw_price() -> (r: i64)
    ensures
        MIN_PRICE <= r <= MAX_PRICE,
{
    rand_i64(MIN_PRICE, MAX_PRICE)
}

/// The writes of a sale: the commodity's new stock and the order that records it.
#[derive(Clone, Copy, Debug, PartialEq, Eq, Structural)]
pub struct Sale {
    pub inventory_after: Inventory,
    pub order: NewOrder,
}

/// Where a sale stands after each lookup of its transaction.
#[derive(Clone, Copy, Debug, PartialEq, Eq, Structural)]
pub enum SellStep {
    /// The commodity exists: look up its inventory next.
    FindInventory(Commodity),
    /// The commodity is in stock: check that the consumer exists next.
    FindConsumer(Commodity, Inventory),
    /// No sale is possible: the attempt changes no row.
    Skip,
    /// A lookup failed in a way that is fatal for the worker.
    Fatal(Missing),
    /// Write the sale; the attempt changes `SELL_ROWS` rows.
    Apply(Sale),
}

/// Units sold when `wanted` are asked for and `count` are in stock.
pub open spec fn sold_spec(wanted: int, count: int) -> int {
    if count < wanted { count } else { wanted }
}

/// Stock left after an attempt to sell `wanted` units: no sale from an empty stock.
pub open spec fn stock_after_sale(count: int, wanted: int) -> int {
    if count <= 0 { count } else { count - sold_spec(wanted, count) }
}

/// Stock left after a series of sale attempts, applied one after another.
pub open spec fn stock_after_sales(count: int, wanted: Seq<int>) -> int
    decreases wanted.len(),
{
    if wanted.len() == 0 {
        count
    } else {
        stock_after_sales(
            stock_after_sale(count, wanted[0]),
            wanted.subrange(1, wanted.len() as int),
        )
    }
}

/// A missing commodity is a soft skip: the sale is simply not made.
pub fn sell_on_commodity(found: Option<Commodity>) -> (step: SellStep)
    ensures
        step == match found {
            Some(c) => SellStep::FindInventory(c),
            None => SellStep::Skip,
        },
{
    match found {
        Some(c) => SellStep::FindInventory(c),
        None => SellStep::Skip,
    }
}

/// A missing inventory is fatal; an empty one is a soft skip.
pub fn sell_on_inventory(commodity: Commodity, found: Option<Inventory>) -> (step: SellStep)
    ensures
        step == match found {
            None => SellStep::Fatal(Missing::Inventory),
            Some(inv) => if inv.count <= 0 {
                SellStep::Skip
            } else {
                SellStep::FindConsumer(commodity, inv)
            },
        },
{
    match found {
        None => SellStep::Fatal(Missing::Inventory),
        Some(inv) => {
            if inv.count <= 0 {
                SellStep::Skip
            } else {
                SellStep::FindConsumer(commodity, inv)
            }
        },
    }
}

/// The step after the consumer lookup of a sale; see `sell_on_consumer`.
pub open spec fn sell_on_consumer_spec(
    consumer_id: i64,
    commodity: Commodity,
    inventory: Inventory,
    consumer_found: bool,
    wanted: i64,
) -> SellStep {
    if !consumer_found {
        SellStep::Fatal(Missing::Consumer)
    } else {
        let sold = sold_spec(wanted as int, inventory.count as int);
        SellStep::Apply(
            Sale {
                inventory_after: Inventory {
                    commodity_id: inventory.commodity_id,
                    count: (inventory.count - sold) as i64,
                },
                order: NewOrder {
                    consumer_id,
                    commodity_id: commodity.id,
                    sold_unit_price: commodity.price,
                    sold_number: sold as i64,
                },
            },
        )
    }
}

/// Rows changed by an attempt that ended in `step`; `None` while it is still
/// looking up rows or when it failed.
pub open spec fn step_rows(step: SellStep) -> Option<u32> {
    match step {
        SellStep::Apply(_) => Some(SELL_ROWS),
        SellStep::Skip => Some(0),
        _ => None,
    }
}

impl SellStep {
    pub fn rows(&self) -> (r: Option<u32>)
        ensures
            r == step_rows(*self),
    {
        match self {
            SellStep::Apply(_) => Some(SELL_ROWS),
            SellStep::Skip => Some(0),
            _ => None,
        }
    }
}

/// A missing consumer is fatal. Otherwise `min(wanted, stock)` units are sold:
/// the stock goes down by that much and the order records them at the
/// commodity's current price.
pub fn sell_on_consumer(
    consumer_id: i64,
    commodity: Commodity,
    inventory: Inventory,
    consumer_found: bool,
    wanted: i64,
) -> (step: SellStep)
    requires
        inventory.count > 0,
        1 <= wanted,
    ensures
        !consumer_found ==> step == SellStep::Fatal(Missing::Consumer),
        step == sell_on_consumer_spec(consumer_id, commodity, inventory, consumer_found, wanted),
        step matches SellStep::Apply(sale) ==> {
            &&& 0 <= sale.inventory_after.count < inventory.count
            &&& 1 <= sale.order.sold_number <= wanted
            &&& sale.order.sold_unit_price == commodity.price
            &&& sale.inventory_after.count + sale.order.sold_number == inventory.count
        },
{
    if !consumer_found {
        return SellStep::Fatal(Missing::Consumer);
    }
    let sold: i64 = if inventory.count < wanted { inventory.count } else { wanted };
    SellStep::Apply(
        Sale {
            inventory_after: Inventory {
                commodity_id: inventory.commodity_id,
                count: inventory.count - sold,
            },
            order: NewOrder {
                consumer_id,
                commodity_id: commodity.id,
                sold_unit_price: commodity.price,
                sold_number: sold,
            },
        },
    )
}

/// Starting from a stock that is not negative, no series of sale attempts, each
/// asking for at least one unit, takes the stock below zero or above where it began.
pub proof fn lemma_stock_never_negative(count: int, wanted: Seq<int>)
    requires
        count >= 0,
        forall|i: int| 0 <= i < wanted.len() ==> wanted[i] >= 1,
    ensures
        0 <= stock_after_sales(count, wanted) <= count,
    decreases wanted.len(),
{
    if wanted.len() > 0 {
        let rest = wanted.subrange(1, wanted.len() as int);
        lemma_stock_never_negative(stock_after_sale(count, wanted[0]), rest);
    }
}

/// A sale attempt that reports `SELL_ROWS` rows is an applied sale: one inventory
/// update, to the stock that the stock rule gives, and one order insert at the
/// commodity's price read in the same transaction.
pub proof fn lemma_two_rows_are_one_sale(
    consumer_id: i64,
    commodity: Commodity,
    inventory: Inventory,
    consumer_found: bool,
    wanted: i64,
)
    requires
        inventory.count > 0,
        1 <= wanted,
    ensures
        ({
            let step = sell_on_consumer_spec(
                consumer_id,
                commodity,
                inventory,
                consumer_found,
                wanted,
            );
            step_rows(step) == Some(SELL_ROWS) ==> (step matches SellStep::Apply(sale) && {
                &&& sale.inventory_after.commodity_id == inventory.commodity_id
                &&& sale.inventory_after.count == stock_after_sale(
                    inventory.count as int,
                    wanted as int,
                )
                &&& sale.order.commodity_id == commodity.id
                &&& sale.order.consumer_id == consumer_id
                &&& sale.order.sold_unit_price == commodity.price
                &&& sale.order.sold_number >= 1
            })
        }),
{
}

/// Evaluating needs both the commodity and the consumer; the commodity is looked
/// up first, and either one missing is fatal.
pub fn evaluate_check(commodity_found: bool, consumer_found: bool) -> (r: Result<u32, Missing>)
    ensures
        !commodity_found ==> r == Err::<u32, Missing>(Missing::Commodity),
        commodity_found && !consumer_found ==> r == Err::<u32, Missing>(Missing::Consumer),
        commodity_found && consumer_found ==> r == Ok::<u32, Missing>(EVALUATE_ROWS),
{
    if !commodity_found {
        Err(Missing::Commodity)
    } else if !consumer_found {
        Err(Missing::Consumer)
    } else {
        Ok(EVALUATE_ROWS)
    }
}

/// Repricing needs the commodity (its absence is fatal) and gives it `new_price`.
pub fn reprice(found: Option<Commodity>, new_price: i64) -> (r: Result<Commodity, Missing>)
    ensures
        found is None ==> r == Err::<Commodity, Missing>(Missing::Commodity),
        found matches Some(c) ==> r == Ok::<Commodity, Missing>(Commodity { id: c.id, price: new_price }),
{
    match found {
        Some(c) => Ok(Commodity { id: c.id, price: new_price }),
        None => Err(Missing::Commodity),
    }
}

} // verus!
