use vstd::prelude::*;
use crate::workload::{draw_id, Workload};

verus! {

/// Settings of the sustained-load phase.
#[derive(Clone, Copy, Debug, PartialEq, Eq, Structural)]
pub struct Config {
    pub commodity_count: u32,
    pub consumer_count: u32,
    /// Workers per transaction body.
    pub concurrent: u32,
    /// Run the reduced mix, evaluations only.
    pub downgrade: bool,
    /// Global budget of operations per second.
    pub rate_limit: u32,
}

/// The transaction bodies that a run drives: evaluations alone in downgrade
/// mode, otherwise sales, evaluations and reprices.
pub open spec fn workloads_spec(downgrade: bool) -> Seq<Workload> {
    if downgrade {
        seq![Workload::Evaluate]
    } else {
        seq![Workload::Sell, Workload::Evaluate, Workload::Reprice]
    }
}

impl Config {
    pub fn new(
        commodity_count: u32,
        consumer_count: u32,
        concurrent: u32,
        downgrade: bool,
        rate_limit: u32,
    ) -> (r: Config)
        ensures
            r.commodity_count == commodity_count,
            r.consumer_count == consumer_count,
            r.concurrent == concurrent,
            r.downgrade == downgrade,
            r.rate_limit == rate_limit,
    {
        Config { commodity_count, consumer_count, concurrent, downgrade, rate_limit }
    }

    /// Whether ids can be drawn: both configured ranges hold at least one id.
    pub fn has_ids(&self) -> (r: bool)
        ensures
            r == (self.commodity_count >= 1 && self.consumer_count >= 1),
    {
        self.commodity_count >= 1 && self.consumer_count >= 1
    }

    /// Whether each transaction body has a worker to run it.
    pub fn has_workers(&self) -> (r: bool)
        ensures
            r == (self.concurrent >= 1),
    {
        self.concurrent >= 1
    }

    pub fn workloads(&self) -> (r: Vec<Workload>)
        ensures
            r@ == workloads_spec(self.downgrade),
    {
        let mut r: Vec<Workload> = Vec::new();
        if !self.downgrade {
            r.push(Workload::Sell);
        }
        r.push(Workload::Evaluate);
        if !self.downgrade {
            r.push(Workload::Reprice);
        }
        proof {
            assert(r@ =~= workloads_spec(self.downgrade));
        }
        r
    }

    /// A commodity id among those loaded, `[1, commodity_count]`; never taken from
    /// the rows that the store holds now.
    pub fn draw_commodity_id(&self) -> (r: i64)
        requires
            self.commodity_count >= 1,
        ensures
            1 <= r <= self.commodity_count,
    {
        draw_id(self.commodity_count)
    }

    /// A consumer id among those loaded, `[1, consumer_count]`.
    pub fn draw_consumer_id(&self) -> (r: i64)
        requires
            self.consumer_count >= 1,
        ensures
            1 <= r <= self.consumer_count,
    {
        draw_id(self.consumer_count)
    }
}

/// In downgrade mode no sale runs, so no order is ever inserted; the
/// evaluations still run.
pub proof fn lemma_downgrade_runs_no_sale()
    ensures
        forall|i: int|
            0 <= i < workloads_spec(true).len() ==> workloads_spec(true)[i] != Workload::Sell,
        workloads_spec(true).contains(Workload::Evaluate),
{
    assert(workloads_spec(true)[0] == Workload::Evaluate);
}

} // verus!
