use vstd::prelude::*;

verus! {

/// Settings of the bulk-load phase.
#[derive(Clone, Copy, Debug, PartialEq, Eq, Structural)]
pub struct Config {
    pub commodity_count: u32,
    pub consumer_count: u32,
    /// Most rows a single transaction is meant to write.
    pub txn_size: u32,
    /// Number of parallel workers.
    pub concurrent: u32,
}

/// Rows written for one commodity: the commodity and its inventory.
pub const ROWS_PER_COMMODITY: u32 = 2;

/// Rows written for one consumer.
pub const ROWS_PER_CONSUMER: u32 = 1;

impl Config {
    pub fn new(commodity_count: u32, consumer_count: u32, txn_size: u32, concurrent: u32) -> (r:
        Config)
        ensures
            r.commodity_count == commodity_count,
            r.consumer_count == consumer_count,
            r.txn_size == txn_size,
            r.concurrent == concurrent,
    {
        Config { commodity_count, consumer_count, txn_size, concurrent }
    }

    /// Whether the load has a worker to run it.
    pub fn has_workers(&self) -> (r: bool)
        ensures
            r == (self.concurrent >= 1),
    {
        self.concurrent >= 1
    }
}

/// The share of `count` units of work given to worker `index` of `workers`: the
/// integer quotient, with the remainder added to the last worker.
pub open spec fn shard_spec(count: u32, workers: u32, index: int) -> int {
    let base = count as int / workers as int;
    if index == workers - 1 {
        base + count as int % workers as int
    } else {
        base
    }
}

/// The shares of workers `0 .. n`, added up.
pub open spec fn shards_total(count: u32, workers: u32, n: int) -> int
    decreases n,
{
    if n <= 0 {
        0
    } else {
        shards_total(count, workers, n - 1) + shard_spec(count, workers, n - 1)
    }
}

proof fn lemma_shard_fits(count: u32, workers: u32, index: int)
    requires
        workers >= 1,
        0 <= index < workers,
    ensures
        0 <= shard_spec(count, workers, index) <= count,
{
    let w = workers as int;
    let b = count as int / w;
    vstd::arithmetic::div_mod::lemma_fundamental_div_mod(count as int, w);
    assert(b <= w * b) by (nonlinear_arith)
        requires
            w >= 1,
            b >= 0,
    ;
}

pub fn shard_size(count: u32, workers: u32, index: u32) -> (r: u32)
    requires
        workers >= 1,
        index < workers,
    ensures
        r == shard_spec(count, workers, index as int),
{
    let base: u32 = count / workers;
    if index == workers - 1 {
        proof {
            lemma_shard_fits(count, workers, index as int);
        }
        base + count % workers
    } else {
        base
    }
}

proof fn lemma_first_shards(count: u32, workers: u32, n: int)
    requires
        workers >= 1,
        0 <= n < workers,
    ensures
        shards_total(count, workers, n) == n * (count as int / workers as int),
    decreases n,
{
    if n > 0 {
        lemma_first_shards(count, workers, n - 1);
        let b = count as int / workers as int;
        assert(n * b == (n - 1) * b + b) by (nonlinear_arith);
    } else {
        assert(0 * (count as int / workers as int) == 0);
    }
}

/// The shares of all workers add up to the requested total exactly, the last
/// worker absorbing the remainder.
pub proof fn lemma_shards_cover_total(count: u32, workers: u32)
    requires
        workers >= 1,
    ensures
        shards_total(count, workers, workers as int) == count,
{
    let w = workers as int;
    lemma_first_shards(count, workers, w - 1);
    let b = count as int / w;
    assert((w - 1) * b + b == w * b) by (nonlinear_arith);
    assert(count as int == w * b + count as int % w) by (nonlinear_arith)
        requires
            w >= 1,
            b == count as int / w,
    {
        vstd::arithmetic::div_mod::lemma_fundamental_div_mod(count as int, w);
    }
}

/// Units of work that one transaction may hold: as many whole units of
/// `unit_rows` rows as fit in `txn_size` rows, and at least one.
pub open spec fn units_per_txn_spec(txn_size: u32, unit_rows: u32) -> int {
    let fit = txn_size as int / unit_rows as int;
    if fit >= 1 { fit } else { 1 }
}

pub fn units_per_txn(txn_size: u32, unit_rows: u32) -> (r: u32)
    requires
        unit_rows >= 1,
    ensures
        r == units_per_txn_spec(txn_size, unit_rows),
        r >= 1,
{
    let fit: u32 = txn_size / unit_rows;
    if fit >= 1 { fit } else { 1 }
}

/// Units that the next transaction of a worker runs.
pub open spec fn txn_target_spec(remaining: u32, cap: u32) -> int {
    if remaining < cap { remaining as int } else { cap as int }
}

/// The units of the transactions that a worker opens for the rest of its share, added up.
pub open spec fn planned_units(remaining: u32, cap: u32) -> int
    decreases remaining,
{
    if remaining == 0 || cap == 0 {
        0
    } else {
        let t = txn_target_spec(remaining, cap);
        t + planned_units((remaining - t) as u32, cap)
    }
}

/// The transactions of a worker run exactly the units of its share.
pub proof fn lemma_targets_cover_share(share: u32, cap: u32)
    requires
        cap >= 1,
    ensures
        planned_units(share, cap) == share,
    decreases share,
{
    if share > 0 {
        let t = txn_target_spec(share, cap);
        lemma_targets_cover_share((share - t) as u32, cap);
    }
}

/// Rows that workers `0 .. n` commit when a load of `count` units of
/// `unit_rows` rows each is run with transactions of at most `cap` units.
pub open spec fn load_rows(count: u32, workers: u32, cap: u32, unit_rows: u32, n: int) -> int
    decreases n,
{
    if n <= 0 {
        0
    } else {
        load_rows(count, workers, cap, unit_rows, n - 1) + unit_rows * planned_units(
            shard_spec(count, workers, n - 1) as u32,
            cap,
        )
    }
}

proof fn lemma_load_prefix(count: u32, workers: u32, cap: u32, unit_rows: u32, n: int)
    requires
        workers >= 1,
        cap >= 1,
        0 <= n <= workers,
    ensures
        load_rows(count, workers, cap, unit_rows, n) == unit_rows * shards_total(count, workers, n),
    decreases n,
{
    if n > 0 {
        lemma_load_prefix(count, workers, cap, unit_rows, n - 1);
        lemma_shard_fits(count, workers, n - 1);
        lemma_targets_cover_share(shard_spec(count, workers, n - 1) as u32, cap);
        let u = unit_rows as int;
        let prev = shards_total(count, workers, n - 1);
        let sh = shard_spec(count, workers, n - 1);
        assert(u * prev + u * sh == u * (prev + sh)) by (nonlinear_arith);
    } else {
        assert(unit_rows * 0 == 0);
    }
}

/// A load of `count` units of `unit_rows` rows each, run by any number of workers
/// with any transaction size, commits exactly `unit_rows * count` rows.
pub proof fn lemma_load_commits_exact(count: u32, workers: u32, txn_size: u32, unit_rows: u32)
    requires
        workers >= 1,
        unit_rows >= 1,
    ensures
        load_rows(
            count,
            workers,
            units_per_txn_spec(txn_size, unit_rows) as u32,
            unit_rows,
            workers as int,
        ) == unit_rows * count,
{
    lemma_load_prefix(
        count,
        workers,
        units_per_txn_spec(txn_size, unit_rows) as u32,
        unit_rows,
        workers as int,
    );
    lemma_shards_cover_total(count, workers);
}

/// The bulk load of a configuration with at least one worker writes exactly
/// `ROWS_PER_COMMODITY * commodity_count` rows for the commodities with their
/// inventories, and exactly `consumer_count` rows for the consumers.
pub proof fn lemma_prepare_writes_requested_rows(config: Config)
    requires
        config.concurrent >= 1,
    ensures
        load_rows(
            config.commodity_count,
            config.concurrent,
            units_per_txn_spec(config.txn_size, ROWS_PER_COMMODITY) as u32,
            ROWS_PER_COMMODITY,
            config.concurrent as int,
        ) == 2 * config.commodity_count,
        load_rows(
            config.consumer_count,
            config.concurrent,
            units_per_txn_spec(config.txn_size, ROWS_PER_CONSUMER) as u32,
            ROWS_PER_CONSUMER,
            config.concurrent as int,
        ) == config.consumer_count,
{
    lemma_load_commits_exact(
        config.commodity_count,
        config.concurrent,
        config.txn_size,
        ROWS_PER_COMMODITY,
    );
    lemma_load_commits_exact(
        config.consumer_count,
        config.concurrent,
        config.txn_size,
        ROWS_PER_CONSUMER,
    );
}

/// One bulk-load worker: the units of its share still to run, how many units one
/// transaction may hold, and the rows committed since its last progress report.
#[derive(Clone, Copy, Debug, PartialEq, Eq, Structural)]
pub struct BatchWorker {
    pub remaining: u32,
    pub units_per_txn: u32,
    pub unreported: u64,
}

impl BatchWorker {
    /// Worker `index` of `workers`, sharing `count` units of `unit_rows` rows each,
    /// in transactions of at most `txn_size` rows (one unit when a unit is larger).
    pub fn new(count: u32, workers: u32, index: u32, txn_size: u32, unit_rows: u32) -> (r:
        BatchWorker)
        requires
            workers >= 1,
            index < workers,
            unit_rows >= 1,
        ensures
            r.remaining == shard_spec(count, workers, index as int),
            r.units_per_txn == units_per_txn_spec(txn_size, unit_rows),
            r.units_per_txn >= 1,
            r.unreported == 0,
    {
        BatchWorker {
            remaining: shard_size(count, workers, index),
            units_per_txn: units_per_txn(txn_size, unit_rows),
            unreported: 0,
        }
    }

    pub fn is_done(&self) -> (r: bool)
        ensures
            r == (self.remaining == 0),
    {
        self.remaining == 0
    }

    /// Opens the next transaction: returns how many units it runs,
    /// `min(units_per_txn, remaining)`, and takes them off the remaining share.
    pub fn begin_txn(&mut self) -> (target: u32)
        requires
            old(self).remaining > 0,
            old(self).units_per_txn > 0,
        ensures
            target == txn_target_spec(old(self).remaining, old(self).units_per_txn),
            1 <= target <= old(self).remaining,
            final(self).remaining == old(self).remaining - target,
            final(self).units_per_txn == old(self).units_per_txn,
            final(self).unreported == old(self).unreported,
    {
        let target: u32 = if self.remaining < self.units_per_txn {
            self.remaining
        } else {
            self.units_per_txn
        };
        self.remaining = self.remaining - target;
        target
    }

    /// Records the rows of a committed transaction.
    pub fn commit(&mut self, rows: u32)
        ensures
            final(self).remaining == old(self).remaining,
            final(self).units_per_txn == old(self).units_per_txn,
            final(self).unreported == if old(self).unreported + rows <= u64::MAX {
                old(self).unreported + rows
            } else {
                u64::MAX as int
            },
    {
        self.unreported = self.unreported.saturating_add(rows as u64);
    }

    /// Hands out the rows committed since the last report and starts counting anew.
    pub fn take_progress(&mut self) -> (rows: u64)
        ensures
            rows == old(self).unreported,
            final(self).unreported == 0,
            final(self).remaining == old(self).remaining,
            final(self).units_per_txn == old(self).units_per_txn,
    {
        let rows = self.unreported;
        self.unreported = 0;
        rows
    }
}

/// Whether a transaction that has run `done` units runs another one to reach its
/// `target` units.
pub fn txn_wants_more(done: u32, target: u32) -> (r: bool)
    ensures
        r == (done < target),
{
    done < target
}

} // verus!
