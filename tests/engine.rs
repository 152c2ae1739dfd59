use tiny_orders::entity::{
    initial_inventory, Commodity, Inventory, NewCommodity, NewConsumer, NewEvaluation, NewOrder,
    INITIAL_INVENTORY,
};
use tiny_orders::limiter::{tokens_per_tick, RateLimiter, TickAction, TICKS_PER_SECOND};
use tiny_orders::metrics::{
    percentile_index, percentiles, report_due, MetricsAggregator, PercentileSnapshot, Sample,
};
use tiny_orders::prepare::{
    shard_size, txn_wants_more, units_per_txn, BatchWorker, ROWS_PER_COMMODITY, ROWS_PER_CONSUMER,
};
use tiny_orders::random::{pick_in_range, rand_i64};
use tiny_orders::run;
use tiny_orders::service::{first_error, remaining_after, AttemptOutcome, TokenWorker, WorkerStep};
use tiny_orders::workload::{
    draw_price, draw_wanted, evaluate_check, reprice, sell_on_commodity, sell_on_consumer,
    sell_on_inventory, Missing, Sale, SellStep, Workload, SELL_ROWS,
};

#[test]
fn pick_in_range_reduces_modulo_size() {
    assert_eq!(pick_in_range(1, 10, 0), 1);
    assert_eq!(pick_in_range(1, 10, 25), 6);
    assert_eq!(pick_in_range(-3, 3, 13), -3 + 6);
    assert_eq!(pick_in_range(7, 7, u32::MAX), 7);
}

#[test]
fn rand_i64_stays_in_range() {
    for _ in 0..1000 {
        let v = rand_i64(1, 5);
        assert!((1..=5).contains(&v));
    }
    assert_eq!(rand_i64(4, 4), 4);
}

#[test]
fn tokens_per_tick_rounds_up_with_floor_of_one() {
    assert_eq!(TICKS_PER_SECOND, 50);
    assert_eq!(tokens_per_tick(0), 1);
    assert_eq!(tokens_per_tick(1), 1);
    assert_eq!(tokens_per_tick(50), 1);
    assert_eq!(tokens_per_tick(51), 2);
    assert_eq!(tokens_per_tick(1000), 20);
    assert_eq!(tokens_per_tick(1001), 21);
    assert_eq!(tokens_per_tick(u32::MAX), 85899346);
}

#[test]
fn limiter_offers_until_stopped_then_stays_closed() {
    let mut l = RateLimiter::start(100);
    let mut offered = 0u64;
    for _ in 0..50 {
        match l.tick(false) {
            TickAction::Offer(n) => offered += n as u64,
            TickAction::Close => panic!("closed too early"),
        }
    }
    // one second of ticks offers the budget
    assert_eq!(offered, 100);
    assert_eq!(l.tick(true), TickAction::Close);
    assert_eq!(l.tick(false), TickAction::Close);
    assert!(l.stopped);
}

#[test]
fn limiter_rate_within_one_token_per_tick() {
    let rate = 1234u32;
    let mut l = RateLimiter::start(rate);
    let mut offered = 0u64;
    let ticks = 500u64;
    for _ in 0..ticks {
        if let TickAction::Offer(n) = l.tick(false) {
            offered += n as u64;
        }
    }
    let f = TICKS_PER_SECOND as u64;
    assert!(ticks * rate as u64 <= f * offered);
    assert!(f * offered < ticks * rate as u64 + ticks * f);
}

#[test]
fn shards_sum_to_total_with_remainder_on_last() {
    let shares: Vec<u32> = (0..4).map(|i| shard_size(10, 4, i)).collect();
    assert_eq!(shares, vec![2, 2, 2, 4]);
    assert_eq!(shares.iter().sum::<u32>(), 10);
    let shares: Vec<u32> = (0..4).map(|i| shard_size(3, 4, i)).collect();
    assert_eq!(shares, vec![0, 0, 0, 3]);
    assert_eq!(shard_size(20, 1, 0), 20);
}

#[test]
fn batch_worker_plans_capped_transactions() {
    let mut w = BatchWorker::new(10, 4, 3, 3, 1);
    assert_eq!(w.remaining, 4);
    assert!(!w.is_done());
    assert_eq!(w.begin_txn(), 3);
    w.commit(3);
    assert_eq!(w.begin_txn(), 1);
    w.commit(1);
    assert!(w.is_done());
    assert_eq!(w.take_progress(), 4);
    assert_eq!(w.take_progress(), 0);
}

#[test]
fn batch_plan_covers_every_share() {
    for workers in 1..6u32 {
        let mut total = 0u32;
        for i in 0..workers {
            let mut w = BatchWorker::new(1000, workers, i, 64, 1);
            while !w.is_done() {
                let target = w.begin_txn();
                assert!(target >= 1 && target <= 64);
                let mut rows = 0u32;
                while txn_wants_more(rows, target) {
                    rows += 1;
                }
                w.commit(rows);
            }
            total += w.take_progress() as u32;
        }
        assert_eq!(total, 1000);
    }
}

#[test]
fn units_per_txn_fits_whole_units() {
    assert_eq!(units_per_txn(1024, 2), 512);
    assert_eq!(units_per_txn(1023, 2), 511);
    assert_eq!(units_per_txn(1, 2), 1);
    assert_eq!(units_per_txn(0, 1), 1);
    assert_eq!(units_per_txn(7, 1), 7);
}

#[test]
fn prepare_config_needs_a_worker() {
    assert!(tiny_orders::prepare::Config::new(10, 5, 1024, 4).has_workers());
    assert!(!tiny_orders::prepare::Config::new(10, 5, 1024, 0).has_workers());
}

#[test]
fn token_is_spent_floored_at_zero() {
    assert_eq!(remaining_after(5, 2), 3);
    assert_eq!(remaining_after(1, 2), 0);
    assert_eq!(remaining_after(3, 0), 3);
}

#[test]
fn token_worker_spends_each_token_before_receiving() {
    let mut w = TokenWorker::new();
    assert_eq!(w.on_receive(Some(3)), WorkerStep::Attempt);
    assert_eq!(w.on_attempt(AttemptOutcome::Committed(0)), WorkerStep::Attempt);
    assert_eq!(w.budget, 3);
    assert_eq!(w.on_attempt(AttemptOutcome::Committed(2)), WorkerStep::Attempt);
    assert_eq!(w.on_attempt(AttemptOutcome::Committed(2)), WorkerStep::Receive);
    assert_eq!(w.budget, 0);
    assert_eq!(w.on_receive(Some(0)), WorkerStep::Receive);
    assert_eq!(w.on_receive(Some(1)), WorkerStep::Attempt);
    assert_eq!(w.on_attempt(AttemptOutcome::Failed), WorkerStep::Fail);
    assert_eq!(w.on_receive(None), WorkerStep::Exit);
}

#[test]
fn first_error_wins() {
    let all_ok: Vec<Result<(), &str>> = vec![Ok(()), Ok(())];
    assert_eq!(first_error(all_ok), Ok(()));
    let mixed: Vec<Result<(), &str>> = vec![Ok(()), Err("a"), Ok(()), Err("b")];
    assert_eq!(first_error(mixed), Err("a"));
    let none: Vec<Result<(), &str>> = vec![];
    assert_eq!(first_error(none), Ok(()));
}

#[test]
fn sell_skips_missing_commodity() {
    assert_eq!(sell_on_commodity(None), SellStep::Skip);
    assert_eq!(SellStep::Skip.rows(), Some(0));
    let c = Commodity { id: 4, price: 17 };
    assert_eq!(sell_on_commodity(Some(c)), SellStep::FindInventory(c));
}

#[test]
fn sell_missing_inventory_is_fatal_and_empty_is_skipped() {
    let c = Commodity { id: 4, price: 17 };
    assert_eq!(sell_on_inventory(c, None), SellStep::Fatal(Missing::Inventory));
    assert_eq!(SellStep::Fatal(Missing::Inventory).rows(), None);
    let empty = Inventory { commodity_id: 4, count: 0 };
    assert_eq!(sell_on_inventory(c, Some(empty)), SellStep::Skip);
    let negative = Inventory { commodity_id: 4, count: -1 };
    assert_eq!(sell_on_inventory(c, Some(negative)), SellStep::Skip);
    let stocked = Inventory { commodity_id: 4, count: 9 };
    assert_eq!(sell_on_inventory(c, Some(stocked)), SellStep::FindConsumer(c, stocked));
}

#[test]
fn sell_missing_consumer_is_fatal() {
    let c = Commodity { id: 4, price: 17 };
    let inv = Inventory { commodity_id: 4, count: 9 };
    assert_eq!(sell_on_consumer(2, c, inv, false, 3), SellStep::Fatal(Missing::Consumer));
}

#[test]
fn sell_caps_at_stock_and_snapshots_price() {
    let c = Commodity { id: 4, price: 17 };
    let inv = Inventory { commodity_id: 4, count: 3 };
    let step = sell_on_consumer(2, c, inv, true, 5);
    let expected = Sale {
        inventory_after: Inventory { commodity_id: 4, count: 0 },
        order: NewOrder { consumer_id: 2, commodity_id: 4, sold_unit_price: 17, sold_number: 3 },
    };
    assert_eq!(step, SellStep::Apply(expected));
    assert_eq!(step.rows(), Some(SELL_ROWS));
    assert_eq!(SELL_ROWS, 2);
    let inv = Inventory { commodity_id: 4, count: 100 };
    match sell_on_consumer(2, c, inv, true, 4) {
        SellStep::Apply(s) => {
            assert_eq!(s.inventory_after.count, 96);
            assert_eq!(s.order.sold_number, 4);
        }
        other => panic!("unexpected {:?}", other),
    }
}

#[test]
fn repeated_sales_never_take_stock_below_zero() {
    let c = Commodity { id: 1, price: 5 };
    let mut inv = Inventory { commodity_id: 1, count: 7 };
    let mut sold = 0i64;
    for _ in 0..20 {
        let step = match sell_on_inventory(c, Some(inv)) {
            SellStep::FindConsumer(c, i) => sell_on_consumer(1, c, i, true, draw_wanted()),
            other => other,
        };
        if let SellStep::Apply(s) = step {
            sold += s.order.sold_number;
            inv = s.inventory_after;
        }
        assert!(inv.count >= 0);
    }
    assert_eq!(inv.count, 0);
    assert_eq!(sold, 7);
}

#[test]
fn evaluate_needs_both_entities() {
    assert_eq!(evaluate_check(false, true), Err(Missing::Commodity));
    assert_eq!(evaluate_check(false, false), Err(Missing::Commodity));
    assert_eq!(evaluate_check(true, false), Err(Missing::Consumer));
    assert_eq!(evaluate_check(true, true), Ok(1));
}

#[test]
fn reprice_sets_new_price_or_fails() {
    assert_eq!(reprice(None, 5), Err(Missing::Commodity));
    let c = Commodity { id: 8, price: 40 };
    assert_eq!(reprice(Some(c), 999), Ok(Commodity { id: 8, price: 999 }));
    for _ in 0..200 {
        let p = draw_price();
        assert!((1..=1000).contains(&p));
    }
}

#[test]
fn percentile_indices_are_nearest_rank() {
    assert_eq!(percentile_index(10, 500), 5);
    assert_eq!(percentile_index(10, 999), 9);
    assert_eq!(percentile_index(1, 999), 0);
    assert_eq!(percentile_index(1000, 999), 999);
    assert_eq!(percentile_index(3, 800), 2);
}

#[test]
fn percentiles_of_sorted_buffer() {
    let sorted: Vec<u32> = (1..=10).collect();
    let s = percentiles(&sorted, 42).unwrap();
    assert_eq!(
        s,
        PercentileSnapshot { p50: 6, p80: 9, p95: 10, p99: 10, p999: 10, max: 10, rows: 42 }
    );
    assert_eq!(percentiles(&vec![], 3), None);
}

#[test]
fn aggregator_sorts_reports_and_resets() {
    let mut m = MetricsAggregator::new();
    assert_eq!(m.snapshot(), None);
    m.record(Sample { rows: 2, latency_ms: 30 });
    m.record(Sample { rows: 1, latency_ms: 10 });
    m.record(Sample { rows: 0, latency_ms: 20 });
    let s = m.snapshot().unwrap();
    assert_eq!(s.p50, 20);
    assert_eq!(s.max, 30);
    assert_eq!(s.rows, 3);
    assert!(m.latencies.is_empty());
    assert_eq!(m.rows, 0);
}

#[test]
fn aggregator_reports_only_after_a_second() {
    assert!(!report_due(1000));
    assert!(report_due(1001));
    let mut m = MetricsAggregator::new();
    assert_eq!(m.on_sample(Sample { rows: 1, latency_ms: 5 }, 10), None);
    assert_eq!(m.on_sample(Sample { rows: 1, latency_ms: 7 }, 1000), None);
    let s = m.on_sample(Sample { rows: 2, latency_ms: 6 }, 1500).unwrap();
    assert_eq!(s.p50, 6);
    assert_eq!(s.max, 7);
    assert_eq!(s.rows, 4);
    assert_eq!(m.rows, 0);
}

#[test]
fn downgrade_runs_evaluations_only() {
    let c = run::Config::new(10, 5, 4, true, 100);
    assert_eq!(c.workloads(), vec![Workload::Evaluate]);
    let c = run::Config::new(10, 5, 4, false, 100);
    assert_eq!(c.workloads(), vec![Workload::Sell, Workload::Evaluate, Workload::Reprice]);
}

#[test]
fn drawn_ids_stay_in_configured_range() {
    let c = run::Config::new(10, 5, 4, false, 100);
    assert!(c.has_ids());
    for _ in 0..500 {
        let id = c.draw_commodity_id();
        assert!((1..=10).contains(&id));
        let id = c.draw_consumer_id();
        assert!((1..=5).contains(&id));
    }
    assert!(!run::Config::new(0, 5, 4, false, 100).has_ids());
    assert!(!run::Config::new(3, 0, 4, false, 100).has_ids());
}

#[test]
fn fake_rows_have_text_and_valid_fields() {
    for _ in 0..50 {
        let c = NewCommodity::rand_fake_new();
        assert!((1..=99).contains(&c.price));
        assert!(!c.title.is_empty());
        assert!(!c.description.is_empty());
    }
    assert!(!NewConsumer::rand_fake_new().name.is_empty());
    let e = NewEvaluation::rand_fake_new(3, 9);
    assert_eq!((e.consumer_id, e.commodity_id), (3, 9));
    assert!(!e.evaluation.is_empty());
    let inv = initial_inventory(12);
    assert_eq!(inv, Inventory { commodity_id: 12, count: INITIAL_INVENTORY });
    assert_eq!(INITIAL_INVENTORY, 100000);
}

fn rows_committed(count: u32, workers: u32, txn_size: u32, unit_rows: u32) -> u32 {
    let mut total = 0u32;
    for i in 0..workers {
        let mut w = BatchWorker::new(count, workers, i, txn_size, unit_rows);
        while !w.is_done() {
            let target = w.begin_txn();
            let mut rows = 0u32;
            let mut done = 0u32;
            while txn_wants_more(done, target) {
                rows += unit_rows;
                done += 1;
            }
            assert!(rows <= txn_size.max(unit_rows));
            w.commit(rows);
        }
        total += w.take_progress() as u32;
    }
    total
}

#[test]
fn commodity_load_is_exact_for_any_worker_count() {
    // ten commodities with their inventories are twenty rows
    for workers in 1..8 {
        assert_eq!(rows_committed(10, workers, 1024, ROWS_PER_COMMODITY), 20);
        assert_eq!(rows_committed(10, workers, 3, ROWS_PER_COMMODITY), 20);
        assert_eq!(rows_committed(10, workers, 1, ROWS_PER_COMMODITY), 20);
    }
}

#[test]
fn prepare_ten_commodities_five_consumers_default_settings() {
    // four workers and 1024-row transactions, as the command line defaults give
    let c = tiny_orders::prepare::Config::new(10, 5, 1024, 4);
    assert_eq!(rows_committed(c.commodity_count, c.concurrent, c.txn_size, ROWS_PER_COMMODITY), 20);
    assert_eq!(rows_committed(c.consumer_count, c.concurrent, c.txn_size, ROWS_PER_CONSUMER), 5);
    let shares: Vec<u32> = (0..4).map(|i| shard_size(10, 4, i)).collect();
    assert_eq!(shares, vec![2, 2, 2, 4]);
}
