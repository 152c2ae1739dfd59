use vstd::prelude::*;

verus! {

/// Milliseconds that must pass before the next report is due.
pub const REPORT_INTERVAL_MS: u64 = 1000;

/// One completed transaction attempt: rows it changed and how long it took.
#[derive(Clone, Copy, Debug, PartialEq, Eq, Structural)]
pub struct Sample {
    pub rows: u32,
    pub latency_ms: u32,
}

/// Latency percentiles (milliseconds) and rows changed over one reporting interval.
#[derive(Clone, Copy, Debug, PartialEq, Eq, Structural)]
pub struct PercentileSnapshot {
    pub p50: u32,
    pub p80: u32,
    pub p95: u32,
    pub p99: u32,
    pub p999: u32,
    pub max: u32,
    pub rows: u64,
}

pub open spec fn is_sorted(s: Seq<u32>) -> bool {
    forall|i: int, j: int| 0 <= i <= j < s.len() ==> s[i] <= s[j]
}

/// Nearest-rank index of the quantile `permille / 1000` in a buffer of `len`
/// samples: `floor(len * permille / 1000)`.
pub open spec fn rank_index(len: int, permille: int) -> int {
    len * permille / 1000
}

/// The value at the nearest-rank index of a sorted buffer.
pub open spec fn percentile_at(s: Seq<u32>, permille: int) -> u32 {
    s[rank_index(s.len() as int, permille)]
}

/// The snapshot of a sorted, nonempty buffer with `rows` rows changed.
pub open spec fn snapshot_of(s: Seq<u32>, rows: u64) -> PercentileSnapshot {
    PercentileSnapshot {
        p50: percentile_at(s, 500),
        p80: percentile_at(s, 800),
        p95: percentile_at(s, 950),
        p99: percentile_at(s, 990),
        p999: percentile_at(s, 999),
        max: s[s.len() - 1],
        rows,
    }
}

/// Relies on `slice::sort`: the same elements, in ascending order.
#[verifier::external_body]
fn sort_ascending(v: &mut Vec<u32>)
    ensures
        is_sorted(final(v)@),
        final(v)@.to_multiset() == old(v)@.to_multiset(),
{
    v.sort();
}

/// Whether a report is due after `elapsed_ms` milliseconds since the last one.
pub fn report_due(elapsed_ms: u64) -> (r: bool)
    ensures
        r == (elapsed_ms > REPORT_INTERVAL_MS),
{
    elapsed_ms > REPORT_INTERVAL_MS
}

/// Nearest-rank index of `permille / 1000` in a buffer of `len >= 1` samples;
/// it always falls inside the buffer.
pub fn percentile_index(len: usize, permille: u32) -> (r: usize)
    requires
        len >= 1,
        permille < 1000,
    ensures
        r == rank_index(len as int, permille as int),
        r < len,
{
    proof {
        assert((len as int) * (permille as int) <= (usize::MAX as int) * 1000) by (nonlinear_arith)
            requires
                len <= usize::MAX,
                permille < 1000,
        ;
    }
    let wide: u128 = (len as u128) * (permille as u128) / 1000;
    proof {
        let l = len as int;
        let p = permille as int;
        assert(l * p < l * 1000) by (nonlinear_arith)
            requires
                l >= 1,
                0 <= p < 1000,
        ;
        assert(l * p / 1000 < l) by (nonlinear_arith)
            requires
                l * p < l * 1000,
                l >= 1,
                p >= 0,
        ;
        assert(wide == l * p / 1000);
    }
    wide as usize
}

/// Percentiles of a sorted buffer; `None` for an empty one.
pub fn percentiles(sorted: &Vec<u32>, rows: u64) -> (r: Option<PercentileSnapshot>)
    requires
        is_sorted(sorted@),
    ensures
        sorted@.len() == 0 ==> r.is_none(),
        sorted@.len() > 0 ==> r == Some(snapshot_of(sorted@, rows)),
{
    let len = sorted.len();
    if len == 0 {
        return None;
    }
    Some(
        PercentileSnapshot {
            p50: sorted[percentile_index(len, 500)],
            p80: sorted[percentile_index(len, 800)],
            p95: sorted[percentile_index(len, 950)],
            p99: sorted[percentile_index(len, 990)],
            p999: sorted[percentile_index(len, 999)],
            max: sorted[len - 1],
            rows,
        },
    )
}

/// The single consumer of samples: the latencies and rows of the current interval.
pub struct MetricsAggregator {
    pub latencies: Vec<u32>,
    pub rows: u64,
}

/// Rows counted after adding `n` to `total`, held at `u64::MAX`.
pub open spec fn add_rows(total: u64, n: u32) -> u64 {
    if total + n <= u64::MAX { (total + n) as u64 } else { u64::MAX }
}

impl MetricsAggregator {
    pub fn new() -> (r: MetricsAggregator)
        ensures
            r.latencies@.len() == 0,
            r.rows == 0,
    {
        MetricsAggregator { latencies: Vec::new(), rows: 0 }
    }

    /// Adds one sample to the current interval.
    pub fn record(&mut self, sample: Sample)
        ensures
            final(self).latencies@ == old(self).latencies@.push(sample.latency_ms),
            final(self).rows == add_rows(old(self).rows, sample.rows),
    {
        self.latencies.push(sample.latency_ms);
        self.rows = self.rows.saturating_add(sample.rows as u64);
    }

    /// Closes the interval: the snapshot of its samples in ascending order (none
    /// when it holds no sample), then an empty buffer and a zero row count.
    pub fn snapshot(&mut self) -> (r: Option<PercentileSnapshot>)
        ensures
            final(self).latencies@.len() == 0,
            final(self).rows == 0,
            old(self).latencies@.len() == 0 ==> r.is_none(),
            old(self).latencies@.len() > 0 ==> exists|s: Seq<u32>|
                is_sorted(s) && s.to_multiset() == old(self).latencies@.to_multiset() && r
                    == Some(snapshot_of(s, old(self).rows)),
    {
        sort_ascending(&mut self.latencies);
        let ghost sorted = self.latencies@;
        let r = percentiles(&self.latencies, self.rows);
        proof {
            vstd::seq_lib::to_multiset_len(sorted);
            vstd::seq_lib::to_multiset_len(old(self).latencies@);
        }
        self.latencies.clear();
        self.rows = 0;
        r
    }

    /// Takes one sample and, when a report is due, closes the interval.
    pub fn on_sample(&mut self, sample: Sample, elapsed_ms: u64) -> (r: Option<
        PercentileSnapshot,
    >)
        ensures
            elapsed_ms <= REPORT_INTERVAL_MS ==> {
                &&& r.is_none()
                &&& final(self).latencies@ == old(self).latencies@.push(sample.latency_ms)
                &&& final(self).rows == add_rows(old(self).rows, sample.rows)
            },
            elapsed_ms > REPORT_INTERVAL_MS ==> {
                let buffered = old(self).latencies@.push(sample.latency_ms);
                &&& final(self).latencies@.len() == 0
                &&& final(self).rows == 0
                &&& exists|s: Seq<u32>|
                    is_sorted(s) && s.to_multiset() == buffered.to_multiset() && r == Some(
                        snapshot_of(s, add_rows(old(self).rows, sample.rows)),
                    )
            },
    {
        self.record(sample);
        if report_due(elapsed_ms) {
            self.snapshot()
        } else {
            None
        }
    }
}

} // verus!
