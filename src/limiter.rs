use vstd::prelude::*;

verus! {

/// Ticks of the limiter's clock per second.
pub const TICKS_PER_SECOND: u32 = 50;

/// Milliseconds between two ticks.
pub const TICK_INTERVAL_MS: u64 = 20;

/// Capacity of the bounded token queue between the limiter and the workers.
pub const TOKEN_QUEUE_CAPACITY: usize = 10;

/// How long one tick waits for room in the token queue before dropping its token.
pub const SEND_TIMEOUT_MS: u64 = 50;

/// Tokens minted on each tick: `max(1, ceil(rate / TICKS_PER_SECOND))`.
pub open spec fn tokens_per_tick_spec(rate_per_second: u32) -> int {
    let f = TICKS_PER_SECOND as int;
    let c = (rate_per_second as int + f - 1) / f;
    if c < 1 { 1 } else { c }
}

pub fn tokens_per_tick(rate_per_second: u32) -> (r: u32)
    ensures
        r == tokens_per_tick_spec(rate_per_second),
        r >= 1,
{
    let q: u32 = rate_per_second / TICKS_PER_SECOND;
    let c: u32 = if rate_per_second % TICKS_PER_SECOND != 0 { q + 1 } else { q };
    if c < 1 { 1 } else { c }
}

/// What the limiter does on one tick of its clock.
#[derive(Clone, Copy, Debug, PartialEq, Eq, Structural)]
pub enum TickAction {
    /// Offer a token worth this many operations to the queue.
    Offer(u32),
    /// Stop minting and close the token stream.
    Close,
}

/// Token-bucket limiter: mints a fixed amount on every tick until it sees the stop signal.
#[derive(Clone, Copy, Debug, PartialEq, Eq, Structural)]
pub struct RateLimiter {
    pub tokens_per_tick: u32,
    pub stopped: bool,
}

/// One tick: a stop request, seen before producing, closes the stream for good.
pub open spec fn tick_spec(s: RateLimiter, stop_requested: bool) -> (RateLimiter, TickAction) {
    if s.stopped || stop_requested {
        (RateLimiter { stopped: true, ..s }, TickAction::Close)
    } else {
        (s, TickAction::Offer(s.tokens_per_tick))
    }
}

/// The actions of a limiter that starts in `s` and sees `stops[i]` before tick `i`.
pub open spec fn tick_actions(s: RateLimiter, stops: Seq<bool>) -> Seq<TickAction>
    decreases stops.len(),
{
    if stops.len() == 0 {
        Seq::empty()
    } else {
        let (next, a) = tick_spec(s, stops[0]);
        seq![a] + tick_actions(next, stops.subrange(1, stops.len() as int))
    }
}

/// Tokens offered by a sequence of actions.
pub open spec fn offered_total(acts: Seq<TickAction>) -> int
    decreases acts.len(),
{
    if acts.len() == 0 {
        0
    } else {
        let rest = offered_total(acts.subrange(1, acts.len() as int));
        match acts[0] {
            TickAction::Offer(n) => n + rest,
            TickAction::Close => rest,
        }
    }
}

impl RateLimiter {
    pub open spec fn wf(&self) -> bool {
        self.tokens_per_tick >= 1
    }

    /// A running limiter for the given budget of operations per second.
    pub fn start(rate_per_second: u32) -> (r: RateLimiter)
        ensures
            r.tokens_per_tick == tokens_per_tick_spec(rate_per_second),
            !r.stopped,
            r.wf(),
    {
        RateLimiter { tokens_per_tick: tokens_per_tick(rate_per_second), stopped: false }
    }

    /// Decides one tick, given whether the stop signal is set.
    pub fn tick(&mut self, stop_requested: bool) -> (a: TickAction)
        ensures
            (*final(self), a) == tick_spec(*old(self), stop_requested),
    {
        if self.stopped || stop_requested {
            self.stopped = true;
            TickAction::Close
        } else {
            TickAction::Offer(self.tokens_per_tick)
        }
    }
}

proof fn lemma_stopped_closes(s: RateLimiter, stops: Seq<bool>)
    requires
        s.stopped,
    ensures
        tick_actions(s, stops).len() == stops.len(),
        forall|j: int| 0 <= j < stops.len() ==> tick_actions(s, stops)[j] == TickAction::Close,
        offered_total(tick_actions(s, stops)) == 0,
    decreases stops.len(),
{
    if stops.len() > 0 {
        let rest = stops.subrange(1, stops.len() as int);
        lemma_stopped_closes(s, rest);
        let acts = tick_actions(s, stops);
        assert(acts.subrange(1, acts.len() as int) =~= tick_actions(s, rest));
    }
}

/// Once the stop signal is first seen before tick `k`, tick `k` and every later one
/// close the stream, every earlier tick offered `tokens_per_tick`, and exactly
/// `k * tokens_per_tick` tokens were offered in all.
pub proof fn lemma_issuance_stops(s: RateLimiter, stops: Seq<bool>, k: int)
    requires
        !s.stopped,
        0 <= k < stops.len(),
        stops[k],
        forall|j: int| 0 <= j < k ==> !stops[j],
    ensures
        tick_actions(s, stops).len() == stops.len(),
        forall|j: int|
            0 <= j < k ==> tick_actions(s, stops)[j] == TickAction::Offer(s.tokens_per_tick),
        forall|j: int| k <= j < stops.len() ==> tick_actions(s, stops)[j] == TickAction::Close,
        offered_total(tick_actions(s, stops)) == k * s.tokens_per_tick,
    decreases k,
{
    let rest = stops.subrange(1, stops.len() as int);
    let acts = tick_actions(s, stops);
    if k == 0 {
        let next = RateLimiter { stopped: true, ..s };
        lemma_stopped_closes(next, rest);
        assert(acts.subrange(1, acts.len() as int) =~= tick_actions(next, rest));
        assert forall|j: int| 0 <= j < stops.len() implies acts[j] == TickAction::Close by {
            if j > 0 {
                assert(acts[j] == tick_actions(next, rest)[j - 1]);
            }
        }
    } else {
        lemma_issuance_stops(s, rest, k - 1);
        assert(acts.subrange(1, acts.len() as int) =~= tick_actions(s, rest));
        assert forall|j: int| 0 <= j < stops.len() implies (if j < k {
            acts[j] == TickAction::Offer(s.tokens_per_tick)
        } else {
            acts[j] == TickAction::Close
        }) by {
            if j > 0 {
                assert(acts[j] == tick_actions(s, rest)[j - 1]);
            }
        }
        assert(k * s.tokens_per_tick == s.tokens_per_tick + (k - 1) * s.tokens_per_tick)
            by (nonlinear_arith);
    }
}

/// While no stop is seen, `n` ticks offer `n * tokens_per_tick` tokens.
pub proof fn lemma_running_offers(s: RateLimiter, stops: Seq<bool>)
    requires
        !s.stopped,
        forall|j: int| 0 <= j < stops.len() ==> !stops[j],
    ensures
        tick_actions(s, stops).len() == stops.len(),
        offered_total(tick_actions(s, stops)) == stops.len() * s.tokens_per_tick,
    decreases stops.len(),
{
    if stops.len() > 0 {
        let rest = stops.subrange(1, stops.len() as int);
        lemma_running_offers(s, rest);
        let acts = tick_actions(s, stops);
        assert(acts[0] == TickAction::Offer(s.tokens_per_tick));
        assert(acts.subrange(1, acts.len() as int) =~= tick_actions(s, rest));
        let t = s.tokens_per_tick as int;
        let m = rest.len() as int;
        assert((m + 1) * t == t + m * t) by (nonlinear_arith);
    }
}

/// For a nonzero budget, a limiter left running for `n >= 1` ticks
/// (`n / TICKS_PER_SECOND` seconds) offers the budget's share of those ticks,
/// `n * rate / TICKS_PER_SECOND`, plus less than one token per tick.
pub proof fn lemma_rate_approximation(rate_per_second: u32, stops: Seq<bool>)
    requires
        rate_per_second >= 1,
        stops.len() >= 1,
        forall|j: int| 0 <= j < stops.len() ==> !stops[j],
    ensures
        ({
            let s = RateLimiter {
                tokens_per_tick: tokens_per_tick_spec(rate_per_second) as u32,
                stopped: false,
            };
            let total = offered_total(tick_actions(s, stops));
            let n = stops.len() as int;
            let f = TICKS_PER_SECOND as int;
            &&& n * rate_per_second <= f * total
            &&& f * total < n * rate_per_second + n * f
        }),
{
    let s = RateLimiter {
        tokens_per_tick: tokens_per_tick_spec(rate_per_second) as u32,
        stopped: false,
    };
    lemma_running_offers(s, stops);
    let t = tokens_per_tick_spec(rate_per_second);
    let r = rate_per_second as int;
    let n = stops.len() as int;
    assert(r <= 50 * t && 50 * t < r + 50) by {
        assert(t == (r + 49) / 50);
    }
    assert(n * r <= 50 * (n * t) && 50 * (n * t) < n * r + n * 50) by (nonlinear_arith)
        requires
            r <= 50 * t,
            50 * t < r + 50,
            n >= 1,
    {
        assert(n * (50 * t) < n * (r + 50));
        assert(n * r <= n * (50 * t));
    }
}

} // verus!
