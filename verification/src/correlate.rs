//! Time-domain cross-correlation: a full sweep over all non-negative
//! lags, reporting the lag of maximum score (ties to the smallest lag).

use vstd::prelude::*;

use crate::errors::AnalysisError;
use crate::signal::{corr_at, dot, lemma_dot_bound, lemma_dot_take_succ, MAX_WINDOW_LEN,
    WINDOW_LIMIT};
use crate::window::SignalWindow;

verus! {

/// Progress notification emitted during a correlation sweep: the lag
/// the sweep has reached, out of the total number of lags.
#[derive(Clone, Copy, Debug, PartialEq, Eq, Structural)]
pub struct Heartbeat {
    pub lag: usize,
    pub total: usize,
}

/// Result of one correlation sweep: one `(lag, score)` pair per
/// non-negative lag, and the lag of maximum score. Immutable; owned by
/// the caller.
pub struct CorrelationResult {
    pub pairs: Vec<(usize, i128)>,
    pub best_lag: usize,
}

/// The result a sweep over windows `a` and `b` must report: scores for
/// the contiguous lag range `0..len`, and a best lag that attains the
/// maximum score, strictly greater than every score at a smaller lag
/// (so equal maxima resolve to the smallest lag).
pub open spec fn result_matches(r: CorrelationResult, a: Seq<i64>, b: Seq<i64>) -> bool {
    let n = a.len() as int;
    &&& r.pairs@.len() == n
    &&& forall|s: int| 0 <= s < n ==> (#[trigger] r.pairs@[s]).0 == s
    &&& forall|s: int| 0 <= s < n ==> (#[trigger] r.pairs@[s]).1 == corr_at(a, b, s)
    &&& 0 <= r.best_lag < n
    &&& forall|s: int| 0 <= s < n ==> #[trigger] corr_at(a, b, s) <= corr_at(
        a,
        b,
        r.best_lag as int,
    )
    &&& forall|s: int| 0 <= s < r.best_lag ==> #[trigger] corr_at(a, b, s) < corr_at(
        a,
        b,
        r.best_lag as int,
    )
}

/// Number of heartbeats a sweep of `n` lags emits at cadence `k`: one
/// at every lag divisible by `k`, starting at lag zero.
pub open spec fn heartbeat_count(n: int, k: int) -> int {
    (n - 1) / k + 1
}

/// The heartbeats a sweep of `n` lags emits at cadence `k`, in order.
pub open spec fn heartbeats_for(n: int, k: int) -> Seq<Heartbeat> {
    Seq::new(
        heartbeat_count(n, k) as nat,
        |j: int| Heartbeat { lag: (j * k) as usize, total: n as usize },
    )
}

/// Sweeps all non-negative lags of two equal-length windows and records
/// a heartbeat event at a fixed cadence of lags. The heartbeats are a
/// side channel for an external reporter and never alter the scores.
pub struct CorrelationEngine {
    interval: usize,
    events: Vec<Heartbeat>,
}

impl CorrelationEngine {
    /// Heartbeat cadence, in lags.
    pub closed spec fn interval_spec(&self) -> int {
        self.interval as int
    }

    /// Heartbeats recorded so far and not yet drained.
    pub closed spec fn events_spec(&self) -> Seq<Heartbeat> {
        self.events@
    }

    pub open spec fn wf(&self) -> bool {
        self.interval_spec() >= 1
    }

    pub fn new(heartbeat_interval: usize) -> (e: CorrelationEngine)
        requires
            heartbeat_interval >= 1,
        ensures
            e.wf(),
            e.interval_spec() == heartbeat_interval,
            e.events_spec() == Seq::<Heartbeat>::empty(),
    {
        CorrelationEngine { interval: heartbeat_interval, events: Vec::new() }
    }

    /// Heartbeats recorded by past sweeps, oldest first.
    pub fn events(&self) -> (v: &Vec<Heartbeat>)
        ensures
            v@ == self.events_spec(),
    {
        &self.events
    }

    /// Forgets all recorded heartbeats.
    pub fn clear_events(&mut self)
        ensures
            final(self).events_spec() == Seq::<Heartbeat>::empty(),
            final(self).interval_spec() == old(self).interval_spec(),
    {
        self.events.clear();
    }

    /// Cross-correlates two equal-length, non-empty windows over every
    /// non-negative lag. Fails with `LengthMismatch` on unequal lengths
    /// and with `EmptyWindow` on empty input; otherwise the result holds
    /// one score per lag in `0..len` and the smallest lag of maximum
    /// score, and one heartbeat per cadence step is appended to the
    /// recorded events.
    pub fn correlate(&mut self, a: &SignalWindow, b: &SignalWindow) -> (r: Result<
        CorrelationResult,
        AnalysisError,
    >)
        requires
            old(self).wf(),
            a.wf(),
            b.wf(),
        ensures
            final(self).wf(),
            final(self).interval_spec() == old(self).interval_spec(),
            a@.len() != b@.len() ==> {
                &&& r == Err::<CorrelationResult, AnalysisError>(AnalysisError::LengthMismatch)
                &&& final(self).events_spec() == old(self).events_spec()
            },
            a@.len() == b@.len() && a@.len() == 0 ==> {
                &&& r == Err::<CorrelationResult, AnalysisError>(AnalysisError::EmptyWindow)
                &&& final(self).events_spec() == old(self).events_spec()
            },
            a@.len() == b@.len() && a@.len() > 0 ==> {
                &&& r is Ok
                &&& result_matches(r->Ok_0, a@, b@)
                &&& final(self).events_spec() == old(self).events_spec() + heartbeats_for(
                    a@.len() as int,
                    old(self).interval_spec(),
                )
            },
    {
        let n = a.len();
        if n != b.len() {
            return Err(AnalysisError::LengthMismatch);
        }
        if n == 0 {
            return Err(AnalysisError::EmptyWindow);
        }
        let k = self.interval;
        let ghost old_events = self.events@;

        let mut pairs: Vec<(usize, i128)> = Vec::new();
        let mut best_lag: usize = 0;
        let mut best_score: i128 = window_score(a, b, 0);
        pairs.push((0, best_score));
        self.events.push(Heartbeat { lag: 0, total: n });
        let ghost mut m: int = 1;
        proof {
            assert(self.events@ =~= old_events + Seq::new(1nat, |j: int| Heartbeat {
                lag: (j * k as int) as usize,
                total: n as usize,
            }));
        }

        let mut shift: usize = 1;
        while shift < n
            invariant
                1 <= shift <= n,
                n == a@.len(),
                n == b@.len(),
                a.wf(),
                b.wf(),
                k == self.interval,
                k >= 1,
                pairs@.len() == shift,
                forall|s: int| 0 <= s < shift ==> (#[trigger] pairs@[s]).0 == s,
                forall|s: int| 0 <= s < shift ==> (#[trigger] pairs@[s]).1 == corr_at(a@, b@, s),
                best_lag < shift,
                best_score == corr_at(a@, b@, best_lag as int),
                forall|s: int| 0 <= s < shift ==> #[trigger] corr_at(a@, b@, s) <= best_score,
                forall|s: int| 0 <= s < best_lag ==> #[trigger] corr_at(a@, b@, s) < best_score,
                1 <= m,
                (m - 1) * (k as int) < shift <= m * (k as int),
                self.events@ == old_events + Seq::new(
                    m as nat,
                    |j: int| Heartbeat { lag: (j * k as int) as usize, total: n as usize },
                ),
            decreases n - shift,
        {
            if shift % k == 0 {
                self.events.push(Heartbeat { lag: shift, total: n });
                proof {
                    vstd::arithmetic::div_mod::lemma_fundamental_div_mod(shift as int, k as int);
                    assert(shift == (k as int) * ((shift as int) / (k as int)));
                    let q = (shift as int) / (k as int);
                    assert(m - 1 < q <= m) by (nonlinear_arith)
                        requires
                            (m - 1) * (k as int) < q * (k as int) <= m * (k as int),
                            k >= 1,
                    ;
                    assert(q * (k as int) == (k as int) * q) by (nonlinear_arith);
                    assert(shift == m * (k as int));
                    assert((m + 1) * (k as int) == m * (k as int) + (k as int))
                        by (nonlinear_arith);
                    assert(Seq::new((m + 1) as nat, |j: int| Heartbeat {
                        lag: (j * k as int) as usize,
                        total: n as usize,
                    }) =~= Seq::new(m as nat, |j: int| Heartbeat {
                        lag: (j * k as int) as usize,
                        total: n as usize,
                    }).push(Heartbeat { lag: shift, total: n }));
                    m = m + 1;
                }
            } else {
                proof {
                    vstd::arithmetic::div_mod::lemma_mod_multiples_basic(m, k as int);
                    assert(shift < m * (k as int));
                }
            }
            let score = window_score(a, b, shift);
            pairs.push((shift, score));
            if score > best_score {
                best_lag = shift;
                best_score = score;
            }
            shift = shift + 1;
        }

        proof {
            let ki = k as int;
            let r = n - 1 - (m - 1) * ki;
            assert(m * ki - (m - 1) * ki == ki) by (nonlinear_arith);
            assert(0 <= r < ki);
            assert((m - 1) * ki == ki * (m - 1)) by (nonlinear_arith);
            vstd::arithmetic::div_mod::lemma_fundamental_div_mod_converse(
                n - 1,
                ki,
                m - 1,
                r,
            );
            assert(m == heartbeat_count(n as int, ki));
            assert(self.events@ =~= old_events + heartbeats_for(n as int, ki));
        }
        Ok(CorrelationResult { pairs, best_lag })
    }
}

/// Twice the dot product of two equal-length windows never exceeds the
/// sum of their self dot products.
proof fn lemma_dot_cauchy(x: Seq<i64>, y: Seq<i64>)
    requires
        x.len() == y.len(),
    ensures
        2 * dot(x, y) <= dot(x, x) + dot(y, y),
    decreases x.len(),
{
    if x.len() == 0 {
    } else {
        lemma_dot_cauchy(x.drop_last(), y.drop_last());
        assert(2 * (x.last() * y.last()) <= x.last() * x.last() + y.last() * y.last())
            by (nonlinear_arith);
    }
}

/// A self dot product is nonnegative.
proof fn lemma_dot_self_nonneg(x: Seq<i64>)
    ensures
        dot(x, x) >= 0,
    decreases x.len(),
{
    if x.len() == 0 {
    } else {
        lemma_dot_self_nonneg(x.drop_last());
        assert(x.last() * x.last() >= 0) by (nonlinear_arith);
    }
}

/// A self dot product splits at any cut into the self dot products of
/// the two pieces.
proof fn lemma_dot_self_split(x: Seq<i64>, k: int)
    requires
        0 <= k <= x.len(),
    ensures
        dot(x, x) == dot(x.take(k), x.take(k)) + dot(x.skip(k), x.skip(k)),
    decreases x.len(),
{
    if k == x.len() {
        assert(x.take(k) =~= x);
        assert(x.skip(k) =~= Seq::<i64>::empty());
    } else {
        lemma_dot_self_split(x.drop_last(), k);
        assert(x.drop_last().take(k) =~= x.take(k));
        assert(x.skip(k).drop_last() =~= x.drop_last().skip(k));
        assert(x.skip(k).last() == x.last());
    }
}

/// Self-correlation attains its maximum score at lag zero: at every
/// non-negative lag the score is at most the score at lag zero.
pub proof fn lemma_self_correlation_peak(a: Seq<i64>)
    ensures
        forall|s: int| 0 <= s < a.len() ==> #[trigger] corr_at(a, a, s) <= corr_at(a, a, 0),
{
    assert(a.take(a.len() as int) =~= a);
    assert(a.skip(0) =~= a);
    assert(corr_at(a, a, 0) == dot(a, a));
    assert forall|s: int| 0 <= s < a.len() implies #[trigger] corr_at(a, a, s) <= corr_at(
        a,
        a,
        0,
    ) by {
        let n = a.len() as int;
        let x = a.take(n - s);
        let y = a.skip(s);
        lemma_dot_cauchy(x, y);
        lemma_dot_self_split(a, n - s);
        lemma_dot_self_nonneg(a.skip(n - s));
        lemma_dot_self_split(a, s);
        lemma_dot_self_nonneg(a.take(s));
    }
}

/// A correlation result of a window against itself reports lag zero as
/// the best lag: the maximum is attained there, and ties resolve to the
/// smallest lag.
pub proof fn lemma_self_correlation_best_lag(r: CorrelationResult, a: Seq<i64>)
    requires
        a.len() > 0,
        result_matches(r, a, a),
    ensures
        r.best_lag == 0,
{
    lemma_self_correlation_peak(a);
    if r.best_lag != 0 {
        assert(corr_at(a, a, 0) < corr_at(a, a, r.best_lag as int));
        assert(corr_at(a, a, r.best_lag as int) <= corr_at(a, a, 0));
    }
}

/// Correlation score of two equal-length windows at one lag: the dot
/// product of `a`'s leading samples with `b` shifted, accumulated in
/// double-width precision.
fn window_score(a: &SignalWindow, b: &SignalWindow, shift: usize) -> (r: i128)
    requires
        a.wf(),
        b.wf(),
        a@.len() == b@.len(),
        shift < a@.len(),
    ensures
        r == corr_at(a@, b@, shift as int),
{
    let n = a.len();
    let m = n - shift;
    let ghost x = a@.take(m as int);
    let ghost y = b@.skip(shift as int);
    proof {
        assert(x.len() == m);
        assert(y.len() == m);
    }
    let mut acc: i128 = 0;
    let mut i: usize = 0;
    while i < m
        invariant
            i <= m,
            m == n - shift,
            n == a@.len(),
            n == b@.len(),
            shift < n,
            a.wf(),
            b.wf(),
            x == a@.take(m as int),
            y == b@.skip(shift as int),
            x.len() == m,
            y.len() == m,
            acc == dot(x.take(i as int), y.take(i as int)),
            -((i as int) * WINDOW_LIMIT * WINDOW_LIMIT) <= acc <= (i as int) * WINDOW_LIMIT
                * WINDOW_LIMIT,
        decreases m - i,
    {
        proof {
            assert(x[i as int] == a@[i as int]);
            assert(y[i as int] == b@[i as int + shift]);
            assert(-(WINDOW_LIMIT as int * WINDOW_LIMIT) <= (a@[i as int] as int) * (b@[i as int
                + shift] as int) <= WINDOW_LIMIT as int * WINDOW_LIMIT) by (nonlinear_arith)
                requires
                    -WINDOW_LIMIT <= a@[i as int] <= WINDOW_LIMIT,
                    -WINDOW_LIMIT <= b@[i as int + shift] <= WINDOW_LIMIT,
            ;
            lemma_dot_take_succ(x, y, i as int);
            lemma_dot_bound(x.take(i as int + 1), y.take(i as int + 1), WINDOW_LIMIT as int);
            assert((i as int + 1) * WINDOW_LIMIT * WINDOW_LIMIT <= MAX_WINDOW_LEN as int
                * WINDOW_LIMIT * WINDOW_LIMIT) by (nonlinear_arith)
                requires
                    i as int + 1 <= MAX_WINDOW_LEN as int,
            ;
            assert((i as int + 1) * (WINDOW_LIMIT as int * WINDOW_LIMIT) == (i as int + 1)
                * WINDOW_LIMIT * WINDOW_LIMIT) by (nonlinear_arith);
        }
        let p = (a.get(i) as i128) * (b.get(i + shift) as i128);
        acc = acc + p;
        i = i + 1;
    }
    proof {
        assert(x.take(m as int) =~= x);
        assert(y.take(m as int) =~= y);
        assert(corr_at(a@, b@, shift as int) == dot(x, y));
    }
    acc
}

} // verus!
