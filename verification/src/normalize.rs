//! DC-offset removal: subtracting the arithmetic mean from a window.

use vstd::prelude::*;

use crate::errors::AnalysisError;
use crate::signal::{
    capture_ranged, lemma_div_bound, lemma_sum_take_succ, mean_of, mean_removed, sum_of,
    window_ranged, SAMPLE_LIMIT,
};
use crate::window::SignalWindow;

verus! {

/// Stateless DC-offset remover. Pure: the output is a function of the
/// input window alone.
pub struct Normalizer {}

impl Normalizer {
    /// Subtracts the arithmetic mean (accumulated in double-width
    /// precision, rounded toward zero) from every sample of a non-empty
    /// window. Fails with `EmptyWindow` on a zero-length window. The sum
    /// of the output window is smaller in magnitude than the window
    /// length, so the output mean is zero to within one quantization step.
    pub fn normalize(window: &SignalWindow) -> (r: Result<SignalWindow, AnalysisError>)
        requires
            window.wf(),
            capture_ranged(window@),
        ensures
            window@.len() == 0 ==> r == Err::<SignalWindow, AnalysisError>(
                AnalysisError::EmptyWindow,
            ),
            window@.len() > 0 ==> {
                &&& r is Ok
                &&& r->Ok_0@ == mean_removed(window@)
                &&& r->Ok_0.wf()
                &&& -(window@.len() as int) < sum_of(r->Ok_0@) < window@.len() as int
            },
    {
        let n = window.len();
        if n == 0 {
            return Err(AnalysisError::EmptyWindow);
        }
        let ghost s = window@;

        // Double-width accumulation of the sum.
        let mut acc: i64 = 0;
        let mut i: usize = 0;
        while i < n
            invariant
                i <= n,
                n == s.len(),
                window@ == s,
                window.wf(),
                capture_ranged(s),
                acc == sum_of(s.take(i as int)),
                -((i as int) * SAMPLE_LIMIT) <= acc <= (i as int) * SAMPLE_LIMIT,
            decreases n - i,
        {
            proof {
                lemma_sum_take_succ(s, i as int);
            }
            acc = acc + window.get(i);
            i = i + 1;
        }
        proof {
            assert(s.take(n as int) =~= s);
        }

        // Mean rounded toward zero, computed with unsigned division on
        // the magnitude.
        let mean: i64 = if acc >= 0 {
            let q = (acc as u64) / (n as u64);
            proof {
                lemma_div_bound(acc as int, n as int, SAMPLE_LIMIT as int);
            }
            q as i64
        } else {
            let q = ((-acc) as u64) / (n as u64);
            proof {
                lemma_div_bound(-acc as int, n as int, SAMPLE_LIMIT as int);
            }
            -(q as i64)
        };
        proof {
            assert(mean == mean_of(s));
            assert(-SAMPLE_LIMIT <= mean <= SAMPLE_LIMIT);
        }

        // Subtract the mean from every sample.
        let mut out: Vec<i64> = Vec::new();
        let mut j: usize = 0;
        while j < n
            invariant
                j <= n,
                n == s.len(),
                window@ == s,
                window.wf(),
                capture_ranged(s),
                mean == mean_of(s),
                -SAMPLE_LIMIT <= mean <= SAMPLE_LIMIT,
                out@.len() == j,
                forall|k: int| 0 <= k < j ==> out@[k] == s[k] - mean,
                sum_of(out@) == sum_of(s.take(j as int)) - (j as int) * mean,
            decreases n - j,
        {
            let v = window.get(j) - mean;
            proof {
                lemma_sum_take_succ(s, j as int);
                assert(out@.push(v).drop_last() =~= out@);
                assert((j as int + 1) * mean == (j as int) * mean + mean) by (nonlinear_arith);
            }
            out.push(v);
            j = j + 1;
        }
        proof {
            assert(s.take(n as int) =~= s);
            assert(out@ =~= mean_removed(s));
            assert(window_ranged(out@));
            lemma_mean_removed_sum_small(s);
        }
        Ok(SignalWindow::from_ranged_samples(out))
    }
}

/// The sum of a mean-removed non-empty window is smaller in magnitude
/// than the window length: the residual is exactly the division
/// remainder left by rounding the mean toward zero.
pub proof fn lemma_mean_removed_sum_small(s: Seq<i64>)
    requires
        s.len() > 0,
    ensures
        -(s.len() as int) < sum_of(s) - (s.len() as int) * mean_of(s) < s.len() as int,
{
    let t = sum_of(s);
    let n = s.len() as int;
    if t >= 0 {
        vstd::arithmetic::div_mod::lemma_fundamental_div_mod(t, n);
        vstd::arithmetic::div_mod::lemma_mod_bound(t, n);
        assert(t - n * (t / n) == t % n);
    } else {
        vstd::arithmetic::div_mod::lemma_fundamental_div_mod(-t, n);
        vstd::arithmetic::div_mod::lemma_mod_bound(-t, n);
        assert(n * -((-t) / n) == -(n * ((-t) / n))) by (nonlinear_arith);
        assert(t - n * mean_of(s) == -((-t) % n));
    }
}

} // verus!
