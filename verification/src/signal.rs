//! Sample model: amplitude bounds and the spec-level arithmetic
//! (sums, means, dot products) that the pipeline's contracts use.

use vstd::prelude::*;

verus! {

/// Largest number of samples a buffer or window may hold.
pub const MAX_WINDOW_LEN: usize = 16777216;

/// Amplitude bound for captured (quantized) samples.
pub const SAMPLE_LIMIT: i64 = 2147483648;

/// Amplitude bound for window samples; mean removal can at most double
/// the capture amplitude, so normalized windows stay within this bound.
pub const WINDOW_LIMIT: i64 = 4294967296;

/// All samples lie within the capture amplitude range.
pub open spec fn capture_ranged(s: Seq<i64>) -> bool {
    forall|i: int| 0 <= i < s.len() ==> -SAMPLE_LIMIT <= #[trigger] s[i] <= SAMPLE_LIMIT
}

/// All samples lie within the window amplitude range.
pub open spec fn window_ranged(s: Seq<i64>) -> bool {
    forall|i: int| 0 <= i < s.len() ==> -WINDOW_LIMIT <= #[trigger] s[i] <= WINDOW_LIMIT
}

/// Sum of all samples of a window.
pub open spec fn sum_of(s: Seq<i64>) -> int
    decreases s.len(),
{
    if s.len() == 0 {
        0
    } else {
        sum_of(s.drop_last()) + s.last()
    }
}

/// Arithmetic mean of a non-empty window, rounded toward zero.
pub open spec fn mean_of(s: Seq<i64>) -> int {
    let t = sum_of(s);
    if t >= 0 {
        t / (s.len() as int)
    } else {
        -((-t) / (s.len() as int))
    }
}

/// The window with its arithmetic mean subtracted from every sample.
pub open spec fn mean_removed(s: Seq<i64>) -> Seq<i64> {
    Seq::new(s.len(), |i: int| (s[i] - mean_of(s)) as i64)
}

/// Dot product pairing `a` and `b` from the end; applied to
/// equal-length sequences it is the usual componentwise product sum.
pub open spec fn dot(a: Seq<i64>, b: Seq<i64>) -> int
    decreases a.len(),
{
    if a.len() == 0 || b.len() == 0 {
        0
    } else {
        dot(a.drop_last(), b.drop_last()) + a.last() * b.last()
    }
}

/// Correlation score of two equal-length windows at a non-negative lag:
/// the dot product of `a`'s leading samples with `b` shifted left by `shift`.
pub open spec fn corr_at(a: Seq<i64>, b: Seq<i64>, shift: int) -> int {
    dot(a.take(a.len() - shift), b.skip(shift))
}

/// Extending both sides of a dot product by one sample adds that
/// sample pair's product.
pub proof fn lemma_dot_take_succ(a: Seq<i64>, b: Seq<i64>, i: int)
    requires
        0 <= i < a.len(),
        i < b.len(),
    ensures
        dot(a.take(i + 1), b.take(i + 1)) == dot(a.take(i), b.take(i)) + a[i] * b[i],
{
    assert(a.take(i + 1).drop_last() =~= a.take(i));
    assert(b.take(i + 1).drop_last() =~= b.take(i));
    assert(a.take(i + 1).last() == a[i]);
    assert(b.take(i + 1).last() == b[i]);
}

/// Extending a sum by one sample adds that sample.
pub proof fn lemma_sum_take_succ(s: Seq<i64>, i: int)
    requires
        0 <= i < s.len(),
    ensures
        sum_of(s.take(i + 1)) == sum_of(s.take(i)) + s[i],
{
    assert(s.take(i + 1).drop_last() =~= s.take(i));
    assert(s.take(i + 1).last() == s[i]);
}

/// A nonnegative value divided by a positive window length stays within
/// any bound `b` that the value times the length respects.
pub proof fn lemma_div_bound(t: int, n: int, b: int)
    requires
        0 <= t,
        0 < n,
        t <= n * b,
    ensures
        0 <= t / n <= b,
{
    vstd::arithmetic::div_mod::lemma_div_pos_is_pos(t, n);
    vstd::arithmetic::div_mod::lemma_fundamental_div_mod(t, n);
    vstd::arithmetic::div_mod::lemma_mod_bound(t, n);
    assert(n * (t / n) <= n * b);
    assert(t / n <= b) by (nonlinear_arith)
        requires
            0 < n,
            n * (t / n) <= n * b,
    ;
}

/// A dot product of windows bounded by `b` in magnitude is bounded by
/// the paired length times `b` squared.
pub proof fn lemma_dot_bound(a: Seq<i64>, b: Seq<i64>, m: int)
    requires
        a.len() == b.len(),
        0 <= m,
        forall|i: int| 0 <= i < a.len() ==> -m <= #[trigger] a[i] <= m,
        forall|i: int| 0 <= i < b.len() ==> -m <= #[trigger] b[i] <= m,
    ensures
        -(a.len() * m * m) <= dot(a, b) <= a.len() * m * m,
    decreases a.len(),
{
    if a.len() == 0 {
    } else {
        let n = a.len() as int;
        lemma_dot_bound(a.drop_last(), b.drop_last(), m);
        let d = dot(a.drop_last(), b.drop_last());
        assert(-((n - 1) * m * m) <= d <= (n - 1) * m * m);
        assert(-(m * m) <= a.last() * b.last() <= m * m) by (nonlinear_arith)
            requires
                -m <= a.last() <= m,
                -m <= b.last() <= m,
                0 <= m,
        ;
        assert(dot(a, b) == d + a.last() * b.last());
        assert((n - 1) * m * m + m * m == n * m * m) by (nonlinear_arith);
    }
}

} // verus!
