// Catching a periodic clock up with the machine time.
use vstd::prelude::*;
use vstd::arithmetic::div_mod::{lemma_fundamental_div_mod_converse, lemma_small_mod};

verus! {

/// The last tick of a clock with period `w`, started at `start`, that is not
/// later than `ts`.
#[verifier::opaque]
pub open spec fn catch_up(start: usize, ts: usize, w: usize) -> usize {
    (ts - (ts - start) % (w as int)) as usize
}

/// Advancing by one whole period does not change where the clock catches up,
/// and a clock less than a period behind is already caught up.
pub proof fn lemma_catch_up(start: usize, ts: usize, w: usize)
    requires
        start <= ts,
        w >= 1,
    ensures
        ts - start >= w ==> catch_up((start + w) as usize, ts, w) == catch_up(start, ts, w),
        ts - start < w ==> catch_up(start, ts, w) == start,
        start <= catch_up(start, ts, w) <= ts,
{
    reveal(catch_up);
    let d = ts - start;
    let q = d / (w as int);
    let r = d % (w as int);
    assert(d == q * w + r && 0 <= r < w) by (nonlinear_arith)
        requires d >= 0, w >= 1, q == d / (w as int), r == d % (w as int);
    if d >= w {
        assert(q >= 1) by (nonlinear_arith)
            requires d == q * w + r, 0 <= r < w, d >= w;
        assert(d - w == (q - 1) * w + r) by (nonlinear_arith)
            requires d == q * w + r;
        lemma_fundamental_div_mod_converse(d - w, w as int, q - 1, r);
    } else {
        lemma_small_mod(d as nat, w as nat);
    }
}

/// Number of whole periods `w` elapsed between `start` and `ts`.
pub open spec fn periods(start: usize, ts: usize, w: usize) -> int {
    (ts - start) / (w as int)
}

/// After `k` whole periods the clock is at `start + k*w`; once it is less than a
/// period behind, `k` is exactly the number of elapsed periods.
pub proof fn lemma_periods(start: usize, cur: usize, ts: usize, w: usize, k: int)
    requires
        start <= cur <= ts,
        w >= 1,
        k >= 0,
        cur == start + k * w,
        ts - cur < w,
    ensures
        k == periods(start, ts, w),
{
    lemma_fundamental_div_mod_converse(ts - start, w as int, k, ts - cur);
}

} // verus!
