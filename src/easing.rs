use vstd::prelude::*;

verus! {

/// How far the eased value has moved from its start, out of a total distance
/// `d`, at progress `step / steps`: `p * p * d`, rounded down.
pub open spec fn eased_offset(step: int, steps: int, d: int) -> int {
    (step * step * d) / (steps * steps)
}

/// The quadratic ease-in `p * p * (hi - lo) + lo`, where the progress `p` is
/// the fraction `step / steps`.
///
/// The value is moved away from `lo` by the rounded-down distance, so it never
/// passes `hi`, whichever of the two bounds is larger.
pub open spec fn ease_spec(step: int, steps: int, lo: int, hi: int) -> int {
    if hi >= lo {
        lo + eased_offset(step, steps, hi - lo)
    } else {
        lo - eased_offset(step, steps, lo - hi)
    }
}

/// Upper bound on the values that `ease` interpolates between.
pub const EASE_MAX_VALUE: u64 = 1_000_000_000;

/// Upper bound on the number of steps of an eased progression.
pub const EASE_MAX_STEPS: u64 = 1000;

/// Quadratic ease-in from `lo` to `hi` at progress `step / steps`.
pub fn ease(step: u64, steps: u64, lo: u64, hi: u64) -> (r: u64)
    requires
        0 < steps <= EASE_MAX_STEPS,
        step <= steps,
        lo <= EASE_MAX_VALUE,
        hi <= EASE_MAX_VALUE,
    ensures
        r == ease_spec(step as int, steps as int, lo as int, hi as int),
        lo <= hi ==> lo <= r <= hi,
        hi <= lo ==> hi <= r <= lo,
{
    proof {
        lemma_ease_between(step as int, steps as int, lo as int, hi as int);
        assert(0 < steps * steps <= 1_000_000) by (nonlinear_arith)
            requires 0 < steps <= 1000;
        assert(step * step <= steps * steps) by (nonlinear_arith)
            requires step <= steps;
    }
    let n: u64 = steps * steps;
    let d: u64 = if hi >= lo { hi - lo } else { lo - hi };
    let sq: u64 = step * step;
    assert(sq * d <= 1_000_000 * 1_000_000_000) by (nonlinear_arith)
        requires sq <= 1_000_000, d <= 1_000_000_000;
    let off: u64 = (sq * d) / n;
    if hi >= lo {
        lo + off
    } else {
        lo - off
    }
}

/// Bounds of the offset: it lies in `[0, d]`, is 0 at the start, `d` at the
/// end, and grows with the progress.
proof fn lemma_offset(s1: int, s2: int, steps: int, d: int)
    requires
        0 < steps,
        0 <= s1 <= s2 <= steps,
        0 <= d,
    ensures
        0 <= eased_offset(s1, steps, d) <= eased_offset(s2, steps, d) <= d,
        eased_offset(0, steps, d) == 0,
        eased_offset(steps, steps, d) == d,
{
    let n = steps * steps;
    assert(0 < n) by (nonlinear_arith)
        requires 0 < steps, n == steps * steps;
    assert(0 <= s1 * s1 * d <= s2 * s2 * d <= n * d) by (nonlinear_arith)
        requires 0 <= s1 <= s2 <= steps, 0 <= d, n == steps * steps;
    assert(0 <= (s1 * s1 * d) / n <= (s2 * s2 * d) / n <= (n * d) / n) by (nonlinear_arith)
        requires 0 <= s1 * s1 * d <= s2 * s2 * d <= n * d, 0 < n;
    assert((n * d) / n == d) by (nonlinear_arith)
        requires 0 < n;
    assert(0int * 0 * d == 0);
    assert(0int / n == 0);
}

/// The eased value stays between its two bounds for every progress in `[0, 1]`.
pub proof fn lemma_ease_between(step: int, steps: int, lo: int, hi: int)
    requires
        0 < steps,
        0 <= step <= steps,
    ensures
        lo <= hi ==> lo <= ease_spec(step, steps, lo, hi) <= hi,
        hi <= lo ==> hi <= ease_spec(step, steps, lo, hi) <= lo,
{
    if hi >= lo {
        lemma_offset(step, step, steps, hi - lo);
    } else {
        lemma_offset(step, step, steps, lo - hi);
    }
}

/// At progress 0 the eased value is `lo`; at progress 1 it is `hi`.
pub proof fn lemma_ease_ends(steps: int, lo: int, hi: int)
    requires
        0 < steps,
    ensures
        ease_spec(0, steps, lo, hi) == lo,
        ease_spec(steps, steps, lo, hi) == hi,
{
    if hi >= lo {
        lemma_offset(0, 0, steps, hi - lo);
    } else {
        lemma_offset(0, 0, steps, lo - hi);
    }
}

/// The eased value moves monotonically from `lo` towards `hi` as the progress
/// grows over `[0, 1]`: it never decreases when `lo <= hi` and never increases
/// when `hi <= lo`.
pub proof fn lemma_ease_monotonic(s1: int, s2: int, steps: int, lo: int, hi: int)
    requires
        0 < steps,
        0 <= s1 <= s2 <= steps,
    ensures
        lo <= hi ==> ease_spec(s1, steps, lo, hi) <= ease_spec(s2, steps, lo, hi),
        hi <= lo ==> ease_spec(s2, steps, lo, hi) <= ease_spec(s1, steps, lo, hi),
{
    if hi >= lo {
        lemma_offset(s1, s2, steps, hi - lo);
    } else {
        lemma_offset(s1, s2, steps, lo - hi);
    }
}

} // verus!
