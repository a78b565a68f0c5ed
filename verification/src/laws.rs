//! Exactness laws of the composite Simpson 1/3 rule, stated and proved in
//! exact integer arithmetic.

use crate::weights::simpson_weight;
use vstd::prelude::*;

verus! {

/// The composite rule's sum written as the formula writes it: `k` pairs of
/// subintervals, pair `j` contributing `f(2j-2) + 4 f(2j-1) + f(2j)`, summed
/// left to right.
pub open spec fn pair_sum(f: spec_fn(int) -> int, k: int) -> int
    decreases k,
{
    if k <= 0 {
        0
    } else {
        pair_sum(f, k - 1) + f(2 * k - 2) + 4 * f(2 * k - 1) + f(2 * k)
    }
}

/// The same sum written over the weight table: `simpson_weight(i, n) * f(i)`
/// summed over the samples `i` in `0 .. k`.
pub open spec fn simpson_weighted_sum(n: int, f: spec_fn(int) -> int, k: int) -> int
    decreases k,
{
    if k <= 0 {
        0
    } else {
        simpson_weighted_sum(n, f, k - 1) + simpson_weight(k - 1, n) * f(k - 1)
    }
}

/// A cubic polynomial `c3 x^3 + c2 x^2 + c1 x + c0`.
pub open spec fn cubic(c3: int, c2: int, c1: int, c0: int, x: int) -> int {
    c3 * x * x * x + c2 * x * x + c1 * x + c0
}

/// Twelve times an antiderivative of `cubic`:
/// `3 c3 x^4 + 4 c2 x^3 + 6 c1 x^2 + 12 c0 x`.
pub open spec fn antiderivative_12(c3: int, c2: int, c1: int, c0: int, x: int) -> int {
    3 * c3 * x * x * x * x + 4 * c2 * x * x * x + 6 * c1 * x * x + 12 * c0 * x
}

/// A sample strictly left of the last two samples keeps its Simpson weight
/// when the grid grows by one pair of subintervals, so the two partial sums
/// agree.
proof fn lemma_weighted_sum_stable(n: int, f: spec_fn(int) -> int, k: int)
    requires
        n >= 4,
        n % 2 == 0,
        0 <= k <= n - 2,
    ensures
        simpson_weighted_sum(n, f, k) == simpson_weighted_sum(n - 2, f, k),
    decreases k,
{
    if k > 0 {
        lemma_weighted_sum_stable(n, f, k - 1);
        assert(simpson_weight(k - 1, n) == simpson_weight(k - 1, n - 2));
    }
}

/// The paired summation and the 1-4-2-...-2-4-1 weight table give the same
/// sum: over an even number `n` of subintervals, summing
/// `f(2j-2) + 4 f(2j-1) + f(2j)` over the `n/2` pairs equals summing
/// `simpson_weight(i, n) * f(i)` over all `n + 1` samples.
pub proof fn lemma_pair_sum_matches_weights(f: spec_fn(int) -> int, n: int)
    requires
        n >= 2,
        n % 2 == 0,
    ensures
        pair_sum(f, n / 2) == simpson_weighted_sum(n, f, n + 1),
    decreases n,
{
    if n == 2 {
        assert(pair_sum(f, 1) == pair_sum(f, 0) + f(0) + 4 * f(1) + f(2));
        assert(simpson_weighted_sum(2, f, 1) == simpson_weighted_sum(2, f, 0) + simpson_weight(
            0,
            2,
        ) * f(0));
        assert(simpson_weighted_sum(2, f, 2) == simpson_weighted_sum(2, f, 1) + simpson_weight(
            1,
            2,
        ) * f(1));
        assert(simpson_weighted_sum(2, f, 3) == simpson_weighted_sum(2, f, 2) + simpson_weight(
            2,
            2,
        ) * f(2));
    } else {
        lemma_pair_sum_matches_weights(f, n - 2);
        lemma_weighted_sum_stable(n, f, n - 2);
        assert(pair_sum(f, n / 2) == pair_sum(f, n / 2 - 1) + f(n - 2) + 4 * f(n - 1) + f(n));
        assert(simpson_weighted_sum(n - 2, f, n - 1) == simpson_weighted_sum(n - 2, f, n - 2)
            + simpson_weight(n - 2, n - 2) * f(n - 2));
        assert(simpson_weighted_sum(n, f, n - 1) == simpson_weighted_sum(n, f, n - 2)
            + simpson_weight(n - 2, n) * f(n - 2));
        assert(simpson_weighted_sum(n, f, n) == simpson_weighted_sum(n, f, n - 1) + simpson_weight(
            n - 1,
            n,
        ) * f(n - 1));
        assert(simpson_weighted_sum(n, f, n + 1) == simpson_weighted_sum(n, f, n)
            + simpson_weight(n, n) * f(n));
    }
}

/// Over one pair of subintervals `[u, u + 2h]`, Simpson's rule integrates a
/// cubic exactly: a polynomial identity, with both sides scaled by 12.
proof fn lemma_pair_cubic_exact(c3: int, c2: int, c1: int, c0: int, u: int, h: int)
    ensures
        4 * h * (cubic(c3, c2, c1, c0, u) + 4 * cubic(c3, c2, c1, c0, u + h) + cubic(
            c3,
            c2,
            c1,
            c0,
            u + 2 * h,
        )) == antiderivative_12(c3, c2, c1, c0, u + 2 * h) - antiderivative_12(c3, c2, c1, c0, u),
{
    let s = u + h;
    let t = u + 2 * h;
    let u2 = u * u;
    let u3 = u * u * u;
    let u4 = u * u * u * u;
    let s2 = s * s;
    let s3 = s * s * s;
    let t2 = t * t;
    let t3 = t * t * t;
    let t4 = t * t * t * t;
    let m3 = u3 + 4 * s3 + t3;
    let m2 = u2 + 4 * s2 + t2;
    let m1 = u + 4 * s + t;
    let q3 = 3 * (t4 - u4);
    let q2 = 4 * (t3 - u3);
    let q1 = 6 * (t2 - u2);
    let p_u = cubic(c3, c2, c1, c0, u);
    let p_s = cubic(c3, c2, c1, c0, s);
    let p_t = cubic(c3, c2, c1, c0, t);
    let a_u = antiderivative_12(c3, c2, c1, c0, u);
    let a_t = antiderivative_12(c3, c2, c1, c0, t);

    // each monomial sum integrates exactly over the pair; for the cubes, go
    // through the factoring t^4 - u^4 == (t - u)(t^3 + t^2 u + t u^2 + u^3)
    let bb = t * t * t + t * t * u + t * u * u + u * u * u;
    assert(2 * m3 == 3 * bb) by (nonlinear_arith)
        requires
            s == u + h,
            t == u + 2 * h,
            m3 == u * u * u + 4 * (s * s * s) + t * t * t,
            bb == t * t * t + t * t * u + t * u * u + u * u * u,
    ;
    assert(t * t * t * t - u * u * u * u == (t - u) * bb) by (nonlinear_arith)
        requires
            bb == t * t * t + t * t * u + t * u * u + u * u * u,
    ;
    assert((t - u) * bb == 2 * h * bb);
    assert(4 * h * m3 == 2 * h * (2 * m3)) by (nonlinear_arith);
    assert(2 * h * (3 * bb) == 3 * (2 * h * bb)) by (nonlinear_arith);
    assert(4 * h * m3 == q3);
    assert(4 * h * m2 == q2) by (nonlinear_arith)
        requires
            s == u + h,
            t == u + 2 * h,
            u2 == u * u,
            s2 == s * s,
            t2 == t * t,
            u3 == u * u * u,
            t3 == t * t * t,
            m2 == u2 + 4 * s2 + t2,
            q2 == 4 * (t3 - u3),
    ;
    assert(4 * h * m1 == q1) by (nonlinear_arith)
        requires
            s == u + h,
            t == u + 2 * h,
            u2 == u * u,
            t2 == t * t,
            m1 == u + 4 * s + t,
            q1 == 6 * (t2 - u2),
    ;
    // regroup the three sampled values into monomial sums
    assert(p_u == c3 * u3 + c2 * u2 + c1 * u + c0) by (nonlinear_arith)
        requires
            p_u == c3 * u * u * u + c2 * u * u + c1 * u + c0,
            u3 == u * u * u,
            u2 == u * u,
    ;
    assert(p_s == c3 * s3 + c2 * s2 + c1 * s + c0) by (nonlinear_arith)
        requires
            p_s == c3 * s * s * s + c2 * s * s + c1 * s + c0,
            s3 == s * s * s,
            s2 == s * s,
    ;
    assert(p_t == c3 * t3 + c2 * t2 + c1 * t + c0) by (nonlinear_arith)
        requires
            p_t == c3 * t * t * t + c2 * t * t + c1 * t + c0,
            t3 == t * t * t,
            t2 == t * t,
    ;
    assert(p_u + 4 * p_s + p_t == c3 * m3 + c2 * m2 + c1 * m1 + 6 * c0) by (nonlinear_arith)
        requires
            p_u == c3 * u3 + c2 * u2 + c1 * u + c0,
            p_s == c3 * s3 + c2 * s2 + c1 * s + c0,
            p_t == c3 * t3 + c2 * t2 + c1 * t + c0,
            m3 == u3 + 4 * s3 + t3,
            m2 == u2 + 4 * s2 + t2,
            m1 == u + 4 * s + t,
    ;
    // distribute the 4h scaling over the monomial sums
    assert(4 * h * (c3 * m3 + c2 * m2 + c1 * m1 + 6 * c0) == 4 * h * (c3 * m3) + 4 * h * (c2 * m2)
        + 4 * h * (c1 * m1) + 4 * h * (6 * c0)) by (nonlinear_arith);
    assert(4 * h * (c3 * m3) == c3 * (4 * h * m3)) by (nonlinear_arith);
    assert(4 * h * (c2 * m2) == c2 * (4 * h * m2)) by (nonlinear_arith);
    assert(4 * h * (c1 * m1) == c1 * (4 * h * m1)) by (nonlinear_arith);
    assert(4 * h * (6 * c0) == 24 * h * c0) by (nonlinear_arith);
    // regroup the antiderivative difference the same way
    assert(a_u == 3 * (c3 * u4) + 4 * (c2 * u3) + 6 * (c1 * u2) + 12 * (c0 * u)) by (nonlinear_arith)
        requires
            a_u == 3 * c3 * u * u * u * u + 4 * c2 * u * u * u + 6 * c1 * u * u + 12 * c0 * u,
            u4 == u * u * u * u,
            u3 == u * u * u,
            u2 == u * u,
    ;
    assert(a_t == 3 * (c3 * t4) + 4 * (c2 * t3) + 6 * (c1 * t2) + 12 * (c0 * t)) by (nonlinear_arith)
        requires
            a_t == 3 * c3 * t * t * t * t + 4 * c2 * t * t * t + 6 * c1 * t * t + 12 * c0 * t,
            t4 == t * t * t * t,
            t3 == t * t * t,
            t2 == t * t,
    ;
    assert(c3 * q3 == 3 * (c3 * t4) - 3 * (c3 * u4)) by (nonlinear_arith)
        requires
            q3 == 3 * (t4 - u4),
    ;
    assert(c2 * q2 == 4 * (c2 * t3) - 4 * (c2 * u3)) by (nonlinear_arith)
        requires
            q2 == 4 * (t3 - u3),
    ;
    assert(c1 * q1 == 6 * (c1 * t2) - 6 * (c1 * u2)) by (nonlinear_arith)
        requires
            q1 == 6 * (t2 - u2),
    ;
    assert(12 * (c0 * t) - 12 * (c0 * u) == 24 * h * c0) by (nonlinear_arith)
        requires
            t == u + 2 * h,
    ;
    assert(c3 * q3 + c2 * q2 + c1 * q1 + 24 * h * c0 == a_t - a_u);
    assert(4 * h * (p_u + 4 * p_s + p_t) == 4 * h * (c3 * m3 + c2 * m2 + c1 * m1 + 6 * c0));
}

/// Pair by pair, the scaled Simpson sum of a sampled cubic telescopes into
/// the difference of the scaled antiderivative at the two ends.
proof fn lemma_pair_sum_cubic_exact(
    f: spec_fn(int) -> int,
    c3: int,
    c2: int,
    c1: int,
    c0: int,
    a: int,
    h: int,
    k: int,
)
    requires
        k >= 0,
        forall|i: int| #[trigger] f(i) == cubic(c3, c2, c1, c0, a + i * h),
    ensures
        4 * h * pair_sum(f, k) == antiderivative_12(c3, c2, c1, c0, a + 2 * k * h)
            - antiderivative_12(c3, c2, c1, c0, a),
    decreases k,
{
    if k == 0 {
        assert(pair_sum(f, 0) == 0);
    } else {
        lemma_pair_sum_cubic_exact(f, c3, c2, c1, c0, a, h, k - 1);
        let u = a + (2 * k - 2) * h;
        lemma_pair_cubic_exact(c3, c2, c1, c0, u, h);
        assert((2 * k - 1) * h == (2 * k - 2) * h + h) by (nonlinear_arith);
        assert(2 * k * h == (2 * k - 2) * h + 2 * h) by (nonlinear_arith);
        assert(2 * (k - 1) * h == (2 * k - 2) * h) by (nonlinear_arith);
        assert(f(2 * k - 2) == cubic(c3, c2, c1, c0, u));
        assert(f(2 * k - 1) == cubic(c3, c2, c1, c0, u + h));
        assert(f(2 * k) == cubic(c3, c2, c1, c0, u + 2 * h));
        let s_prev = pair_sum(f, k - 1);
        let t = f(2 * k - 2) + 4 * f(2 * k - 1) + f(2 * k);
        assert(pair_sum(f, k) == s_prev + t);
        assert(4 * h * (s_prev + t) == 4 * h * s_prev + 4 * h * t) by (nonlinear_arith);
    }
}

/// The composite Simpson 1/3 rule is exact for every cubic (and lower-degree)
/// polynomial, stated in exact integer arithmetic: when `f` samples the
/// polynomial `c3 x^3 + c2 x^2 + c1 x + c0` on the uniform grid
/// `a, a + h, ..., a + n h`, the rule's weighted sum, scaled like the rule by
/// `h / 3` and by a further 12 to stay among the integers, equals the
/// difference of the antiderivative between the two ends of the grid.
pub proof fn lemma_simpson_exact_for_cubics(
    f: spec_fn(int) -> int,
    c3: int,
    c2: int,
    c1: int,
    c0: int,
    a: int,
    h: int,
    n: int,
)
    requires
        n >= 2,
        n % 2 == 0,
        forall|i: int| #[trigger] f(i) == cubic(c3, c2, c1, c0, a + i * h),
    ensures
        4 * h * simpson_weighted_sum(n, f, n + 1) == antiderivative_12(c3, c2, c1, c0, a + n * h)
            - antiderivative_12(c3, c2, c1, c0, a),
{
    lemma_pair_sum_matches_weights(f, n);
    lemma_pair_sum_cubic_exact(f, c3, c2, c1, c0, a, h, n / 2);
    assert(2 * (n / 2) == n);
}

} // verus!
