//! Integer arithmetic as machine instructions compute it.
use vstd::prelude::*;

verus! {

/// Signed division rounding toward zero, as `/` on machine integers does.
pub open spec fn trunc_div(x: int, d: int) -> int {
    if x == 0 {
        0
    } else if x > 0 && d > 0 {
        x / d
    } else if x < 0 && d < 0 {
        (x * -1) / (d * -1)
    } else if x < 0 {
        ((x * -1) / d) * -1
    } else {
        (x / (d * -1)) * -1
    }
}

/// `a / b` on 128-bit integers, rounding toward zero.
pub fn div_toward_zero(a: i128, b: i128) -> (r: i128)
    requires
        b != 0,
        i128::MIN <= trunc_div(a as int, b as int) <= i128::MAX,
    ensures
        r == trunc_div(a as int, b as int),
{
    a.checked_div(b).unwrap()
}

/// Rounding toward zero never moves a quotient further from zero than the
/// dividend, so it stays in range; dividing the most negative value by -1 is
/// the one overflow.
pub proof fn lemma_trunc_div_bounded(x: int, d: int)
    requires
        d != 0,
        i128::MIN <= x <= i128::MAX,
        !(x == i128::MIN && d == -1),
    ensures
        i128::MIN <= trunc_div(x, d) <= i128::MAX,
{
    if x > 0 && d > 0 {
        assert(x / d <= x) by (nonlinear_arith) requires x > 0, d > 0;
        assert(x / d >= 0) by (nonlinear_arith) requires x > 0, d > 0;
    } else if x < 0 && d < 0 {
        assert((x * -1) / (d * -1) <= x * -1) by (nonlinear_arith) requires x < 0, d < 0;
        assert((x * -1) / (d * -1) >= 0) by (nonlinear_arith) requires x < 0, d < 0;
        if x == i128::MIN {
            assert((x * -1) / (d * -1) <= (x * -1) / 2) by (nonlinear_arith) requires x < 0, d < -1;
        }
    } else if x < 0 && d > 0 {
        assert((x * -1) / d <= x * -1) by (nonlinear_arith) requires x < 0, d > 0;
        assert((x * -1) / d >= 0) by (nonlinear_arith) requires x < 0, d > 0;
    } else if x > 0 && d < 0 {
        assert(x / (d * -1) <= x) by (nonlinear_arith) requires x > 0, d < 0;
        assert(x / (d * -1) >= 0) by (nonlinear_arith) requires x > 0, d < 0;
    }
}

} // verus!
