//! The fee that settlement retains: each leg of a match is paid out at 99.9%,
//! the rest goes to the fee vault.
use vstd::prelude::*;

verus! {

/// Parts per million of a matched volume that reach the counterparty.
pub const FEE_KEPT_PARTS: u32 = 999_000;

/// One million parts: the whole.
pub const PARTS_PER_MILLION: u32 = 1_000_000;

/// `parts` parts per million of `x`, rounded to the nearest integer with a tie
/// going down, computed without an intermediate product of `x`.
pub open spec fn permill_of(parts: u32, x: u128) -> int {
    let rem_mul = (x % 1_000_000) * parts;
    (x / 1_000_000) * parts + rem_mul / 1_000_000 + if rem_mul % 1_000_000 > 500_000 {
        1int
    } else {
        0int
    }
}

/// Relies on `Permill::from_parts(parts) * x` of sp-arithmetic: for `u128`
/// it computes `(x / 1_000_000) * parts` plus the share of the remainder,
/// rounded to the nearest with a tie going down (`Rounding::NearestPrefDown`).
#[verifier::external_body]
fn permill_mul(parts: u32, x: u128) -> (r: u128)
    requires
        parts <= PARTS_PER_MILLION,
    ensures
        r == permill_of(parts, x),
{
    sp_arithmetic::Permill::from_parts(parts) * x
}

/// A part per million of a value never exceeds the value.
pub proof fn lemma_permill_of_bounded(parts: u32, x: u128)
    requires
        parts <= PARTS_PER_MILLION,
    ensures
        0 <= permill_of(parts, x) <= x,
{
    let q = x / 1_000_000;
    let r = x % 1_000_000;
    let rm = r * parts;
    assert(x == q * 1_000_000 + r && 0 <= r < 1_000_000) by (nonlinear_arith)
        requires q == x / 1_000_000, r == x % 1_000_000;
    assert(0 <= rm <= r * 1_000_000) by (nonlinear_arith)
        requires rm == r * parts, parts <= 1_000_000, 0 <= r;
    assert(q * parts <= q * 1_000_000) by (nonlinear_arith)
        requires parts <= 1_000_000, q >= 0;
    assert(0 <= q * parts) by (nonlinear_arith)
        requires parts >= 0, q >= 0;
    let d = rm / 1_000_000;
    let m = rm % 1_000_000;
    assert(rm == d * 1_000_000 + m && 0 <= m < 1_000_000) by (nonlinear_arith)
        requires d == rm / 1_000_000, m == rm % 1_000_000, rm >= 0;
    if m > 500_000 {
        // the rounded-up share is still at most r
        assert(d < r) by (nonlinear_arith)
            requires rm == d * 1_000_000 + m, m > 0, rm <= r * 1_000_000;
    } else {
        assert(d <= r) by (nonlinear_arith)
            requires rm == d * 1_000_000 + m, m >= 0, rm <= r * 1_000_000;
    }
    assert(0 <= d) by (nonlinear_arith)
        requires rm == d * 1_000_000 + m, m < 1_000_000, rm >= 0;
}

/// What reaches the counterparty of a leg of `gross`.
pub open spec fn net_of(gross: u128) -> u128 {
    permill_of(FEE_KEPT_PARTS, gross) as u128
}

/// What the fee vault retains of a leg of `gross`.
pub open spec fn fee_of(gross: u128) -> u128 {
    (gross - net_of(gross)) as u128
}

/// Splits a leg into what reaches the counterparty and what the vault keeps.
pub fn split_fee(gross: u128) -> (r: (u128, u128))
    ensures
        r.0 == net_of(gross),
        r.1 == fee_of(gross),
        r.0 + r.1 == gross,
{
    proof {
        lemma_permill_of_bounded(FEE_KEPT_PARTS, gross);
    }
    let net = permill_mul(FEE_KEPT_PARTS, gross);
    (net, gross - net)
}

} // verus!
