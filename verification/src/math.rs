//! Fixed-point helpers: integer square root, constant-product pricing and
//! proportional redemption, all computed in 128 bits from 64-bit operands.

use vstd::prelude::*;
use crate::state::ErrorCode;

verus! {

/// `r` is the largest natural number whose square does not exceed `n`.
pub open spec fn is_floor_sqrt(n: nat, r: nat) -> bool {
    r * r <= n && n < (r + 1) * (r + 1)
}

/// The floor of the square root of `n`.
pub open spec fn floor_sqrt(n: nat) -> nat {
    choose|r: nat| is_floor_sqrt(n, r)
}

/// Share tokens issued for a deposit of `amount_a` and `amount_b`.
pub open spec fn shares_for_deposit(amount_a: nat, amount_b: nat) -> nat {
    floor_sqrt(amount_a * amount_b)
}

/// Output of the constant-product curve: `reserve_out * amount_in / (reserve_in + amount_in)`,
/// rounded down. Meaningful when `reserve_in + amount_in > 0`.
pub open spec fn swap_output(amount_in: nat, reserve_in: nat, reserve_out: nat) -> nat {
    (reserve_out * amount_in) / (reserve_in + amount_in)
}

/// What `share` share tokens redeem from a vault holding `reserve`, when `supply` share
/// tokens are outstanding: `reserve * share / supply`, rounded down. Meaningful when `supply > 0`.
pub open spec fn redeemable(reserve: nat, share: nat, supply: nat) -> nat {
    (reserve * share) / supply
}

/// At most one number is the floor square root of `n`.
pub proof fn lemma_floor_sqrt_unique(n: nat, r1: nat, r2: nat)
    requires
        is_floor_sqrt(n, r1),
        is_floor_sqrt(n, r2),
    ensures
        r1 == r2,
{
    if r1 < r2 {
        assert((r1 + 1) * (r1 + 1) <= r2 * r2) by (nonlinear_arith)
            requires
                r1 + 1 <= r2,
        ;
    } else if r2 < r1 {
        assert((r2 + 1) * (r2 + 1) <= r1 * r1) by (nonlinear_arith)
            requires
                r2 + 1 <= r1,
        ;
    }
}

/// Every natural number has a floor square root, and `floor_sqrt` names it.
pub proof fn lemma_floor_sqrt_exists(n: nat)
    ensures
        is_floor_sqrt(n, floor_sqrt(n)),
    decreases n,
{
    if n == 0 {
        assert(0nat * 0nat <= 0 && 0 < (0nat + 1) * (0nat + 1)) by (nonlinear_arith);
        assert(is_floor_sqrt(n, 0));
    } else {
        let m = (n - 1) as nat;
        lemma_floor_sqrt_exists(m);
        let r = floor_sqrt(m);
        if n < (r + 1) * (r + 1) {
            assert(is_floor_sqrt(n, r));
        } else {
            assert(n < (r + 2) * (r + 2)) by (nonlinear_arith)
                requires
                    n == (r + 1) * (r + 1),
            ;
            assert(is_floor_sqrt(n, r + 1));
        }
    }
}

/// A number that brackets `n` between its square and the next square is `floor_sqrt(n)`.
pub proof fn lemma_floor_sqrt_is(n: nat, r: nat)
    requires
        is_floor_sqrt(n, r),
    ensures
        floor_sqrt(n) == r,
{
    lemma_floor_sqrt_exists(n);
    lemma_floor_sqrt_unique(n, r, floor_sqrt(n));
}

/// The square root of a perfect square is exact.
pub proof fn lemma_floor_sqrt_of_square(r: nat)
    ensures
        floor_sqrt(r * r) == r,
{
    assert(r * r < (r + 1) * (r + 1)) by (nonlinear_arith);
    lemma_floor_sqrt_is(r * r, r);
}

/// Floor of the square root of a 128-bit number; the result always fits in 64 bits.
pub fn integer_sqrt(n: u128) -> (root: u64)
    ensures
        is_floor_sqrt(n as nat, root as nat),
        root == floor_sqrt(n as nat),
{
    let mut lo: u128 = 0;
    let mut hi: u128 = 0x1_0000_0000_0000_0000u128;
    assert(0x1_0000_0000_0000_0000int * 0x1_0000_0000_0000_0000int > u128::MAX) by (nonlinear_arith);
    while hi - lo > 1
        invariant
            lo < hi,
            hi <= 0x1_0000_0000_0000_0000u128,
            (lo as int) * (lo as int) <= n,
            (n as int) < (hi as int) * (hi as int),
        decreases hi - lo,
    {
        let mid: u128 = lo + (hi - lo) / 2;
        assert((mid as int) * (mid as int) <= u128::MAX) by (nonlinear_arith)
            requires
                0 <= mid <= 0xffff_ffff_ffff_ffffu128,
        ;
        if mid * mid <= n {
            lo = mid;
        } else {
            hi = mid;
        }
    }
    proof {
        assert(hi == lo + 1);
        assert(is_floor_sqrt(n as nat, lo as nat));
        lemma_floor_sqrt_is(n as nat, lo as nat);
    }
    lo as u64
}

/// Share tokens issued for a deposit: `floor(sqrt(amount_a * amount_b))`, with the product
/// taken in 128 bits so that it cannot overflow.
pub fn deposit_shares(amount_a: u64, amount_b: u64) -> (shares: u64)
    ensures
        shares == shares_for_deposit(amount_a as nat, amount_b as nat),
{
    assert((amount_a as int) * (amount_b as int) <= u128::MAX) by (nonlinear_arith)
        requires
            0 <= amount_a <= 0xffff_ffff_ffff_ffffu64,
            0 <= amount_b <= 0xffff_ffff_ffff_ffffu64,
    ;
    let product: u128 = (amount_a as u128) * (amount_b as u128);
    integer_sqrt(product)
}

/// The curve never pays out more than the output reserve holds.
pub proof fn lemma_swap_output_bounded(amount_in: nat, reserve_in: nat, reserve_out: nat)
    requires
        reserve_in + amount_in > 0,
    ensures
        swap_output(amount_in, reserve_in, reserve_out) <= reserve_out,
        reserve_in > 0 && reserve_out > 0 ==> swap_output(amount_in, reserve_in, reserve_out)
            < reserve_out,
{
    let d = reserve_in + amount_in;
    let num = reserve_out * amount_in;
    let q = num / d;
    assert(q * d <= num) by (nonlinear_arith)
        requires
            q == num / d,
            d > 0,
            num >= 0,
    ;
    if q > reserve_out {
        assert(q * d > num) by (nonlinear_arith)
            requires
                q >= reserve_out + 1,
                d >= amount_in,
                d > 0,
                num == reserve_out * amount_in,
                amount_in >= 0,
                reserve_out >= 0,
        ;
    }
    if reserve_in > 0 && reserve_out > 0 && q >= reserve_out {
        assert(q * d > num) by (nonlinear_arith)
            requires
                q >= reserve_out,
                d == reserve_in + amount_in,
                reserve_in > 0,
                reserve_out > 0,
                num == reserve_out * amount_in,
                amount_in >= 0,
        ;
    }
}

/// Constant-product output for selling `amount_in` into a pool whose input side held
/// `reserve_in` before the trade and whose output side holds `reserve_out`.
///
/// `None` exactly when the denominator `reserve_in + amount_in` is zero.
pub fn calculate_amm_output(amount_in: u64, reserve_in: u64, reserve_out: u64) -> (out: Option<u64>)
    ensures
        out is None <==> reserve_in as nat + amount_in as nat == 0,
        out is Some ==> out->0 == swap_output(amount_in as nat, reserve_in as nat, reserve_out as nat),
        out is Some ==> out->0 <= reserve_out,
{
    let amount: u128 = amount_in as u128;
    let denominator: u128 = reserve_in as u128 + amount;
    if denominator == 0 {
        return None;
    }
    assert((reserve_out as int) * (amount_in as int) <= u128::MAX) by (nonlinear_arith)
        requires
            0 <= amount_in <= 0xffff_ffff_ffff_ffffu64,
            0 <= reserve_out <= 0xffff_ffff_ffff_ffffu64,
    ;
    let numerator: u128 = (reserve_out as u128) * amount;
    let quotient: u128 = numerator / denominator;
    proof {
        lemma_swap_output_bounded(amount_in as nat, reserve_in as nat, reserve_out as nat);
    }
    Some(quotient as u64)
}

/// Proportional redemption `floor(reserve * share / supply)` in 128 bits.
///
/// Fails with `EmptyPool` when no share token is outstanding and with `MathOverflow` when the
/// quotient does not fit in 64 bits.
pub fn redeem_amount(reserve: u64, share: u64, supply: u64) -> (out: Result<u64, ErrorCode>)
    ensures
        supply == 0 ==> out == Err::<u64, ErrorCode>(ErrorCode::EmptyPool),
        supply > 0 && redeemable(reserve as nat, share as nat, supply as nat) > u64::MAX ==> out
            == Err::<u64, ErrorCode>(ErrorCode::MathOverflow),
        supply > 0 && redeemable(reserve as nat, share as nat, supply as nat) <= u64::MAX ==> out
            == Ok::<u64, ErrorCode>(redeemable(reserve as nat, share as nat, supply as nat) as u64),
{
    if supply == 0 {
        return Err(ErrorCode::EmptyPool);
    }
    assert((reserve as int) * (share as int) <= u128::MAX) by (nonlinear_arith)
        requires
            0 <= reserve <= 0xffff_ffff_ffff_ffffu64,
            0 <= share <= 0xffff_ffff_ffff_ffffu64,
    ;
    let product: u128 = (reserve as u128) * (share as u128);
    let quotient: u128 = product / (supply as u128);
    if quotient > u64::MAX as u128 {
        Err(ErrorCode::MathOverflow)
    } else {
        Ok(quotient as u64)
    }
}

/// Redeeming no more shares than are outstanding never takes more than the vault holds.
pub proof fn lemma_redeemable_bounded(reserve: nat, share: nat, supply: nat)
    requires
        supply > 0,
        share <= supply,
    ensures
        redeemable(reserve, share, supply) <= reserve,
{
    let num = reserve * share;
    let q = num / supply;
    assert(q * supply <= num) by (nonlinear_arith)
        requires
            q == num / supply,
            supply > 0,
            num >= 0,
    ;
    if q > reserve {
        assert(q * supply > num) by (nonlinear_arith)
            requires
                q >= reserve + 1,
                supply >= share,
                supply > 0,
                num == reserve * share,
                share >= 0,
                reserve >= 0,
        ;
    }
}

/// A quotient rounded down brackets its dividend between two multiples of the divisor.
pub proof fn lemma_floor_div_bounds(n: nat, d: nat)
    requires
        d > 0,
    ensures
        (n / d) * d <= n,
        n < (n / d + 1) * d,
{
    vstd::arithmetic::div_mod::lemma_fundamental_div_mod(n as int, d as int);
    vstd::arithmetic::div_mod::lemma_mod_bound(n as int, d as int);
    let q = (n as int) / (d as int);
    assert(q * d == d * q && (q + 1) * d == d * q + d) by (nonlinear_arith);
}

/// A number whose multiple by the divisor stays within the dividend is at most the quotient.
pub proof fn lemma_floor_div_at_least(n: nat, d: nat, q: nat)
    requires
        d > 0,
        q * d <= n,
    ensures
        q <= n / d,
{
    lemma_floor_div_bounds(n, d);
    let k = n / d;
    if q > k {
        assert(q * d >= (k + 1) * d) by (nonlinear_arith)
            requires
                q >= k + 1,
                d > 0,
        ;
    }
}

/// A common positive factor can be cancelled from both sides of an inequality.
pub proof fn lemma_cancel_factor(a: int, b: int, c: int)
    requires
        c > 0,
        a * c <= b * c,
    ensures
        a <= b,
{
    if a > b {
        assert(a * c >= (b + 1) * c) by (nonlinear_arith)
            requires
                a >= b + 1,
                c > 0,
        ;
        assert((b + 1) * c == b * c + c) by (nonlinear_arith);
    }
}

/// Cross-multiplied, the curve's slope between two inputs: the gap between the two
/// fractions `reserve_out * x / (reserve_in + x)` is `reserve_out * reserve_in * (x2 - x1)`
/// over the product of the denominators.
pub proof fn lemma_curve_cross_difference(x1: nat, x2: nat, reserve_in: nat, reserve_out: nat)
    ensures
        (reserve_out * x2) * (reserve_in + x1) - (reserve_out * x1) * (reserve_in + x2)
            == reserve_out * reserve_in * (x2 - x1),
{
    assert((reserve_out * x2) * (reserve_in + x1) - (reserve_out * x1) * (reserve_in + x2)
        == reserve_out * reserve_in * (x2 - x1)) by (nonlinear_arith);
}

/// For fixed reserves, a larger input never buys less.
pub proof fn lemma_swap_output_monotonic(x1: nat, x2: nat, reserve_in: nat, reserve_out: nat)
    requires
        x1 <= x2,
        reserve_in + x1 > 0,
    ensures
        swap_output(x1, reserve_in, reserve_out) <= swap_output(x2, reserve_in, reserve_out),
{
    let d1 = reserve_in + x1;
    let d2 = reserve_in + x2;
    let n1 = reserve_out * x1;
    let n2 = reserve_out * x2;
    let q1 = n1 / d1;
    lemma_floor_div_bounds(n1, d1);
    lemma_curve_cross_difference(x1, x2, reserve_in, reserve_out);
    assert(reserve_out * reserve_in * (x2 - x1) >= 0) by (nonlinear_arith)
        requires
            x1 <= x2,
    ;
    assert((q1 * d1) * d2 <= n1 * d2) by (nonlinear_arith)
        requires
            q1 * d1 <= n1,
            d2 >= 0,
    ;
    assert((q1 * d2) * d1 == (q1 * d1) * d2) by (nonlinear_arith);
    lemma_cancel_factor((q1 * d2) as int, n2 as int, d1 as int);
    lemma_floor_div_at_least(n2, d2, q1);
}

/// For fixed reserves, a larger input buys strictly more whenever the curve itself rises by
/// at least one whole unit between the two inputs, that is, whenever
/// `reserve_out * reserve_in * (x2 - x1) >= (reserve_in + x1) * (reserve_in + x2)`.
pub proof fn lemma_swap_output_strictly_increasing(
    x1: nat,
    x2: nat,
    reserve_in: nat,
    reserve_out: nat,
)
    requires
        x1 < x2,
        reserve_in + x1 > 0,
        reserve_out * reserve_in * (x2 - x1) >= (reserve_in + x1) * (reserve_in + x2),
    ensures
        swap_output(x1, reserve_in, reserve_out) < swap_output(x2, reserve_in, reserve_out),
{
    let d1 = reserve_in + x1;
    let d2 = reserve_in + x2;
    let n1 = reserve_out * x1;
    let n2 = reserve_out * x2;
    let q1 = n1 / d1;
    lemma_floor_div_bounds(n1, d1);
    lemma_curve_cross_difference(x1, x2, reserve_in, reserve_out);
    assert((q1 * d1) * d2 <= n1 * d2) by (nonlinear_arith)
        requires
            q1 * d1 <= n1,
            d2 >= 0,
    ;
    assert(((q1 + 1) * d2) * d1 == (q1 * d1) * d2 + d1 * d2) by (nonlinear_arith);
    lemma_cancel_factor(((q1 + 1) * d2) as int, n2 as int, d1 as int);
    lemma_floor_div_at_least(n2, d2, q1 + 1);
}

/// The shares issued for two 64-bit deposits fit in 64 bits.
pub proof fn lemma_shares_fit(amount_a: u64, amount_b: u64)
    ensures
        shares_for_deposit(amount_a as nat, amount_b as nat) <= u64::MAX,
{
    let n = (amount_a as nat) * (amount_b as nat);
    lemma_floor_sqrt_exists(n);
    let r = floor_sqrt(n);
    assert(n <= 0xffff_ffff_ffff_ffff * 0xffff_ffff_ffff_ffff) by (nonlinear_arith)
        requires
            n == (amount_a as nat) * (amount_b as nat),
            amount_a <= 0xffff_ffff_ffff_ffff,
            amount_b <= 0xffff_ffff_ffff_ffff,
    ;
    if r > 0xffff_ffff_ffff_ffff {
        assert(r * r >= 0x1_0000_0000_0000_0000 * 0x1_0000_0000_0000_0000) by (nonlinear_arith)
            requires
                r >= 0x1_0000_0000_0000_0000,
        ;
    }
}

} // verus!
