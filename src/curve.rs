//! Swap curves: constant product and a stable-swap invariant.
use crate::depeg::{Depeg, DepegType, PRECISION};
use crate::error::QuoteError;
use vstd::arithmetic::div_mod::{lemma_div_is_ordered, lemma_div_by_multiple};
use vstd::arithmetic::mul::lemma_mul_inequality;
use vstd::prelude::*;

verus! {

/// Newton iterations that the stable-curve solver may take.
pub const MAX_ITERATIONS: u64 = 256;

/// Number of tokens in a stable pool.
pub const N_COINS: u128 = 2;

/// Which pool token goes in.
#[derive(Clone, Copy, Debug, PartialEq, Eq, Structural)]
pub enum TradeDirection {
    /// Token A in, token B out.
    AtoB,
    /// Token B in, token A out.
    BtoA,
}

/// Factors that bring both tokens of a stable pool to the same decimals.
#[derive(Clone, Copy, Debug, PartialEq, Eq, Structural)]
pub struct TokenMultiplier {
    /// Factor of token A.
    pub token_a_multiplier: u64,
    /// Factor of token B.
    pub token_b_multiplier: u64,
    /// Decimals that both tokens are brought to.
    pub precision_factor: u8,
}

/// The invariant that a pool trades on.
#[derive(Clone, Copy, Debug, PartialEq, Eq, Structural)]
pub enum CurveType {
    /// `x * y = k`.
    ConstantProduct,
    /// Stable swap with amplification `amp`; for a depeg pool, token B is
    /// the staking derivative and is valued at the virtual price.
    Stable {
        amp: u64,
        token_multiplier: TokenMultiplier,
        depeg: Depeg,
        last_amp_updated_timestamp: u64,
    },
}

/// `floor(y * dx / (x + dx))`; none when both `x` and `dx` are zero.
pub open spec fn constant_product_out(dx: u64, x: u64, y: u64) -> Option<u64> {
    if x + dx == 0 {
        None
    } else {
        Some((y * dx / (x + dx)) as u64)
    }
}

/// Output of a constant-product swap of `dx` into reserves `x` (in) and `y` (out).
pub fn constant_product_swap(dx: u64, x: u64, y: u64) -> (r: Option<u64>)
    ensures
        r == constant_product_out(dx, x, y),
        r is Some ==> r->Some_0 <= y,
{
    let total = (x as u128) + (dx as u128);
    if total == 0 {
        return None;
    }
    proof {
        crate::math::lemma_product_fits(y, dx);
        lemma_mul_inequality(dx as int, total as int, y as int);
        assert(y * dx == dx * y && y * total == total * y) by (nonlinear_arith);
        lemma_div_is_ordered(y * dx, y * total, total as int);
        lemma_div_by_multiple(y as int, total as int);
    }
    let out = (y as u128) * (dx as u128) / total;
    Some(out as u64)
}

/// A constant-product swap never drains the out reserve while the in
/// reserve is not empty, and a larger input never gives a smaller output.
pub proof fn lemma_constant_product_bounds(dx: u64, dx2: u64, x: u64, y: u64)
    requires
        x > 0,
        y > 0,
        dx <= dx2,
    ensures
        constant_product_out(dx, x, y) is Some,
        constant_product_out(dx, x, y)->Some_0 < y,
        constant_product_out(dx, x, y)->Some_0 <= constant_product_out(dx2, x, y)->Some_0,
{
    let s1 = x + dx;
    let s2 = x + dx2;
    // y * dx < y * (x + dx)
    assert(y * dx < y * s1) by (nonlinear_arith) requires y > 0, x > 0, s1 == x + dx;
    vstd::arithmetic::div_mod::lemma_div_is_ordered(y * dx, y * s1 - 1, s1);
    lemma_div_by_multiple(y as int, s1);
    assert((y * s1) / s1 == y) by { assert(y * s1 == s1 * y) by (nonlinear_arith); vstd::arithmetic::div_mod::lemma_div_multiples_vanish(y as int, s1); }
    lemma_last_below(y as int, s1);
    // y * dx / s1 <= y * dx2 / s2 as dx / (x + dx) grows with dx
    lemma_ratio_grows(x as int, dx as int, dx2 as int, y as int);
    assert(y * dx2 <= y * s2) by (nonlinear_arith) requires y > 0, s2 == x + dx2, x > 0;
    vstd::arithmetic::div_mod::lemma_div_is_ordered(y * dx2, y * s2, s2);
    assert(y * s2 == s2 * y) by (nonlinear_arith);
    vstd::arithmetic::div_mod::lemma_div_multiples_vanish(y as int, s2);
}

proof fn lemma_last_below(y: int, s: int)
    requires
        y > 0,
        s > 0,
    ensures
        (y * s - 1) / s < y,
{
    vstd::arithmetic::div_mod::lemma_fundamental_div_mod(y * s - 1, s);
    let q = (y * s - 1) / s;
    let r = (y * s - 1) % s;
    assert(0 <= r < s) by { vstd::arithmetic::div_mod::lemma_mod_bound(y * s - 1, s); }
    if q >= y {
        assert(s * q >= s * y) by (nonlinear_arith) requires q >= y, s > 0;
        assert(s * y == y * s) by (nonlinear_arith);
    }
}

proof fn lemma_ratio_grows(x: int, dx: int, dx2: int, y: int)
    requires
        x > 0,
        0 <= dx <= dx2,
        y > 0,
    ensures
        y * dx / (x + dx) <= y * dx2 / (x + dx2),
{
    let s1 = x + dx;
    let s2 = x + dx2;
    // y*dx*s2 <= y*dx2*s1 since dx*(x+dx2) <= dx2*(x+dx)
    assert(y * dx * s2 <= y * dx2 * s1) by (nonlinear_arith)
        requires s1 == x + dx, s2 == x + dx2, 0 <= dx <= dx2, x > 0, y > 0;
    let q = y * dx / s1;
    vstd::arithmetic::div_mod::lemma_fundamental_div_mod(y * dx, s1);
    vstd::arithmetic::div_mod::lemma_mod_bound(y * dx, s1);
    assert(q * s1 <= y * dx) by (nonlinear_arith)
        requires y * dx == s1 * q + (y * dx) % s1, (y * dx) % s1 >= 0;
    assert(q * s1 * s2 <= y * dx * s2) by (nonlinear_arith) requires q * s1 <= y * dx, s2 > 0;
    assert(q * s2 * s1 <= y * dx2 * s1) by (nonlinear_arith)
        requires q * s1 * s2 <= y * dx * s2, y * dx * s2 <= y * dx2 * s1;
    assert(q * s2 <= y * dx2) by (nonlinear_arith) requires q * s2 * s1 <= y * dx2 * s1, s1 > 0;
    vstd::arithmetic::div_mod::lemma_div_is_ordered(q * s2, y * dx2, s2);
    vstd::arithmetic::div_mod::lemma_div_by_multiple(q, s2);
    vstd::arithmetic::div_mod::lemma_div_pos_is_pos(y * dx, s1);
}

/// `v` fits in 128 bits.
pub open spec fn fits(v: int) -> bool {
    0 <= v <= u128::MAX
}

/// `p` and `q` differ by at most one.
pub open spec fn within_one(p: u128, q: u128) -> bool {
    if p > q {
        p - q <= 1
    } else {
        q - p <= 1
    }
}

/// One Newton step towards the invariant `D` of balances `a` and `b`, with
/// `ann = amp * N_COINS` and `sum = a + b`; none on overflow or a zero divisor.
pub open spec fn newton_d_step(ann: u128, sum: u128, a: u128, b: u128, d: u128) -> Option<u128> {
    let dd = d * d;
    let a2 = a * N_COINS;
    let p1d = (dd / a2) * d;
    let b2 = b * N_COINS;
    let dp = p1d / b2;
    let lev = sum * ann;
    let num = d * (dp * N_COINS + lev);
    let den = d * (ann - 1) + dp * (N_COINS + 1);
    if fits(dd) && fits(a2) && a2 > 0 && fits(p1d) && fits(b2) && b2 > 0 && fits(lev) && fits(dp * N_COINS)
        && fits(dp * N_COINS + lev) && fits(num) && ann >= 1 && fits(d * (ann - 1)) && fits(dp * (N_COINS + 1))
        && fits(den) && den > 0 {
        Some((num / den) as u128)
    } else {
        None
    }
}

/// Newton iteration for `D` from `d`, with `rounds` steps left; it stops at
/// the first step that moves by at most one.
pub open spec fn solve_d(ann: u128, sum: u128, a: u128, b: u128, d: u128, rounds: nat) -> Result<u128, QuoteError>
    decreases rounds,
{
    if rounds == 0 {
        Err(QuoteError::CurveConvergenceFailure)
    } else {
        match newton_d_step(ann, sum, a, b, d) {
            None => Err(QuoteError::MathOverflow),
            Some(next) => if within_one(next, d) {
                Ok(next)
            } else {
                solve_d(ann, sum, a, b, next, (rounds - 1) as nat)
            },
        }
    }
}

/// The stable-swap invariant `D` of normalized balances `a` and `b`.
pub open spec fn invariant_d(amp: u64, a: u128, b: u128) -> Result<u128, QuoteError> {
    if !fits(a + b) {
        Err(QuoteError::MathOverflow)
    } else if a + b == 0 {
        Ok(0u128)
    } else {
        solve_d((amp * N_COINS) as u128, (a + b) as u128, a, b, (a + b) as u128, MAX_ITERATIONS as nat)
    }
}

/// One Newton step towards the balance `y` that keeps the invariant.
pub open spec fn newton_y_step(c: u128, b: u128, d: u128, y: u128) -> Option<u128> {
    let num = y * y + c;
    let den = y * 2 + b - d;
    if fits(y * y) && fits(num) && fits(y * 2) && fits(y * 2 + b) && den > 0 {
        Some((num / den) as u128)
    } else {
        None
    }
}

/// Newton iteration for the new balance from `y`, with `rounds` steps left.
pub open spec fn solve_y(c: u128, b: u128, d: u128, y: u128, rounds: nat) -> Result<u128, QuoteError>
    decreases rounds,
{
    if rounds == 0 {
        Err(QuoteError::CurveConvergenceFailure)
    } else {
        match newton_y_step(c, b, d, y) {
            None => Err(QuoteError::MathOverflow),
            Some(next) => if within_one(next, y) {
                Ok(next)
            } else {
                solve_y(c, b, d, next, (rounds - 1) as nat)
            },
        }
    }
}

/// The balance of the other token that keeps invariant `d` when one token's
/// normalized balance is `x`.
pub open spec fn balance_for_invariant(amp: u64, x: u128, d: u128) -> Result<u128, QuoteError> {
    let ann: int = amp * N_COINS;
    let c: int = ((d * d) / (x * N_COINS)) * d / (ann * N_COINS);
    let b: int = (d as int) / ann + x;
    if fits(d * d) && x > 0 && fits(x * N_COINS) && fits(((d * d) / (x * N_COINS)) * d) && amp > 0 && fits(b) {
        solve_y(c as u128, b as u128, d, d, MAX_ITERATIONS as nat)
    } else {
        Err(QuoteError::MathOverflow)
    }
}

fn newton_d_step_exec(ann: u128, sum: u128, a: u128, b: u128, d: u128) -> (r: Option<u128>)
    ensures
        r == newton_d_step(ann, sum, a, b, d),
{
    let dd = match d.checked_mul(d) { Some(v) => v, None => return None };
    let a2 = match a.checked_mul(N_COINS) { Some(v) => v, None => return None };
    if a2 == 0 {
        return None;
    }
    let p1d = match (dd / a2).checked_mul(d) { Some(v) => v, None => return None };
    let b2 = match b.checked_mul(N_COINS) { Some(v) => v, None => return None };
    if b2 == 0 {
        return None;
    }
    let dp = p1d / b2;
    let lev = match sum.checked_mul(ann) { Some(v) => v, None => return None };
    let dp2 = match dp.checked_mul(N_COINS) { Some(v) => v, None => return None };
    let inner = match dp2.checked_add(lev) { Some(v) => v, None => return None };
    let num = match d.checked_mul(inner) { Some(v) => v, None => return None };
    if ann < 1 {
        return None;
    }
    let left = match d.checked_mul(ann - 1) { Some(v) => v, None => return None };
    let right = match dp.checked_mul(N_COINS + 1) { Some(v) => v, None => return None };
    let den = match left.checked_add(right) { Some(v) => v, None => return None };
    if den == 0 {
        return None;
    }
    Some(num / den)
}

fn newton_y_step_exec(c: u128, b: u128, d: u128, y: u128) -> (r: Option<u128>)
    ensures
        r == newton_y_step(c, b, d, y),
{
    let yy = match y.checked_mul(y) { Some(v) => v, None => return None };
    let num = match yy.checked_add(c) { Some(v) => v, None => return None };
    let y2 = match y.checked_mul(2) { Some(v) => v, None => return None };
    let y2b = match y2.checked_add(b) { Some(v) => v, None => return None };
    if y2b <= d {
        return None;
    }
    Some(num / (y2b - d))
}

fn is_within_one(p: u128, q: u128) -> (r: bool)
    ensures
        r == within_one(p, q),
{
    if p > q {
        p - q <= 1
    } else {
        q - p <= 1
    }
}

/// The stable-swap invariant of normalized balances `a` and `b`.
pub fn compute_d(amp: u64, a: u128, b: u128) -> (r: Result<u128, QuoteError>)
    ensures
        r == invariant_d(amp, a, b),
{
    let sum = match a.checked_add(b) { Some(v) => v, None => return Err(QuoteError::MathOverflow) };
    if sum == 0 {
        return Ok(0);
    }
    let ann = (amp as u128) * N_COINS;
    let mut d = sum;
    let mut k: u64 = 0;
    while k < MAX_ITERATIONS
        invariant
            ann == amp * N_COINS,
            sum == a + b,
            sum > 0,
            k <= MAX_ITERATIONS,
            invariant_d(amp, a, b) == solve_d(ann, sum, a, b, d, (MAX_ITERATIONS - k) as nat),
        decreases MAX_ITERATIONS - k,
    {
        let next = match newton_d_step_exec(ann, sum, a, b, d) {
            Some(v) => v,
            None => return Err(QuoteError::MathOverflow),
        };
        if is_within_one(next, d) {
            return Ok(next);
        }
        d = next;
        k = k + 1;
    }
    Err(QuoteError::CurveConvergenceFailure)
}

/// The balance of the other token that keeps invariant `d` at normalized balance `x`.
pub fn compute_y(amp: u64, x: u128, d: u128) -> (r: Result<u128, QuoteError>)
    ensures
        r == balance_for_invariant(amp, x, d),
{
    let ann = (amp as u128) * N_COINS;
    let dd = match d.checked_mul(d) { Some(v) => v, None => return Err(QuoteError::MathOverflow) };
    if x == 0 || amp == 0 {
        return Err(QuoteError::MathOverflow);
    }
    let x2 = match x.checked_mul(N_COINS) { Some(v) => v, None => return Err(QuoteError::MathOverflow) };
    let c0 = match (dd / x2).checked_mul(d) { Some(v) => v, None => return Err(QuoteError::MathOverflow) };
    let c = c0 / (ann * N_COINS);
    let b = match (d / ann).checked_add(x) { Some(v) => v, None => return Err(QuoteError::MathOverflow) };
    let mut y = d;
    let mut k: u64 = 0;
    while k < MAX_ITERATIONS
        invariant
            k <= MAX_ITERATIONS,
            balance_for_invariant(amp, x, d) == solve_y(c, b, d, y, (MAX_ITERATIONS - k) as nat),
        decreases MAX_ITERATIONS - k,
    {
        let next = match newton_y_step_exec(c, b, d, y) {
            Some(v) => v,
            None => return Err(QuoteError::MathOverflow),
        };
        if is_within_one(next, y) {
            return Ok(next);
        }
        y = next;
        k = k + 1;
    }
    Err(QuoteError::CurveConvergenceFailure)
}

/// Virtual price that applies to a token of a stable pool: token B of a
/// depeg pool is valued at the curve's virtual price; other tokens at par.
pub open spec fn side_price(depeg: Depeg, is_token_b: bool) -> Option<u64> {
    if is_token_b && depeg.depeg_type == DepegType::SplStake {
        Some(depeg.base_virtual_price)
    } else {
        None
    }
}

/// `amount` brought to the common decimals, and valued at `price` over
/// `PRECISION` where a price applies; none on overflow.
pub open spec fn upscaled(amount: u64, multiplier: u64, price: Option<u64>) -> Option<u128> {
    match price {
        None => Some((amount * multiplier) as u128),
        Some(p) => if fits(amount * multiplier * p) {
            Some((amount * multiplier * p / (PRECISION as int)) as u128)
        } else {
            None
        },
    }
}

/// The inverse of `upscaled`, rounded down; none on a zero divisor, an
/// overflow, or a result beyond 64 bits.
pub open spec fn downscaled(amount: u128, multiplier: u64, price: Option<u64>) -> Option<u64> {
    if multiplier == 0 {
        None
    } else {
        match price {
            None => if (amount as int) / (multiplier as int) <= u64::MAX {
                Some(((amount as int) / (multiplier as int)) as u64)
            } else {
                None
            },
            Some(p) => if p == 0 || !fits(amount * PRECISION) {
                None
            } else if amount * PRECISION / (p as int) / (multiplier as int) <= u64::MAX {
                Some((amount * PRECISION / (p as int) / (multiplier as int)) as u64)
            } else {
                None
            },
        }
    }
}

/// Output of a stable swap of `dx` into reserves `x` (in) and `y` (out):
/// the out balance falls from its normalized value to the one that keeps the
/// invariant after the normalized input is added, brought back to token units.
pub open spec fn stable_out(
    amp: u64,
    tm: TokenMultiplier,
    depeg: Depeg,
    dx: u64,
    x: u64,
    y: u64,
    direction: TradeDirection,
) -> Result<u64, QuoteError> {
    let a_to_b = direction == TradeDirection::AtoB;
    let m_in = if a_to_b { tm.token_a_multiplier } else { tm.token_b_multiplier };
    let m_out = if a_to_b { tm.token_b_multiplier } else { tm.token_a_multiplier };
    let p_in = side_price(depeg, !a_to_b);
    let p_out = side_price(depeg, a_to_b);
    match (upscaled(dx, m_in, p_in), upscaled(x, m_in, p_in), upscaled(y, m_out, p_out)) {
        (Some(udx), Some(ux), Some(uy)) => if !fits(ux + udx) {
            Err(QuoteError::MathOverflow)
        } else {
            match invariant_d(amp, ux, uy) {
                Err(e) => Err(e),
                Ok(d) => match balance_for_invariant(amp, (ux + udx) as u128, d) {
                    Err(e) => Err(e),
                    Ok(new_y) => if new_y > uy {
                        Err(QuoteError::MathUnderflow)
                    } else {
                        match downscaled((uy - new_y) as u128, m_out, p_out) {
                            None => Err(QuoteError::MathOverflow),
                            Some(out) => Ok(out),
                        }
                    },
                },
            }
        },
        _ => Err(QuoteError::MathOverflow),
    }
}

/// Output of swapping `dx` into in-reserve `x` and out-reserve `y` on curve
/// `c`; an output that would reach the out reserve is refused.
pub open spec fn swap_out(c: CurveType, dx: u64, x: u64, y: u64, direction: TradeDirection) -> Result<u64, QuoteError> {
    match curve_out(c, dx, x, y, direction) {
        Err(e) => Err(e),
        Ok(out) => if out >= y {
            Err(QuoteError::InsufficientLiquidity)
        } else {
            Ok(out)
        },
    }
}

/// Output that the invariant of curve `c` gives for a swap of `dx` into
/// in-reserve `x` and out-reserve `y`.
pub open spec fn curve_out(c: CurveType, dx: u64, x: u64, y: u64, direction: TradeDirection) -> Result<u64, QuoteError> {
    match c {
        CurveType::ConstantProduct => match constant_product_out(dx, x, y) {
            None => Err(QuoteError::MathOverflow),
            Some(out) => Ok(out),
        },
        CurveType::Stable { amp, token_multiplier, depeg, .. } => stable_out(amp, token_multiplier, depeg, dx, x, y, direction),
    }
}

fn side_price_exec(depeg: &Depeg, is_token_b: bool) -> (r: Option<u64>)
    ensures
        r == side_price(*depeg, is_token_b),
{
    if is_token_b && depeg.depeg_type == DepegType::SplStake {
        Some(depeg.base_virtual_price)
    } else {
        None
    }
}

fn upscale(amount: u64, multiplier: u64, price: Option<u64>) -> (r: Option<u128>)
    ensures
        r == upscaled(amount, multiplier, price),
{
    proof {
        crate::math::lemma_product_fits(amount, multiplier);
    }
    let scaled = (amount as u128) * (multiplier as u128);
    match price {
        None => Some(scaled),
        Some(p) => match scaled.checked_mul(p as u128) {
            None => None,
            Some(v) => Some(v / (PRECISION as u128)),
        },
    }
}

fn downscale(amount: u128, multiplier: u64, price: Option<u64>) -> (r: Option<u64>)
    ensures
        r == downscaled(amount, multiplier, price),
{
    if multiplier == 0 {
        return None;
    }
    let v = match price {
        None => amount / (multiplier as u128),
        Some(p) => {
            if p == 0 {
                return None;
            }
            match amount.checked_mul(PRECISION as u128) {
                None => return None,
                Some(w) => w / (p as u128) / (multiplier as u128),
            }
        },
    };
    if v <= u64::MAX as u128 {
        Some(v as u64)
    } else {
        None
    }
}

fn stable_swap(
    amp: u64,
    tm: &TokenMultiplier,
    depeg: &Depeg,
    dx: u64,
    x: u64,
    y: u64,
    direction: TradeDirection,
) -> (r: Result<u64, QuoteError>)
    ensures
        r == stable_out(amp, *tm, *depeg, dx, x, y, direction),
{
    let a_to_b = match direction {
        TradeDirection::AtoB => true,
        TradeDirection::BtoA => false,
    };
    let m_in = if a_to_b { tm.token_a_multiplier } else { tm.token_b_multiplier };
    let m_out = if a_to_b { tm.token_b_multiplier } else { tm.token_a_multiplier };
    let p_in = side_price_exec(depeg, !a_to_b);
    let p_out = side_price_exec(depeg, a_to_b);
    let udx = upscale(dx, m_in, p_in);
    let ux = upscale(x, m_in, p_in);
    let uy = upscale(y, m_out, p_out);
    let (udx, ux, uy) = match (udx, ux, uy) {
        (Some(a), Some(b), Some(c)) => (a, b, c),
        _ => return Err(QuoteError::MathOverflow),
    };
    let new_x = match ux.checked_add(udx) {
        None => return Err(QuoteError::MathOverflow),
        Some(v) => v,
    };
    let d = match compute_d(amp, ux, uy) {
        Err(e) => return Err(e),
        Ok(v) => v,
    };
    let new_y = match compute_y(amp, new_x, d) {
        Err(e) => return Err(e),
        Ok(v) => v,
    };
    if new_y > uy {
        return Err(QuoteError::MathUnderflow);
    }
    match downscale(uy - new_y, m_out, p_out) {
        None => Err(QuoteError::MathOverflow),
        Some(out) => Ok(out),
    }
}

impl CurveType {
    /// Output of swapping `source_amount` into in-reserve
    /// `swap_source_amount` and out-reserve `swap_destination_amount`.
    pub fn swap(
        &self,
        source_amount: u64,
        swap_source_amount: u64,
        swap_destination_amount: u64,
        direction: TradeDirection,
    ) -> (r: Result<u64, QuoteError>)
        ensures
            r == swap_out(*self, source_amount, swap_source_amount, swap_destination_amount, direction),
            r is Ok ==> r->Ok_0 < swap_destination_amount,
    {
        let out = match self {
            CurveType::ConstantProduct => match constant_product_swap(source_amount, swap_source_amount, swap_destination_amount) {
                None => Err(QuoteError::MathOverflow),
                Some(out) => Ok(out),
            },
            CurveType::Stable { amp, token_multiplier, depeg, .. } => stable_swap(
                *amp,
                token_multiplier,
                depeg,
                source_amount,
                swap_source_amount,
                swap_destination_amount,
                direction,
            ),
        };
        match out {
            Err(e) => Err(e),
            Ok(v) => if v >= swap_destination_amount {
                Err(QuoteError::InsufficientLiquidity)
            } else {
                Ok(v)
            },
        }
    }
}

/// Curve kind chosen when a pool is created.
#[derive(Clone, Copy, Debug, PartialEq, Eq, Structural)]
pub enum CurveTypeIx {
    /// A constant-product pool.
    ConstantProduct,
    /// A stable pool.
    Stable,
}

/// The curve that a pool of kind `k` starts with: a stable curve starts
/// with every parameter zero and no virtual price.
pub open spec fn initial_curve(k: CurveTypeIx) -> CurveType {
    match k {
        CurveTypeIx::ConstantProduct => CurveType::ConstantProduct,
        CurveTypeIx::Stable => CurveType::Stable {
            amp: 0,
            token_multiplier: TokenMultiplier { token_a_multiplier: 0, token_b_multiplier: 0, precision_factor: 0 },
            depeg: Depeg { base_virtual_price: 0, base_cache_updated: 0, depeg_type: DepegType::Plain },
            last_amp_updated_timestamp: 0,
        },
    }
}

impl From<CurveTypeIx> for CurveType {
    fn from(value: CurveTypeIx) -> (r: CurveType)
        ensures
            r == initial_curve(value),
    {
        match value {
            CurveTypeIx::ConstantProduct => CurveType::ConstantProduct,
            CurveTypeIx::Stable => CurveType::Stable {
                amp: 0,
                token_multiplier: TokenMultiplier { token_a_multiplier: 0, token_b_multiplier: 0, precision_factor: 0 },
                depeg: Depeg { base_virtual_price: 0, base_cache_updated: 0, depeg_type: DepegType::Plain },
                last_amp_updated_timestamp: 0,
            },
        }
    }
}

impl vstd::std_specs::convert::FromSpecImpl<CurveTypeIx> for CurveType {
    open spec fn obeys_from_spec() -> bool {
        true
    }

    open spec fn from_spec(v: CurveTypeIx) -> CurveType {
        initial_curve(v)
    }
}

} // verus!
