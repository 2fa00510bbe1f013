//! Trade and protocol fee schedule, static or resolved from a time curve.
use vstd::arithmetic::div_mod::{lemma_div_is_ordered, lemma_div_by_multiple};
use vstd::arithmetic::mul::lemma_mul_inequality;
use crate::math::lemma_product_fits;
use vstd::prelude::*;

verus! {

/// Factor from a fee in basis points to the trade-fee numerator.
pub const BPS_TO_TRADE_FEE_NUMERATOR: u64 = 10;

/// Fee rates of a pool, as numerator over denominator.
#[derive(Clone, Copy, Debug, PartialEq, Eq, Structural)]
pub struct PoolFees {
    /// Trade fee numerator.
    pub trade_fee_numerator: u64,
    /// Trade fee denominator.
    pub trade_fee_denominator: u64,
    /// Share of the trade fee kept by the protocol, numerator.
    pub protocol_trade_fee_numerator: u64,
    /// Share of the trade fee kept by the protocol, denominator.
    pub protocol_trade_fee_denominator: u64,
}

/// How a fee curve is read between its control points.
#[derive(Clone, Copy, Debug, PartialEq, Eq, Structural)]
pub enum FeeCurveType {
    /// No curve: the stored fees apply.
    Static,
    /// Step function: the fee of the last point reached applies.
    Flat,
    /// Linear interpolation between neighbouring points.
    Linear,
}

/// One control point of a fee curve.
#[derive(Clone, Copy, Debug, PartialEq, Eq, Structural)]
pub struct FeePoint {
    /// Activation point (slot or timestamp) at which the fee is reached.
    pub activated_point: u64,
    /// Fee in basis points.
    pub fee_bps: u16,
}

/// A time-dependent trade-fee schedule, control points in increasing order.
#[derive(Clone, Debug)]
pub struct FeeCurve {
    /// How the points are read.
    pub fee_curve_type: FeeCurveType,
    /// The control points.
    pub points: Vec<FeePoint>,
}

/// `floor(amount * numerator / denominator)`, at least one token when the
/// fee is not zero; zero when the amount or the rate is zero; none on a zero
/// denominator or an overflow of 128 bits.
pub open spec fn fee_of(amount: u128, numerator: u64, denominator: u64) -> Option<u128> {
    if numerator == 0 || amount == 0 {
        Some(0u128)
    } else if denominator == 0 || amount * numerator > u128::MAX {
        None
    } else if amount * numerator / (denominator as int) == 0 {
        Some(1u128)
    } else {
        Some((amount * numerator / (denominator as int)) as u128)
    }
}

/// Fee charged on `amount` at a rate of `numerator / denominator`.
pub fn calculate_fee(amount: u128, numerator: u64, denominator: u64) -> (r: Option<u128>)
    ensures
        r == fee_of(amount, numerator, denominator),
{
    if numerator == 0 || amount == 0 {
        return Some(0);
    }
    if denominator == 0 {
        return None;
    }
    match amount.checked_mul(numerator as u128) {
        None => None,
        Some(product) => {
            let fee = product / (denominator as u128);
            if fee == 0 {
                Some(1)
            } else {
                Some(fee)
            }
        },
    }
}

impl PoolFees {
    /// Trade fee on `trading_tokens`, protocol share included.
    pub fn trading_fee(&self, trading_tokens: u128) -> (r: Option<u128>)
        ensures
            r == fee_of(trading_tokens, self.trade_fee_numerator, self.trade_fee_denominator),
    {
        calculate_fee(trading_tokens, self.trade_fee_numerator, self.trade_fee_denominator)
    }

    /// Protocol share of a trade fee of `trade_fee` tokens.
    pub fn protocol_trading_fee(&self, trade_fee: u128) -> (r: Option<u128>)
        ensures
            r == fee_of(trade_fee, self.protocol_trade_fee_numerator, self.protocol_trade_fee_denominator),
    {
        calculate_fee(trade_fee, self.protocol_trade_fee_numerator, self.protocol_trade_fee_denominator)
    }
}

/// The protocol fee is a part of the trade fee: with a protocol rate of at
/// most one, it is no larger than the trade fee it is cut from, so what is
/// left of the trade fee is never negative.
pub proof fn lemma_protocol_fee_within_trade_fee(fees: PoolFees, trade_fee: u128)
    requires
        fees.protocol_trade_fee_denominator > 0,
        fees.protocol_trade_fee_numerator <= fees.protocol_trade_fee_denominator,
        trade_fee <= u64::MAX,
    ensures
        fee_of(trade_fee, fees.protocol_trade_fee_numerator, fees.protocol_trade_fee_denominator) is Some,
        fee_of(trade_fee, fees.protocol_trade_fee_numerator, fees.protocol_trade_fee_denominator)->Some_0
            <= trade_fee,
{
    let n = fees.protocol_trade_fee_numerator as int;
    let d = fees.protocol_trade_fee_denominator as int;
    let a = trade_fee as int;
    if n != 0 && a != 0 {
        lemma_mul_inequality(n, d, a);
        assert(a * n == n * a && a * d == d * a) by (nonlinear_arith);
        lemma_div_is_ordered(a * n, a * d, d);
        lemma_div_by_multiple(a, d);
        lemma_product_fits(trade_fee as u64, fees.protocol_trade_fee_numerator);
    }
}

/// Fee in basis points from the control point at index `i`, the first one
/// at or after `t`: the first point's fee, the previous point's fee on a
/// step curve, else the linear blend of the two neighbouring points.
pub open spec fn fee_bps_at(points: Seq<FeePoint>, curve_type: FeeCurveType, t: u64, i: int) -> u16 {
    if i == 0 {
        points[0].fee_bps
    } else if curve_type == FeeCurveType::Flat {
        points[i - 1].fee_bps
    } else {
        let m = points[i - 1].fee_bps as int;
        let n = points[i].fee_bps as int;
        let a = points[i - 1].activated_point as int;
        let b = points[i].activated_point as int;
        if b - a == 0 {
            m as u16
        } else {
            ((n * (t - a) + m * (b - t)) / (b - a)) as u16
        }
    }
}

/// Fee in basis points at `t`: read at the first control point from index
/// `i` on whose activation point is at or after `t`, or the last point's fee
/// when the curve has fully elapsed.
pub open spec fn scan_fee_bps(points: Seq<FeePoint>, curve_type: FeeCurveType, t: u64, i: int) -> u16
    decreases points.len() - i,
{
    if i < 0 || i >= points.len() {
        points.last().fee_bps
    } else if points[i].activated_point >= t {
        fee_bps_at(points, curve_type, t, i)
    } else {
        scan_fee_bps(points, curve_type, t, i + 1)
    }
}

/// Fee in basis points that a curve gives at activation point `t`.
pub open spec fn curve_fee_bps(curve: FeeCurve, t: u64) -> u16 {
    scan_fee_bps(curve.points@, curve.fee_curve_type, t, 0)
}

/// Fees in force at `t`: the stored ones while no curve runs, else the trade
/// fee read from the curve with the stored denominators and protocol share.
pub open spec fn effective_fees(
    fees: PoolFees,
    curve: FeeCurve,
    update_completed: bool,
    t: u64,
) -> PoolFees {
    if curve.fee_curve_type == FeeCurveType::Static || update_completed || curve.points.len() == 0 {
        fees
    } else {
        PoolFees {
            trade_fee_numerator: (curve_fee_bps(curve, t) * BPS_TO_TRADE_FEE_NUMERATOR) as u64,
            ..fees
        }
    }
}

/// Interpolated fee between two control points; `a < t <= b` holds where it is used.
fn interpolate_bps(m: u16, n: u16, a: u64, b: u64, t: u64) -> (r: u16)
    requires
        a < t <= b,
    ensures
        r == ((n * (t - a) + m * (b - t)) / ((b - a) as int)) as u16,
        r <= m || r <= n,
{
    let span = (b - a) as u128;
    let left = (t - a) as u128;
    let right = (b - t) as u128;
    let hi: u128 = if m >= n { m as u128 } else { n as u128 };
    proof {
        lemma_mul_inequality(n as int, hi as int, left as int);
        lemma_mul_inequality(m as int, hi as int, right as int);
        lemma_mul_inequality(hi as int, u16::MAX as int, span as int);
        lemma_mul_inequality(span as int, u64::MAX as int, u16::MAX as int);
        assert(n * left == left * n && hi * left == left * hi && m * right == right * m
            && hi * right == right * hi) by (nonlinear_arith);
        assert(hi * left + hi * right == hi * span) by (nonlinear_arith)
            requires left + right == span;
        lemma_div_is_ordered(n * left + m * right, hi * span, span as int);
        lemma_div_by_multiple(hi as int, span as int);
    }
    let num = (n as u128) * left + (m as u128) * right;
    let q = num / span;
    q as u16
}

/// Fee in basis points that `curve` gives at activation point `t`.
pub fn latest_trade_fee_bps(curve: &FeeCurve, t: u64) -> (r: u16)
    requires
        curve.points.len() > 0,
    ensures
        r == curve_fee_bps(*curve, t),
{
    let points = &curve.points;
    let len = points.len();
    let mut i: usize = 0;
    while i < len
        invariant
            points@ == curve.points@,
            len == points.len(),
            len > 0,
            0 <= i <= len,
            forall|j: int| 0 <= j < i ==> (#[trigger] points@[j]).activated_point < t,
            scan_fee_bps(points@, curve.fee_curve_type, t, 0) == scan_fee_bps(points@, curve.fee_curve_type, t, i as int),
        decreases len - i,
    {
        if points[i].activated_point >= t {
            assert(scan_fee_bps(points@, curve.fee_curve_type, t, i as int)
                == fee_bps_at(points@, curve.fee_curve_type, t, i as int));
            if i == 0 {
                return points[0].fee_bps;
            }
            if curve.fee_curve_type == FeeCurveType::Flat {
                return points[i - 1].fee_bps;
            }
            let a = points[i - 1].activated_point;
            let b = points[i].activated_point;
            assert(points@[i - 1].activated_point < t);
            return interpolate_bps(points[i - 1].fee_bps, points[i].fee_bps, a, b, t);
        }
        assert(scan_fee_bps(points@, curve.fee_curve_type, t, i as int)
            == scan_fee_bps(points@, curve.fee_curve_type, t, i + 1));
        i = i + 1;
    }
    assert(scan_fee_bps(points@, curve.fee_curve_type, t, len as int) == points@.last().fee_bps);
    points[len - 1].fee_bps
}

/// Fees in force at activation point `current_point`.
pub fn get_latest_pool_fees(
    fees: &PoolFees,
    curve: &FeeCurve,
    update_completed: bool,
    current_point: u64,
) -> (r: PoolFees)
    ensures
        r == effective_fees(*fees, *curve, update_completed, current_point),
{
    if curve.fee_curve_type == FeeCurveType::Static || update_completed || curve.points.len() == 0 {
        return *fees;
    }
    let bps = latest_trade_fee_bps(curve, current_point);
    PoolFees { trade_fee_numerator: (bps as u64) * BPS_TO_TRADE_FEE_NUMERATOR, ..*fees }
}

} // verus!
