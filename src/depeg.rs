//! Virtual price of a staking-derivative token, read from its stake pool.
use crate::curve::CurveType;
use crate::error::QuoteError;
use vstd::prelude::*;

verus! {

/// Fixed-point scale of virtual prices.
pub const PRECISION: u64 = 1_000_000;

/// Seconds for which a stored virtual price stays fresh.
pub const BASE_CACHE_EXPIRES: u64 = 600;

/// Source of the virtual price of a depeg pool.
#[derive(Clone, Copy, Debug, PartialEq, Eq, Structural)]
pub enum DepegType {
    /// Not a depeg pool: no virtual price is applied.
    Plain,
    /// The price comes from an SPL stake pool.
    SplStake,
}

/// Virtual-price state that a stable curve carries for a depeg pool.
#[derive(Clone, Copy, Debug, PartialEq, Eq, Structural)]
pub struct Depeg {
    /// Last known virtual price, scaled by `PRECISION`.
    pub base_virtual_price: u64,
    /// Timestamp at which `base_virtual_price` was taken.
    pub base_cache_updated: u64,
    /// Where the price comes from.
    pub depeg_type: DepegType,
}

/// The fields of a stake-pool account that the virtual price is made of.
#[derive(Clone, Copy, Debug, PartialEq, Eq, Structural)]
pub struct StakePoolState {
    /// Lamports under management.
    pub total_lamports: u64,
    /// Pool tokens outstanding.
    pub pool_token_supply: u64,
    /// Withdrawal fee, numerator.
    pub sol_withdrawal_fee_numerator: u64,
    /// Withdrawal fee, denominator.
    pub sol_withdrawal_fee_denominator: u64,
}

/// `floor(total_lamports * PRECISION / pool_token_supply)`.
pub open spec fn deposit_price(s: StakePoolState) -> int {
    s.total_lamports * PRECISION / (s.pool_token_supply as int)
}

/// `floor(total_lamports * (den - num) * PRECISION / den / pool_token_supply)`.
pub open spec fn withdraw_price(s: StakePoolState) -> int {
    s.total_lamports * (s.sol_withdrawal_fee_denominator - s.sol_withdrawal_fee_numerator) * PRECISION
        / (s.sol_withdrawal_fee_denominator as int) / (s.pool_token_supply as int)
}

/// The virtual price: the deposit price alone when the withdrawal fee is
/// implausibly high (at least a tenth), else deposit and withdraw prices
/// weighted three to one; none on an empty pool or a price beyond 64 bits.
pub open spec fn virtual_price_of(s: StakePoolState) -> Option<u64> {
    if s.pool_token_supply == 0 {
        None
    } else if s.sol_withdrawal_fee_denominator <= s.sol_withdrawal_fee_numerator * 10 {
        if deposit_price(s) <= u64::MAX {
            Some(deposit_price(s) as u64)
        } else {
            None
        }
    } else if s.total_lamports * (s.sol_withdrawal_fee_denominator - s.sol_withdrawal_fee_numerator) * PRECISION
        > u128::MAX {
        None
    } else if (3 * deposit_price(s) + withdraw_price(s)) / 4 <= u64::MAX {
        Some(((3 * deposit_price(s) + withdraw_price(s)) / 4) as u64)
    } else {
        None
    }
}

/// What the bytes of a stake-pool account decode to: total lamports, pool
/// token supply, and the SOL withdrawal fee's numerator and denominator.
pub uninterp spec fn decoded_stake_pool(bytes: Seq<u8>) -> Option<(u64, u64, u64, u64)>;

/// The stake-pool fields of a decoded tuple.
pub open spec fn stake_state_of(t: (u64, u64, u64, u64)) -> StakePoolState {
    StakePoolState {
        total_lamports: t.0,
        pool_token_supply: t.1,
        sol_withdrawal_fee_numerator: t.2,
        sol_withdrawal_fee_denominator: t.3,
    }
}

/// The stake-pool fields that `bytes` decode to, if any.
pub open spec fn decoded_state(bytes: Seq<u8>) -> Option<StakePoolState> {
    match decoded_stake_pool(bytes) {
        None => None,
        Some(t) => Some(stake_state_of(t)),
    }
}

/// The virtual price that the bytes of a stake-pool account give, if any.
pub open spec fn virtual_price_of_bytes(bytes: Seq<u8>) -> Option<u64> {
    match decoded_state(bytes) {
        None => None,
        Some(s) => virtual_price_of(s),
    }
}

/// Relies on `solana_borsh::v1::try_from_slice_unchecked` to decode an
/// `spl_stake_pool::state::StakePool` from the leading bytes of `bytes`;
/// the outcome depends on the bytes alone.
#[verifier::external_body]
fn decode_stake_pool(bytes: &[u8]) -> (r: Option<StakePoolState>)
    ensures
        match decoded_stake_pool(bytes@) {
            None => r is None,
            Some(t) => r == Some(stake_state_of(t)),
        },
{
    match solana_borsh::v1::try_from_slice_unchecked::<spl_stake_pool::state::StakePool>(bytes) {
        Err(_) => None,
        Ok(s) => Some(StakePoolState {
            total_lamports: s.total_lamports,
            pool_token_supply: s.pool_token_supply,
            sol_withdrawal_fee_numerator: s.sol_withdrawal_fee.numerator,
            sol_withdrawal_fee_denominator: s.sol_withdrawal_fee.denominator,
        }),
    }
}

/// Virtual price of the staking-derivative token, from the raw bytes of its
/// stake-pool account; none where they do not decode.
pub fn get_virtual_price(bytes: &[u8]) -> (r: Option<u64>)
    ensures
        r == virtual_price_of_bytes(bytes@),
{
    match decode_stake_pool(bytes) {
        None => None,
        Some(stake) => virtual_price_from_state(&stake),
    }
}

/// Virtual price of the staking-derivative token of stake pool `stake`.
pub fn virtual_price_from_state(stake: &StakePoolState) -> (r: Option<u64>)
    ensures
        r == virtual_price_of(*stake),
{
    let total_lamports = stake.total_lamports as u128;
    let supply = stake.pool_token_supply as u128;
    if supply == 0 {
        return None;
    }
    proof {
        crate::math::lemma_product_fits(stake.total_lamports, PRECISION);
    }
    let deposit = total_lamports * (PRECISION as u128) / supply;
    let numerator = stake.sol_withdrawal_fee_numerator as u128;
    let denominator = stake.sol_withdrawal_fee_denominator as u128;
    if denominator <= numerator * 10 {
        if deposit <= u64::MAX as u128 {
            return Some(deposit as u64);
        }
        return None;
    }
    let kept = denominator - numerator;
    proof {
        crate::math::lemma_product_fits(stake.total_lamports, kept as u64);
    }
    let scaled = match (total_lamports * kept).checked_mul(PRECISION as u128) {
        None => return None,
        Some(v) => v,
    };
    let withdraw = scaled / denominator / supply;
    proof {
        lemma_price_bounds(stake.total_lamports, kept as u64, stake.sol_withdrawal_fee_denominator,
            stake.pool_token_supply);
    }
    let price = (3 * deposit + withdraw) / 4;
    if price <= u64::MAX as u128 {
        Some(price as u64)
    } else {
        None
    }
}

proof fn lemma_price_bounds(lamports: u64, kept: u64, denominator: u64, supply: u64)
    requires
        supply > 0,
        kept <= denominator,
        denominator > 0,
    ensures
        lamports * PRECISION / (supply as int) <= u64::MAX * PRECISION,
        lamports * kept * PRECISION / (denominator as int) / (supply as int) <= u64::MAX * PRECISION,
{
    let p = PRECISION as int;
    assert(lamports * p <= u64::MAX * p) by (nonlinear_arith) requires lamports <= u64::MAX, p > 0;
    vstd::arithmetic::div_mod::lemma_div_is_ordered_by_denominator(lamports * p, 1, supply as int);
    assert(lamports * kept * p <= lamports * p * denominator) by (nonlinear_arith)
        requires kept <= denominator, lamports >= 0, p > 0, kept >= 0;
    vstd::arithmetic::div_mod::lemma_div_is_ordered(lamports * kept * p, lamports * p * denominator, denominator as int);
    vstd::arithmetic::div_mod::lemma_div_by_multiple(lamports * p, denominator as int);
    let w = lamports * kept * p / (denominator as int);
    vstd::arithmetic::div_mod::lemma_div_is_ordered_by_denominator(w, 1, supply as int);
}

/// The virtual price that `stake`'s bytes give, where bytes were given.
pub open spec fn fresh_price(stake: Option<Seq<u8>>) -> Option<u64> {
    match stake {
        None => None,
        Some(b) => virtual_price_of_bytes(b),
    }
}

/// The virtual price that a quote at `now` uses: the fresh one from `stake`
/// where it can be had; else the stored one while it has not expired.
pub open spec fn resolved_depeg(d: Depeg, now: u64, stake: Option<Seq<u8>>) -> Result<Depeg, QuoteError> {
    if d.depeg_type == DepegType::Plain {
        Ok(d)
    } else {
        match fresh_price(stake) {
            Some(p) => Ok(Depeg { base_virtual_price: p, base_cache_updated: now, ..d }),
            None => if now <= d.base_cache_updated + BASE_CACHE_EXPIRES {
                Ok(d)
            } else {
                Err(QuoteError::DepegDecodeFailure)
            },
        }
    }
}

/// The bytes of a stake-pool account, where one was given.
pub open spec fn bytes_of(stake: Option<&Vec<u8>>) -> Option<Seq<u8>> {
    match stake {
        None => None,
        Some(b) => Some(b@),
    }
}

/// The curve that a quote at `now` uses, its virtual price resolved.
pub open spec fn resolved_curve(c: CurveType, now: u64, stake: Option<Seq<u8>>) -> Result<CurveType, QuoteError> {
    match c {
        CurveType::ConstantProduct => Ok(c),
        CurveType::Stable { amp, token_multiplier, depeg, last_amp_updated_timestamp } => match resolved_depeg(depeg, now, stake) {
            Err(e) => Err(e),
            Ok(d) => Ok(CurveType::Stable { amp, token_multiplier, depeg: d, last_amp_updated_timestamp }),
        },
    }
}

/// Brings the virtual price of `curve` up to date for a quote at `now`.
/// A price that cannot be had is fatal only where the stored one has expired.
pub fn update_base_virtual_price(curve: &mut CurveType, now: u64, stake: Option<&Vec<u8>>) -> (r: Result<(), QuoteError>)
    ensures
        match resolved_curve(*old(curve), now, bytes_of(stake)) {
            Ok(c) => r is Ok && *final(curve) == c,
            Err(e) => r == Err::<(), QuoteError>(e) && *final(curve) == *old(curve),
        },
{
    match curve {
        CurveType::ConstantProduct => Ok(()),
        CurveType::Stable { depeg, .. } => {
            if depeg.depeg_type == DepegType::Plain {
                return Ok(());
            }
            let price = match stake {
                None => None,
                Some(b) => get_virtual_price(b.as_slice()),
            };
            match price {
                Some(p) => {
                    depeg.base_virtual_price = p;
                    depeg.base_cache_updated = now;
                    Ok(())
                },
                None => {
                    let expired = if depeg.base_cache_updated > u64::MAX - BASE_CACHE_EXPIRES {
                        false
                    } else {
                        now > depeg.base_cache_updated + BASE_CACHE_EXPIRES
                    };
                    if expired {
                        Err(QuoteError::DepegDecodeFailure)
                    } else {
                        Ok(())
                    }
                },
            }
        },
    }
}

} // verus!
