//! Vault share accounting: conversion between vault LP shares and the
//! underlying token amount, at the vault's unlocked value for a given time.
use vstd::arithmetic::div_mod::{lemma_div_is_ordered, lemma_div_by_multiple, lemma_fundamental_div_mod};
use vstd::arithmetic::mul::lemma_mul_inequality;
use crate::math::lemma_product_fits;
use vstd::prelude::*;

verus! {

/// Denominator of the per-second locked-profit release rate.
pub const LOCKED_PROFIT_DEGRADATION_DENOMINATOR: u128 = 1_000_000_000_000;

/// Profit of the last strategy report that is released linearly over time.
#[derive(Clone, Copy, Debug)]
pub struct LockedProfitTracker {
    /// Profit still locked at the time of the last report.
    pub last_updated_locked_profit: u64,
    /// Timestamp of the last report.
    pub last_report: u64,
    /// Release rate, as a fraction of `LOCKED_PROFIT_DEGRADATION_DENOMINATOR` per second.
    pub locked_profit_degradation: u64,
}

/// A yield-bearing vault, as far as share accounting reads it.
#[derive(Clone, Copy, Debug)]
pub struct Vault {
    /// Underlying tokens under management, deployed to strategies included.
    pub total_amount: u64,
    /// Schedule on which reported profit becomes part of the vault's value.
    pub locked_profit_tracker: LockedProfitTracker,
}

/// Profit still locked at time `now`; none when `now` precedes the last report.
pub open spec fn locked_profit_at(t: LockedProfitTracker, now: u64) -> Option<u64> {
    if now < t.last_report {
        None
    } else {
        let ratio = (now - t.last_report) * t.locked_profit_degradation;
        if ratio > LOCKED_PROFIT_DEGRADATION_DENOMINATOR {
            Some(0u64)
        } else {
            Some(
                (t.last_updated_locked_profit * (LOCKED_PROFIT_DEGRADATION_DENOMINATOR - ratio)
                    / LOCKED_PROFIT_DEGRADATION_DENOMINATOR as int) as u64,
            )
        }
    }
}

/// Value of the vault at time `now`: its total minus the profit still locked.
pub open spec fn unlocked_amount_at(v: Vault, now: u64) -> Option<u64> {
    match locked_profit_at(v.locked_profit_tracker, now) {
        None => None,
        Some(locked) => if locked <= v.total_amount {
            Some((v.total_amount - locked) as u64)
        } else {
            None
        },
    }
}

/// Tokens that `shares` out of `lp_supply` are worth at time `now`:
/// `floor(shares * unlocked / lp_supply)`, when that fits in 64 bits.
pub open spec fn amount_from_shares(v: Vault, now: u64, shares: u64, lp_supply: u64) -> Option<u64> {
    match unlocked_amount_at(v, now) {
        None => None,
        Some(unlocked) => if lp_supply == 0 {
            None
        } else if shares * unlocked / (lp_supply as int) > u64::MAX {
            None
        } else {
            Some((shares * unlocked / (lp_supply as int)) as u64)
        },
    }
}

/// Shares that a deposit of `amount` tokens mints at time `now`:
/// `floor(amount * lp_supply / unlocked)`, when that fits in 64 bits.
pub open spec fn shares_from_deposit(v: Vault, now: u64, amount: u64, lp_supply: u64) -> Option<u64> {
    match unlocked_amount_at(v, now) {
        None => None,
        Some(unlocked) => if unlocked == 0 {
            None
        } else if amount * lp_supply / (unlocked as int) > u64::MAX {
            None
        } else {
            Some((amount * lp_supply / (unlocked as int)) as u64)
        },
    }
}

impl LockedProfitTracker {
    /// Profit still locked at `current_time`.
    pub fn calculate_locked_profit(&self, current_time: u64) -> (r: Option<u64>)
        ensures
            r == locked_profit_at(*self, current_time),
    {
        if current_time < self.last_report {
            return None;
        }
        let duration = (current_time - self.last_report) as u128;
        let degradation = self.locked_profit_degradation as u128;
        proof {
            lemma_product_fits((current_time - self.last_report) as u64, self.locked_profit_degradation);
        }
        let ratio = duration * degradation;
        if ratio > LOCKED_PROFIT_DEGRADATION_DENOMINATOR {
            return Some(0);
        }
        let locked = self.last_updated_locked_profit as u128;
        let remaining = LOCKED_PROFIT_DEGRADATION_DENOMINATOR - ratio;
        proof {
            lemma_mul_inequality(remaining as int, LOCKED_PROFIT_DEGRADATION_DENOMINATOR as int, locked as int);
            lemma_product_fits(self.last_updated_locked_profit, 1_000_000_000_000u64);
            lemma_div_is_ordered(
                remaining * locked,
                LOCKED_PROFIT_DEGRADATION_DENOMINATOR * locked,
                LOCKED_PROFIT_DEGRADATION_DENOMINATOR as int,
            );
            lemma_div_by_multiple(locked as int, LOCKED_PROFIT_DEGRADATION_DENOMINATOR as int);
            assert(locked * remaining == remaining * locked) by (nonlinear_arith);
            assert(LOCKED_PROFIT_DEGRADATION_DENOMINATOR * locked == locked * LOCKED_PROFIT_DEGRADATION_DENOMINATOR) by (nonlinear_arith);
        }
        let profit = locked * remaining / LOCKED_PROFIT_DEGRADATION_DENOMINATOR;
        Some(profit as u64)
    }
}

impl Vault {
    /// Value of the vault at `current_time`, locked profit left out.
    pub fn get_unlocked_amount(&self, current_time: u64) -> (r: Option<u64>)
        ensures
            r == unlocked_amount_at(*self, current_time),
    {
        match self.locked_profit_tracker.calculate_locked_profit(current_time) {
            None => None,
            Some(locked) => self.total_amount.checked_sub(locked),
        }
    }

    /// Token amount that `share` vault LP out of `total_supply` is worth at `current_time`.
    pub fn get_amount_by_share(&self, current_time: u64, share: u64, total_supply: u64) -> (r: Option<u64>)
        ensures
            r == amount_from_shares(*self, current_time, share, total_supply),
    {
        let unlocked = match self.get_unlocked_amount(current_time) {
            None => return None,
            Some(u) => u,
        };
        if total_supply == 0 {
            return None;
        }
        proof {
            lemma_product_fits(share, unlocked);
        }
        let amount = (share as u128) * (unlocked as u128) / (total_supply as u128);
        if amount > u64::MAX as u128 {
            None
        } else {
            Some(amount as u64)
        }
    }

    /// Vault LP that a deposit of `out_token` tokens mints at `current_time`,
    /// out of `total_supply` shares outstanding.
    pub fn get_unmint_amount(&self, current_time: u64, out_token: u64, total_supply: u64) -> (r: Option<u64>)
        ensures
            r == shares_from_deposit(*self, current_time, out_token, total_supply),
    {
        let unlocked = match self.get_unlocked_amount(current_time) {
            None => return None,
            Some(u) => u,
        };
        if unlocked == 0 {
            return None;
        }
        proof {
            lemma_product_fits(out_token, total_supply);
        }
        let shares = (out_token as u128) * (total_supply as u128) / (unlocked as u128);
        if shares > u64::MAX as u128 {
            None
        } else {
            Some(shares as u64)
        }
    }
}

/// Rounding never creates value: the shares that a deposit of `amount` mints
/// are worth at most `amount` when converted back at the same time and supply.
pub proof fn lemma_deposit_round_trip(v: Vault, now: u64, amount: u64, lp_supply: u64)
    requires
        lp_supply > 0,
        shares_from_deposit(v, now, amount, lp_supply) is Some,
    ensures
        amount_from_shares(v, now, shares_from_deposit(v, now, amount, lp_supply)->Some_0, lp_supply) is Some,
        amount_from_shares(v, now, shares_from_deposit(v, now, amount, lp_supply)->Some_0, lp_supply)->Some_0
            <= amount,
{
    let unlocked = unlocked_amount_at(v, now)->Some_0 as int;
    let s = shares_from_deposit(v, now, amount, lp_supply)->Some_0 as int;
    let supply = lp_supply as int;
    // s * unlocked <= amount * supply
    lemma_fundamental_div_mod(amount * supply, unlocked);
    assert(s == (amount * supply) / unlocked);
    assert((amount * supply) % unlocked >= 0);
    assert(unlocked * s <= amount * supply);
    assert(s * unlocked == unlocked * s) by (nonlinear_arith);
    lemma_div_is_ordered(s * unlocked, amount * supply, supply);
    lemma_div_by_multiple(amount as int, supply);
}

/// Tokens that a payout of `amount` settles to when it goes through the
/// vault's shares: the shares it is worth, converted back at the same time
/// and supply.
pub open spec fn settled_amount(v: Vault, now: u64, amount: u64, lp_supply: u64) -> Option<u64> {
    match shares_from_deposit(v, now, amount, lp_supply) {
        None => None,
        Some(shares) => amount_from_shares(v, now, shares, lp_supply),
    }
}

/// Settling through the vault's shares keeps order: a larger amount never
/// settles to fewer tokens.
pub proof fn lemma_settled_amount_monotone(v: Vault, now: u64, a1: u64, a2: u64, lp_supply: u64)
    requires
        a1 <= a2,
        settled_amount(v, now, a2, lp_supply) is Some,
    ensures
        settled_amount(v, now, a1, lp_supply) is Some,
        settled_amount(v, now, a1, lp_supply)->Some_0 <= settled_amount(v, now, a2, lp_supply)->Some_0,
{
    let unlocked = unlocked_amount_at(v, now)->Some_0 as int;
    let supply = lp_supply as int;
    assert(a1 * supply <= a2 * supply) by (nonlinear_arith) requires a1 <= a2, supply >= 0;
    lemma_div_is_ordered(a1 * supply, a2 * supply, unlocked);
    let s1 = (a1 * supply) / unlocked;
    let s2 = (a2 * supply) / unlocked;
    vstd::arithmetic::div_mod::lemma_div_pos_is_pos(a1 * supply, unlocked);
    assert(s1 * unlocked <= s2 * unlocked) by (nonlinear_arith) requires 0 <= s1 <= s2, unlocked > 0;
    lemma_div_is_ordered(s1 * unlocked, s2 * unlocked, supply);
    vstd::arithmetic::div_mod::lemma_div_pos_is_pos(s1 * unlocked, supply);
}

} // verus!
