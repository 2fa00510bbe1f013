//! The quote orchestrator: pool and vault state in, swap output and fee out.
use crate::curve::{constant_product_out, lemma_constant_product_bounds, swap_out, CurveType, TradeDirection};
use crate::depeg::{bytes_of, resolved_curve, update_base_virtual_price};
use crate::error::QuoteError;
use crate::fees::{effective_fees, fee_of, get_latest_pool_fees, FeeCurve, PoolFees};
use crate::vault::{
    amount_from_shares, lemma_deposit_round_trip, lemma_settled_amount_monotone, settled_amount, shares_from_deposit,
    Vault,
};
use vstd::prelude::*;

verus! {

/// An account address: its 32 bytes as two big-endian halves.
#[derive(Clone, Copy, Debug, PartialEq, Eq, Structural)]
pub struct Pubkey {
    /// First 16 bytes.
    pub high: u128,
    /// Last 16 bytes.
    pub low: u128,
}

/// What a pool's activation point counts.
#[derive(Clone, Copy, Debug, PartialEq, Eq, Structural)]
pub enum ActivationType {
    /// Slots.
    Slot,
    /// Unix timestamps, in seconds.
    Timestamp,
}

/// When a pool opens for trading.
#[derive(Clone, Copy, Debug, PartialEq, Eq, Structural)]
pub struct Bootstrapping {
    /// First slot or timestamp at which swaps are accepted.
    pub activation_point: u64,
    /// What `activation_point` counts.
    pub activation_type: ActivationType,
}

/// The state of a pool that a quote reads.
#[derive(Clone, Debug)]
pub struct Pool {
    /// Mint of token A.
    pub token_a_mint: Pubkey,
    /// Mint of token B.
    pub token_b_mint: Pubkey,
    /// Whether the pool accepts swaps.
    pub enabled: bool,
    /// Stored fee rates.
    pub fees: PoolFees,
    /// Scheduled trade-fee curve.
    pub fee_curve: FeeCurve,
    /// Whether the scheduled fee curve has run to its end.
    pub is_update_fee_completed: bool,
    /// When the pool opens.
    pub bootstrapping: Bootstrapping,
    /// Stake pool whose state gives the virtual price of a depeg pool.
    pub stake: Pubkey,
    /// The invariant that the pool trades on.
    pub curve_type: CurveType,
}

/// A token account, as far as a quote reads it.
#[derive(Clone, Copy, Debug, PartialEq, Eq, Structural)]
pub struct TokenAccount {
    /// Tokens held.
    pub amount: u64,
}

/// A mint, as far as a quote reads it.
#[derive(Clone, Copy, Debug, PartialEq, Eq, Structural)]
pub struct Mint {
    /// Tokens outstanding.
    pub supply: u64,
}

/// The chain clock.
#[derive(Clone, Copy, Debug, PartialEq, Eq, Structural)]
pub struct Clock {
    /// Current slot.
    pub slot: u64,
    /// Current unix timestamp.
    pub unix_timestamp: i64,
}

/// A vault together with the pool's position in it.
#[derive(Clone, Copy, Debug)]
pub struct VaultInfo {
    /// Vault LP held by the pool.
    pub lp_amount: u64,
    /// Vault LP outstanding.
    pub lp_supply: u64,
    /// The vault.
    pub vault: Vault,
}

/// Everything a quote reads.
#[derive(Clone, Debug)]
pub struct QuoteData {
    /// The pool.
    pub pool: Pool,
    /// Vault of token A.
    pub vault_a: Vault,
    /// Vault of token B.
    pub vault_b: Vault,
    /// The pool's LP account in vault A.
    pub pool_vault_a_lp_token: TokenAccount,
    /// The pool's LP account in vault B.
    pub pool_vault_b_lp_token: TokenAccount,
    /// LP mint of vault A.
    pub vault_a_lp_mint: Mint,
    /// LP mint of vault B.
    pub vault_b_lp_mint: Mint,
    /// Token account of vault A.
    pub vault_a_token: TokenAccount,
    /// Token account of vault B.
    pub vault_b_token: TokenAccount,
    /// The clock.
    pub clock: Clock,
    /// Raw bytes of stake-pool accounts, by address; depeg pools only.
    pub stake_data: Vec<(Pubkey, Vec<u8>)>,
}

/// Outcome of a quote.
#[derive(Clone, Copy, Debug, PartialEq, Eq, Structural)]
pub struct QuoteResult {
    /// Tokens out.
    pub out_amount: u64,
    /// Trade fee, protocol share excluded, in the input token.
    pub fee: u64,
}

/// Bytes of the first entry from index `i` on whose address is `key`.
pub open spec fn stake_entry_from(entries: Seq<(Pubkey, Vec<u8>)>, key: Pubkey, i: int) -> Option<Seq<u8>>
    decreases entries.len() - i,
{
    if i < 0 || i >= entries.len() {
        None
    } else if entries[i].0 == key {
        Some(entries[i].1@)
    } else {
        stake_entry_from(entries, key, i + 1)
    }
}

/// Bytes of the stake-pool account at `key` among `entries`, if given.
pub open spec fn stake_entry(entries: Seq<(Pubkey, Vec<u8>)>, key: Pubkey) -> Option<Seq<u8>> {
    stake_entry_from(entries, key, 0)
}

/// Bytes of the stake-pool account at `key` among `entries`, if given.
pub fn find_stake_data(entries: &Vec<(Pubkey, Vec<u8>)>, key: Pubkey) -> (r: Option<&Vec<u8>>)
    ensures
        bytes_of(r) == stake_entry(entries@, key),
{
    let mut i: usize = 0;
    while i < entries.len()
        invariant
            0 <= i <= entries.len(),
            stake_entry(entries@, key) == stake_entry_from(entries@, key, i as int),
        decreases entries.len() - i,
    {
        if entries[i].0 == key {
            return Some(&entries[i].1);
        }
        i = i + 1;
    }
    None
}

/// The activation point now, counted as the pool counts it.
pub open spec fn current_point_of(pool: Pool, clock: Clock) -> int {
    match pool.bootstrapping.activation_type {
        ActivationType::Slot => clock.slot as int,
        ActivationType::Timestamp => clock.unix_timestamp as int,
    }
}

/// Tokens that the pool holds on the out side of a swap of `in_mint`,
/// before the swap.
pub open spec fn out_reserve_of(in_mint: Pubkey, q: QuoteData) -> Option<u64> {
    let now = q.clock.unix_timestamp as u64;
    if in_mint == q.pool.token_a_mint {
        amount_from_shares(q.vault_b, now, q.pool_vault_b_lp_token.amount, q.vault_b_lp_mint.supply)
    } else {
        amount_from_shares(q.vault_a, now, q.pool_vault_a_lp_token.amount, q.vault_a_lp_mint.supply)
    }
}

/// Outcome of the swap once the pool is validated and the curve resolved.
pub open spec fn swap_outcome(
    in_amount: u64,
    now: u64,
    point: u64,
    pool: Pool,
    curve: CurveType,
    direction: TradeDirection,
    in_vault: Vault,
    out_vault: Vault,
    in_lp: u64,
    in_supply: u64,
    out_supply: u64,
    out_token: u64,
    in_reserve: u64,
    out_reserve: u64,
) -> Result<QuoteResult, QuoteError> {
    let fees = effective_fees(pool.fees, pool.fee_curve, pool.is_update_fee_completed, point);
    match fee_of(in_amount as u128, fees.trade_fee_numerator, fees.trade_fee_denominator) {
        None => Err(QuoteError::MathOverflow),
        Some(trade_fee) => match fee_of(trade_fee, fees.protocol_trade_fee_numerator, fees.protocol_trade_fee_denominator) {
            None => Err(QuoteError::MathOverflow),
            Some(protocol_fee) => if protocol_fee > trade_fee {
                Err(QuoteError::MathUnderflow)
            } else if protocol_fee > u64::MAX {
                Err(QuoteError::MathOverflow)
            } else if protocol_fee > in_amount {
                Err(QuoteError::MathUnderflow)
            } else {
                let lp_fee = trade_fee - protocol_fee;
                let in_after_protocol = (in_amount - protocol_fee) as u64;
                match shares_from_deposit(in_vault, now, in_after_protocol, in_supply) {
                    None => Err(QuoteError::MathOverflow),
                    Some(minted) => if in_vault.total_amount + in_after_protocol > u64::MAX
                        || minted + in_lp > u64::MAX || in_supply + minted > u64::MAX {
                        Err(QuoteError::MathOverflow)
                    } else {
                        let deposited = Vault { total_amount: (in_vault.total_amount + in_after_protocol) as u64, ..in_vault };
                        match amount_from_shares(deposited, now, (minted + in_lp) as u64, (in_supply + minted) as u64) {
                            None => Err(QuoteError::MathOverflow),
                            Some(after) => if after < in_reserve {
                                Err(QuoteError::MathUnderflow)
                            } else if lp_fee > u64::MAX {
                                Err(QuoteError::MathOverflow)
                            } else if lp_fee > after - in_reserve {
                                Err(QuoteError::MathUnderflow)
                            } else {
                                match swap_out(curve, (after - in_reserve - lp_fee) as u64, in_reserve, out_reserve, direction) {
                                    Err(e) => Err(e),
                                    Ok(swapped) => match shares_from_deposit(out_vault, now, swapped, out_supply) {
                                        None => Err(QuoteError::MathOverflow),
                                        Some(out_lp) => match amount_from_shares(out_vault, now, out_lp, out_supply) {
                                            None => Err(QuoteError::MathOverflow),
                                            Some(out) => if out >= out_token {
                                                Err(QuoteError::InsufficientLiquidity)
                                            } else {
                                                Ok(QuoteResult { out_amount: out, fee: lp_fee as u64 })
                                            },
                                        },
                                    },
                                }
                            },
                        }
                    },
                }
            },
        },
    }
}

/// Outcome of quoting a swap of `in_amount` of `in_mint` against `q`.
pub open spec fn quote_outcome(in_mint: Pubkey, in_amount: u64, q: QuoteData) -> Result<QuoteResult, QuoteError> {
    let pool = q.pool;
    let point = current_point_of(pool, q.clock);
    let now = q.clock.unix_timestamp as u64;
    if !pool.enabled {
        Err(QuoteError::PoolDisabled)
    } else if point < pool.bootstrapping.activation_point {
        Err(QuoteError::SwapNotYetActive)
    } else if in_mint != pool.token_a_mint && in_mint != pool.token_b_mint {
        Err(QuoteError::InvalidInputMint)
    } else if q.clock.unix_timestamp < 0 {
        Err(QuoteError::MathOverflow)
    } else {
        match resolved_curve(pool.curve_type, now, stake_entry(q.stake_data@, pool.stake)) {
            Err(e) => Err(e),
            Ok(curve) => match (
                amount_from_shares(q.vault_a, now, q.pool_vault_a_lp_token.amount, q.vault_a_lp_mint.supply),
                amount_from_shares(q.vault_b, now, q.pool_vault_b_lp_token.amount, q.vault_b_lp_mint.supply),
            ) {
                (Some(token_a), Some(token_b)) => if in_mint == pool.token_a_mint {
                    swap_outcome(in_amount, now, point as u64, pool, curve, TradeDirection::AtoB, q.vault_a, q.vault_b,
                        q.pool_vault_a_lp_token.amount, q.vault_a_lp_mint.supply, q.vault_b_lp_mint.supply,
                        q.vault_b_token.amount, token_a, token_b)
                } else {
                    swap_outcome(in_amount, now, point as u64, pool, curve, TradeDirection::BtoA, q.vault_b, q.vault_a,
                        q.pool_vault_b_lp_token.amount, q.vault_b_lp_mint.supply, q.vault_a_lp_mint.supply,
                        q.vault_a_token.amount, token_b, token_a)
                },
                _ => Err(QuoteError::MathOverflow),
            },
        }
    }
}

fn quote_swap(
    in_amount: u64,
    now: u64,
    point: u64,
    pool: &Pool,
    curve: &CurveType,
    direction: TradeDirection,
    in_vault: Vault,
    out_vault: Vault,
    in_lp: u64,
    in_supply: u64,
    out_supply: u64,
    out_token: u64,
    in_reserve: u64,
    out_reserve: u64,
) -> (r: Result<QuoteResult, QuoteError>)
    ensures
        r == swap_outcome(in_amount, now, point, *pool, *curve, direction, in_vault, out_vault, in_lp,
            in_supply, out_supply, out_token, in_reserve, out_reserve),
        r is Ok ==> r->Ok_0.out_amount < out_reserve,
{
    let fees = get_latest_pool_fees(&pool.fees, &pool.fee_curve, pool.is_update_fee_completed, point);
    let trade_fee = match fees.trading_fee(in_amount as u128) {
        None => return Err(QuoteError::MathOverflow),
        Some(v) => v,
    };
    let protocol_fee = match fees.protocol_trading_fee(trade_fee) {
        None => return Err(QuoteError::MathOverflow),
        Some(v) => v,
    };
    // The protocol fee is cut from the trade fee.
    if protocol_fee > trade_fee {
        return Err(QuoteError::MathUnderflow);
    }
    let lp_fee = trade_fee - protocol_fee;
    if protocol_fee > u64::MAX as u128 {
        return Err(QuoteError::MathOverflow);
    }
    let protocol_fee = protocol_fee as u64;
    if protocol_fee > in_amount {
        return Err(QuoteError::MathUnderflow);
    }
    let in_after_protocol = in_amount - protocol_fee;
    // Deposit into a transient copy of the in-vault and measure what the
    // pool's position gains, vault rounding included.
    let minted = match in_vault.get_unmint_amount(now, in_after_protocol, in_supply) {
        None => return Err(QuoteError::MathOverflow),
        Some(v) => v,
    };
    let mut deposited = in_vault;
    deposited.total_amount = match in_vault.total_amount.checked_add(in_after_protocol) {
        None => return Err(QuoteError::MathOverflow),
        Some(v) => v,
    };
    let new_lp = match minted.checked_add(in_lp) {
        None => return Err(QuoteError::MathOverflow),
        Some(v) => v,
    };
    let new_supply = match in_supply.checked_add(minted) {
        None => return Err(QuoteError::MathOverflow),
        Some(v) => v,
    };
    let after = match deposited.get_amount_by_share(now, new_lp, new_supply) {
        None => return Err(QuoteError::MathOverflow),
        Some(v) => v,
    };
    if after < in_reserve {
        return Err(QuoteError::MathUnderflow);
    }
    let actual_in = after - in_reserve;
    if lp_fee > u64::MAX as u128 {
        return Err(QuoteError::MathOverflow);
    }
    let lp_fee = lp_fee as u64;
    if lp_fee > actual_in {
        return Err(QuoteError::MathUnderflow);
    }
    let swapped = match curve.swap(actual_in - lp_fee, in_reserve, out_reserve, direction) {
        Err(e) => return Err(e),
        Ok(v) => v,
    };
    // The output is settled in out-vault shares, so it is rounded as they are.
    let out_lp = match out_vault.get_unmint_amount(now, swapped, out_supply) {
        None => return Err(QuoteError::MathOverflow),
        Some(v) => v,
    };
    let out_amount = match out_vault.get_amount_by_share(now, out_lp, out_supply) {
        None => return Err(QuoteError::MathOverflow),
        Some(v) => v,
    };
    proof {
        lemma_deposit_round_trip(out_vault, now, swapped, out_supply);
    }
    if out_amount >= out_token {
        return Err(QuoteError::InsufficientLiquidity);
    }
    Ok(QuoteResult { out_amount, fee: lp_fee })
}

/// Quotes a swap of `in_amount` of `in_token_mint` against the state in `quote_data`.
pub fn compute_quote(in_token_mint: Pubkey, in_amount: u64, quote_data: QuoteData) -> (r: Result<QuoteResult, QuoteError>)
    ensures
        r == quote_outcome(in_token_mint, in_amount, quote_data),
        !quote_data.pool.enabled ==> r == Err::<QuoteResult, QuoteError>(QuoteError::PoolDisabled),
        quote_data.pool.enabled
            && current_point_of(quote_data.pool, quote_data.clock) < quote_data.pool.bootstrapping.activation_point
            ==> r == Err::<QuoteResult, QuoteError>(QuoteError::SwapNotYetActive),
        quote_data.pool.enabled
            && current_point_of(quote_data.pool, quote_data.clock) >= quote_data.pool.bootstrapping.activation_point
            && in_token_mint != quote_data.pool.token_a_mint && in_token_mint != quote_data.pool.token_b_mint
            ==> r == Err::<QuoteResult, QuoteError>(QuoteError::InvalidInputMint),
        r is Ok ==> r->Ok_0.out_amount < (if in_token_mint == quote_data.pool.token_a_mint {
            quote_data.vault_b_token.amount
        } else {
            quote_data.vault_a_token.amount
        }),
        r is Ok ==> out_reserve_of(in_token_mint, quote_data) is Some
            && r->Ok_0.out_amount < out_reserve_of(in_token_mint, quote_data)->Some_0,
{
    let pool = &quote_data.pool;
    let clock = quote_data.clock;
    if !pool.enabled {
        return Err(QuoteError::PoolDisabled);
    }
    let active = match pool.bootstrapping.activation_type {
        ActivationType::Slot => clock.slot >= pool.bootstrapping.activation_point,
        ActivationType::Timestamp => clock.unix_timestamp >= 0
            && clock.unix_timestamp as u64 >= pool.bootstrapping.activation_point,
    };
    if !active {
        return Err(QuoteError::SwapNotYetActive);
    }
    if in_token_mint != pool.token_a_mint && in_token_mint != pool.token_b_mint {
        return Err(QuoteError::InvalidInputMint);
    }
    // Vault values are read at the current unix time, which must not precede the epoch.
    if clock.unix_timestamp < 0 {
        return Err(QuoteError::MathOverflow);
    }
    let now = clock.unix_timestamp as u64;
    let point = match pool.bootstrapping.activation_type {
        ActivationType::Slot => clock.slot,
        ActivationType::Timestamp => now,
    };
    let mut curve = pool.curve_type;
    match update_base_virtual_price(&mut curve, now, find_stake_data(&quote_data.stake_data, pool.stake)) {
        Err(e) => return Err(e),
        Ok(()) => {},
    }
    let token_a = match quote_data.vault_a.get_amount_by_share(
        now,
        quote_data.pool_vault_a_lp_token.amount,
        quote_data.vault_a_lp_mint.supply,
    ) {
        None => return Err(QuoteError::MathOverflow),
        Some(v) => v,
    };
    let token_b = match quote_data.vault_b.get_amount_by_share(
        now,
        quote_data.pool_vault_b_lp_token.amount,
        quote_data.vault_b_lp_mint.supply,
    ) {
        None => return Err(QuoteError::MathOverflow),
        Some(v) => v,
    };
    if in_token_mint == pool.token_a_mint {
        quote_swap(in_amount, now, point, pool, &curve, TradeDirection::AtoB, quote_data.vault_a,
            quote_data.vault_b, quote_data.pool_vault_a_lp_token.amount, quote_data.vault_a_lp_mint.supply,
            quote_data.vault_b_lp_mint.supply, quote_data.vault_b_token.amount, token_a, token_b)
    } else {
        quote_swap(in_amount, now, point, pool, &curve, TradeDirection::BtoA, quote_data.vault_b,
            quote_data.vault_a, quote_data.pool_vault_b_lp_token.amount, quote_data.vault_b_lp_mint.supply,
            quote_data.vault_a_lp_mint.supply, quote_data.vault_a_token.amount, token_b, token_a)
    }
}

/// Underlying tokens A and B that the pool holds through its two vaults at `current_time`.
pub fn compute_pool_tokens(current_time: u64, vault_a: VaultInfo, vault_b: VaultInfo) -> (r: Result<(u64, u64), QuoteError>)
    ensures
        match (
            amount_from_shares(vault_a.vault, current_time, vault_a.lp_amount, vault_a.lp_supply),
            amount_from_shares(vault_b.vault, current_time, vault_b.lp_amount, vault_b.lp_supply),
        ) {
            (Some(a), Some(b)) => r == Ok::<(u64, u64), QuoteError>((a, b)),
            _ => r == Err::<(u64, u64), QuoteError>(QuoteError::MathOverflow),
        },
{
    let a = match vault_a.vault.get_amount_by_share(current_time, vault_a.lp_amount, vault_a.lp_supply) {
        None => return Err(QuoteError::MathOverflow),
        Some(v) => v,
    };
    let b = match vault_b.vault.get_amount_by_share(current_time, vault_b.lp_amount, vault_b.lp_supply) {
        None => return Err(QuoteError::MathOverflow),
        Some(v) => v,
    };
    Ok((a, b))
}

/// For fixed reserves on a constant-product pool, the out side of a quote
/// keeps order: a larger credited input never settles to a smaller payout.
/// (Over a whole quote the order can break: the in-vault's share rounding
/// may credit two inputs alike while the larger pays one more fee token.)
pub proof fn lemma_out_side_monotone(
    out_vault: Vault,
    now: u64,
    out_supply: u64,
    dx1: u64,
    dx2: u64,
    in_reserve: u64,
    out_reserve: u64,
)
    requires
        dx1 <= dx2,
        in_reserve > 0,
        out_reserve > 0,
        settled_amount(out_vault, now, constant_product_out(dx2, in_reserve, out_reserve)->Some_0, out_supply) is Some,
    ensures
        settled_amount(out_vault, now, constant_product_out(dx1, in_reserve, out_reserve)->Some_0, out_supply) is Some,
        settled_amount(out_vault, now, constant_product_out(dx1, in_reserve, out_reserve)->Some_0, out_supply)->Some_0
            <= settled_amount(out_vault, now, constant_product_out(dx2, in_reserve, out_reserve)->Some_0, out_supply)->Some_0,
{
    lemma_constant_product_bounds(dx1, dx2, in_reserve, out_reserve);
    lemma_settled_amount_monotone(
        out_vault,
        now,
        constant_product_out(dx1, in_reserve, out_reserve)->Some_0,
        constant_product_out(dx2, in_reserve, out_reserve)->Some_0,
        out_supply,
    );
}

} // verus!
