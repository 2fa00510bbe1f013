use dynamic_amm_quote::curve::{CurveType, TokenMultiplier};
use dynamic_amm_quote::depeg::{Depeg, DepegType};
use dynamic_amm_quote::error::QuoteError;
use dynamic_amm_quote::fees::{FeeCurve, FeeCurveType, PoolFees};
use dynamic_amm_quote::quote::{
    compute_pool_tokens, compute_quote, ActivationType, Bootstrapping, Clock, Mint, Pool, Pubkey,
    QuoteData, QuoteResult, TokenAccount, VaultInfo,
};
use dynamic_amm_quote::vault::{LockedProfitTracker, Vault};

fn key(n: u128) -> Pubkey {
    Pubkey { high: 0, low: n }
}

fn plain_vault(total_amount: u64) -> Vault {
    Vault {
        total_amount,
        locked_profit_tracker: LockedProfitTracker {
            last_updated_locked_profit: 0,
            last_report: 0,
            locked_profit_degradation: 0,
        },
    }
}

fn zero_fees() -> PoolFees {
    PoolFees {
        trade_fee_numerator: 0,
        trade_fee_denominator: 10_000,
        protocol_trade_fee_numerator: 0,
        protocol_trade_fee_denominator: 10_000,
    }
}

fn pool(curve_type: CurveType, fees: PoolFees) -> Pool {
    Pool {
        token_a_mint: key(1),
        token_b_mint: key(2),
        enabled: true,
        fees,
        fee_curve: FeeCurve { fee_curve_type: FeeCurveType::Static, points: vec![] },
        is_update_fee_completed: false,
        bootstrapping: Bootstrapping { activation_point: 0, activation_type: ActivationType::Timestamp },
        stake: key(9),
        curve_type,
    }
}

fn data(pool: Pool) -> QuoteData {
    QuoteData {
        pool,
        vault_a: plain_vault(1_000_000),
        vault_b: plain_vault(1_000_000),
        pool_vault_a_lp_token: TokenAccount { amount: 1_000_000 },
        pool_vault_b_lp_token: TokenAccount { amount: 1_000_000 },
        vault_a_lp_mint: Mint { supply: 1_000_000 },
        vault_b_lp_mint: Mint { supply: 1_000_000 },
        vault_a_token: TokenAccount { amount: 1_000_000 },
        vault_b_token: TokenAccount { amount: 1_000_000 },
        clock: Clock { slot: 500, unix_timestamp: 1_000 },
        stake_data: vec![],
    }
}

#[test]
fn constant_product_quote_end_to_end() {
    let q = data(pool(CurveType::ConstantProduct, zero_fees()));
    let r = compute_quote(key(1), 1000, q).unwrap();
    assert_eq!(r, QuoteResult { out_amount: 999, fee: 0 });
}

#[test]
fn constant_product_quote_b_to_a() {
    let q = data(pool(CurveType::ConstantProduct, zero_fees()));
    let r = compute_quote(key(2), 1000, q).unwrap();
    assert_eq!(r, QuoteResult { out_amount: 999, fee: 0 });
}

#[test]
fn quote_with_fees() {
    let fees = PoolFees {
        trade_fee_numerator: 25,
        trade_fee_denominator: 10_000,
        protocol_trade_fee_numerator: 20,
        protocol_trade_fee_denominator: 100,
    };
    let q = data(pool(CurveType::ConstantProduct, fees));
    // trade fee 25, protocol cut 5; 9995 credited, 9975 swapped.
    let r = compute_quote(key(1), 10_000, q).unwrap();
    assert_eq!(r.fee, 20);
    assert_eq!(r.out_amount, 1_000_000u64 * 9975 / 1_009_975);
}

#[test]
fn disabled_pool_is_rejected() {
    let mut p = pool(CurveType::ConstantProduct, zero_fees());
    p.enabled = false;
    let mut q = data(p);
    q.vault_a_lp_mint = Mint { supply: 0 };
    assert_eq!(compute_quote(key(7), 1000, q), Err(QuoteError::PoolDisabled));
}

#[test]
fn mint_mismatch_is_rejected() {
    let q = data(pool(CurveType::ConstantProduct, zero_fees()));
    assert_eq!(compute_quote(key(3), 1000, q), Err(QuoteError::InvalidInputMint));
}

#[test]
fn swap_before_activation_is_rejected() {
    let mut p = pool(CurveType::ConstantProduct, zero_fees());
    p.bootstrapping = Bootstrapping { activation_point: 501, activation_type: ActivationType::Slot };
    assert_eq!(compute_quote(key(1), 1000, data(p)), Err(QuoteError::SwapNotYetActive));
    let mut p = pool(CurveType::ConstantProduct, zero_fees());
    p.bootstrapping = Bootstrapping { activation_point: 500, activation_type: ActivationType::Slot };
    assert!(compute_quote(key(1), 1000, data(p)).is_ok());
}

#[test]
fn output_must_stay_below_out_reserve() {
    let mut q = data(pool(CurveType::ConstantProduct, zero_fees()));
    q.vault_b_token = TokenAccount { amount: 999 };
    assert_eq!(compute_quote(key(1), 1000, q), Err(QuoteError::InsufficientLiquidity));
    let mut q = data(pool(CurveType::ConstantProduct, zero_fees()));
    q.vault_b_token = TokenAccount { amount: 1000 };
    assert_eq!(compute_quote(key(1), 1000, q).unwrap().out_amount, 999);
}

#[test]
fn empty_lp_supply_overflows() {
    let mut q = data(pool(CurveType::ConstantProduct, zero_fees()));
    q.vault_a_lp_mint = Mint { supply: 0 };
    assert_eq!(compute_quote(key(1), 1000, q), Err(QuoteError::MathOverflow));
}

#[test]
fn protocol_cut_above_trade_fee_underflows() {
    let fees = PoolFees {
        trade_fee_numerator: 25,
        trade_fee_denominator: 10_000,
        protocol_trade_fee_numerator: 2,
        protocol_trade_fee_denominator: 1,
    };
    let q = data(pool(CurveType::ConstantProduct, fees));
    assert_eq!(compute_quote(key(1), 10_000, q), Err(QuoteError::MathUnderflow));
}

fn slot_pool(activation_point: u64) -> Pool {
    let mut p = pool(CurveType::ConstantProduct, zero_fees());
    p.bootstrapping = Bootstrapping { activation_point, activation_type: ActivationType::Slot };
    p
}

#[test]
fn negative_timestamp_is_rejected() {
    let mut q = data(slot_pool(0));
    q.clock = Clock { slot: 1, unix_timestamp: -5 };
    assert_eq!(compute_quote(key(1), 1000, q), Err(QuoteError::MathOverflow));
    // A timestamp before the epoch precedes every activation point.
    let mut q = data(pool(CurveType::ConstantProduct, zero_fees()));
    q.clock = Clock { slot: 1, unix_timestamp: -5 };
    assert_eq!(compute_quote(key(1), 1000, q), Err(QuoteError::SwapNotYetActive));
}

#[test]
fn validation_comes_before_the_clock_conversion() {
    let mut q = data(slot_pool(0));
    q.clock = Clock { slot: 1, unix_timestamp: -1 };
    assert_eq!(compute_quote(key(3), 1000, q), Err(QuoteError::InvalidInputMint));
    let mut q = data(slot_pool(10));
    q.clock = Clock { slot: 1, unix_timestamp: -1 };
    assert_eq!(compute_quote(key(1), 1000, q), Err(QuoteError::SwapNotYetActive));
}

#[test]
fn empty_in_reserve_cannot_drain_out_reserve() {
    let mut q = data(pool(CurveType::ConstantProduct, zero_fees()));
    q.pool_vault_a_lp_token = TokenAccount { amount: 0 };
    q.vault_b = plain_vault(1000);
    q.pool_vault_b_lp_token = TokenAccount { amount: 1000 };
    q.vault_b_lp_mint = Mint { supply: 1000 };
    q.vault_b_token = TokenAccount { amount: 5000 };
    assert_eq!(compute_quote(key(1), 100, q), Err(QuoteError::InsufficientLiquidity));
}

#[test]
fn vault_rounding_can_lower_output_for_larger_input() {
    let fees = PoolFees {
        trade_fee_numerator: 1000,
        trade_fee_denominator: 10_000,
        protocol_trade_fee_numerator: 0,
        protocol_trade_fee_denominator: 10_000,
    };
    let quote = |in_amount: u64| {
        let mut q = data(pool(CurveType::ConstantProduct, fees));
        q.vault_a = plain_vault(1101);
        q.vault_a_lp_mint = Mint { supply: 4663 };
        q.pool_vault_a_lp_token = TokenAccount { amount: 517 };
        compute_quote(key(1), in_amount, q).unwrap().out_amount
    };
    assert_eq!(quote(39), 227_848);
    assert_eq!(quote(40), 222_929);
}

#[test]
fn larger_input_never_gives_less() {
    let mut last = 0u64;
    for dx in [0u64, 1, 10, 999, 1000, 5000, 100_000, 900_000] {
        let q = data(pool(CurveType::ConstantProduct, zero_fees()));
        let out = compute_quote(key(1), dx, q).unwrap().out_amount;
        assert!(out >= last);
        assert!(out < 1_000_000);
        last = out;
    }
}

fn stable(depeg: Depeg) -> CurveType {
    CurveType::Stable {
        amp: 100,
        token_multiplier: TokenMultiplier { token_a_multiplier: 1, token_b_multiplier: 1, precision_factor: 6 },
        depeg,
        last_amp_updated_timestamp: 0,
    }
}

fn no_depeg() -> Depeg {
    Depeg { base_virtual_price: 0, base_cache_updated: 0, depeg_type: DepegType::Plain }
}

#[test]
fn stable_quote_at_peg() {
    let q = data(pool(stable(no_depeg()), zero_fees()));
    assert_eq!(compute_quote(key(1), 1000, q).unwrap().out_amount, 1000);
}

#[test]
fn depeg_quote_uses_fresh_price() {
    let d = Depeg { base_virtual_price: 1, base_cache_updated: 0, depeg_type: DepegType::SplStake };
    let mut q = data(pool(stable(d), zero_fees()));
    // Expired cache: the price of the stake pool, 1.1, applies to token B.
    let stake = spl_stake_pool::state::StakePool {
        total_lamports: 1_100_000,
        pool_token_supply: 1_000_000,
        ..Default::default()
    };
    q.stake_data = vec![(key(8), vec![1, 2, 3]), (key(9), borsh::to_vec(&stake).unwrap())];
    assert_eq!(compute_quote(key(1), 1000, q).unwrap().out_amount, 910);
}

#[test]
fn depeg_quote_keeps_fresh_cached_price() {
    let d = Depeg { base_virtual_price: 1_100_000, base_cache_updated: 900, depeg_type: DepegType::SplStake };
    let q = data(pool(stable(d), zero_fees()));
    assert_eq!(compute_quote(key(1), 1000, q).unwrap().out_amount, 910);
}

#[test]
fn depeg_quote_prefers_stake_price_over_fresh_cache() {
    let d = Depeg { base_virtual_price: 1_000_000, base_cache_updated: 900, depeg_type: DepegType::SplStake };
    let mut q = data(pool(stable(d), zero_fees()));
    let stake = spl_stake_pool::state::StakePool {
        total_lamports: 1_100_000,
        pool_token_supply: 1_000_000,
        ..Default::default()
    };
    q.stake_data = vec![(key(9), borsh::to_vec(&stake).unwrap())];
    assert_eq!(compute_quote(key(1), 1000, q).unwrap().out_amount, 910);
}

#[test]
fn depeg_quote_without_stake_data_fails_when_expired() {
    let d = Depeg { base_virtual_price: 1_100_000, base_cache_updated: 0, depeg_type: DepegType::SplStake };
    let q = data(pool(stable(d), zero_fees()));
    assert_eq!(compute_quote(key(1), 1000, q), Err(QuoteError::DepegDecodeFailure));
    let mut q = data(pool(stable(d), zero_fees()));
    q.stake_data = vec![(key(9), vec![1, 2, 3])];
    assert_eq!(compute_quote(key(1), 1000, q), Err(QuoteError::DepegDecodeFailure));
}

#[test]
fn pool_tokens_from_vault_shares() {
    let a = VaultInfo { lp_amount: 500, lp_supply: 1000, vault: plain_vault(3000) };
    let b = VaultInfo { lp_amount: 1, lp_supply: 3, vault: plain_vault(10) };
    assert_eq!(compute_pool_tokens(0, a, b), Ok((1500, 3)));
    let empty = VaultInfo { lp_amount: 1, lp_supply: 0, vault: plain_vault(10) };
    assert_eq!(compute_pool_tokens(0, a, empty), Err(QuoteError::MathOverflow));
}
