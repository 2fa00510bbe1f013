use dynamic_amm_quote::curve::{constant_product_swap, compute_d, compute_y, CurveType, CurveTypeIx, TradeDirection};
use dynamic_amm_quote::depeg::{get_virtual_price, update_base_virtual_price, virtual_price_from_state, Depeg, DepegType, StakePoolState};
use dynamic_amm_quote::error::QuoteError;
use dynamic_amm_quote::fees::{calculate_fee, get_latest_pool_fees, latest_trade_fee_bps, FeeCurve, FeeCurveType, FeePoint, PoolFees};
use dynamic_amm_quote::vault::{LockedProfitTracker, Vault};

fn three_point_curve(fee_curve_type: FeeCurveType) -> FeeCurve {
    FeeCurve {
        fee_curve_type,
        points: vec![
            FeePoint { activated_point: 0, fee_bps: 100 },
            FeePoint { activated_point: 100, fee_bps: 100 },
            FeePoint { activated_point: 200, fee_bps: 50 },
        ],
    }
}

fn stored_fees() -> PoolFees {
    PoolFees {
        trade_fee_numerator: 250,
        trade_fee_denominator: 100_000,
        protocol_trade_fee_numerator: 20,
        protocol_trade_fee_denominator: 100,
    }
}

#[test]
fn fee_curve_boundaries() {
    let c = three_point_curve(FeeCurveType::Linear);
    assert_eq!(latest_trade_fee_bps(&c, 150), 75);
    assert_eq!(latest_trade_fee_bps(&c, 50), 100);
    assert_eq!(latest_trade_fee_bps(&c, 250), 50);
    assert_eq!(latest_trade_fee_bps(&c, 0), 100);
    assert_eq!(latest_trade_fee_bps(&c, 200), 50);
}

#[test]
fn flat_fee_curve_steps() {
    let c = three_point_curve(FeeCurveType::Flat);
    assert_eq!(latest_trade_fee_bps(&c, 150), 100);
    assert_eq!(latest_trade_fee_bps(&c, 201), 50);
}

#[test]
fn latest_pool_fees_scale_bps() {
    let c = three_point_curve(FeeCurveType::Linear);
    let f = get_latest_pool_fees(&stored_fees(), &c, false, 150);
    assert_eq!(f, PoolFees { trade_fee_numerator: 750, ..stored_fees() });
    assert_eq!(get_latest_pool_fees(&stored_fees(), &c, true, 150), stored_fees());
    let none = three_point_curve(FeeCurveType::Static);
    assert_eq!(get_latest_pool_fees(&stored_fees(), &none, false, 150), stored_fees());
}

#[test]
fn fee_rounding() {
    assert_eq!(calculate_fee(1000, 25, 10_000), Some(2));
    assert_eq!(calculate_fee(10, 25, 10_000), Some(1));
    assert_eq!(calculate_fee(0, 25, 10_000), Some(0));
    assert_eq!(calculate_fee(10, 0, 10_000), Some(0));
    assert_eq!(calculate_fee(10, 25, 0), None);
}

#[test]
fn protocol_fee_is_part_of_trade_fee() {
    let f = stored_fees();
    for amount in [0u128, 1, 3, 999, 1_000_000, u64::MAX as u128] {
        let trade = f.trading_fee(amount).unwrap();
        let protocol = f.protocol_trading_fee(trade).unwrap();
        assert!(protocol <= trade);
    }
    assert_eq!(f.trading_fee(1_000_000), Some(2500));
    assert_eq!(f.protocol_trading_fee(2500), Some(500));
}

fn stake_bytes(total_lamports: u64, pool_token_supply: u64, numerator: u64, denominator: u64) -> Vec<u8> {
    let stake = spl_stake_pool::state::StakePool {
        total_lamports,
        pool_token_supply,
        sol_withdrawal_fee: spl_stake_pool::state::Fee { denominator, numerator },
        ..Default::default()
    };
    let mut bytes = borsh::to_vec(&stake).unwrap();
    // Accounts are allocated larger than the encoded state.
    bytes.extend_from_slice(&[0u8; 64]);
    bytes
}

#[test]
fn depeg_virtual_price_from_account_bytes() {
    let bytes = stake_bytes(1_000_000, 900_000, 1, 1000);
    assert_eq!(get_virtual_price(&bytes), Some(1_110_833));
    let bytes = stake_bytes(1_000_000, 900_000, 100, 1000);
    assert_eq!(get_virtual_price(&bytes), Some(1_111_111));
    assert_eq!(get_virtual_price(&bytes[..10]), None);
    assert_eq!(get_virtual_price(&stake_bytes(5, 0, 0, 0)), None);
}

#[test]
fn depeg_virtual_price_blend() {
    let s = StakePoolState {
        total_lamports: 1_000_000,
        pool_token_supply: 900_000,
        sol_withdrawal_fee_numerator: 1,
        sol_withdrawal_fee_denominator: 1000,
    };
    // deposit 1_111_111, withdraw 1_110_000, (3 * 1_111_111 + 1_110_000) / 4
    assert_eq!(virtual_price_from_state(&s), Some(1_110_833));
}

#[test]
fn depeg_high_withdrawal_fee_uses_deposit_price() {
    let s = StakePoolState {
        total_lamports: 1_000_000,
        pool_token_supply: 900_000,
        sol_withdrawal_fee_numerator: 100,
        sol_withdrawal_fee_denominator: 1000,
    };
    assert_eq!(virtual_price_from_state(&s), Some(1_111_111));
    let empty = StakePoolState { pool_token_supply: 0, ..s };
    assert_eq!(virtual_price_from_state(&empty), None);
}

#[test]
fn virtual_price_update_prefers_fresh_price() {
    let stake = stake_bytes(2_000_000, 1_000_000, 0, 0);
    let depeg = Depeg { base_virtual_price: 1_500_000, base_cache_updated: 100, depeg_type: DepegType::SplStake };
    let multiplier = dynamic_amm_quote::curve::TokenMultiplier { token_a_multiplier: 1, token_b_multiplier: 1, precision_factor: 0 };
    let mut curve = CurveType::Stable { amp: 10, token_multiplier: multiplier, depeg, last_amp_updated_timestamp: 0 };
    // No price to be had: the stored one stands while it is fresh.
    assert_eq!(update_base_virtual_price(&mut curve, 700, None), Ok(()));
    assert!(matches!(curve, CurveType::Stable { depeg: Depeg { base_virtual_price: 1_500_000, base_cache_updated: 100, .. }, .. }));
    let junk = vec![1u8, 2, 3];
    assert_eq!(update_base_virtual_price(&mut curve, 700, Some(&junk)), Ok(()));
    assert!(matches!(curve, CurveType::Stable { depeg: Depeg { base_virtual_price: 1_500_000, .. }, .. }));
    // A price that can be had is taken, fresh cache or not.
    assert_eq!(update_base_virtual_price(&mut curve, 650, Some(&stake)), Ok(()));
    assert!(matches!(curve, CurveType::Stable { depeg: Depeg { base_virtual_price: 2_000_000, base_cache_updated: 650, .. }, .. }));
    // Expired, and nothing to refresh it with.
    assert_eq!(update_base_virtual_price(&mut curve, 1_251, None), Err(QuoteError::DepegDecodeFailure));
    assert_eq!(update_base_virtual_price(&mut curve, 1_251, Some(&junk)), Err(QuoteError::DepegDecodeFailure));
    assert_eq!(update_base_virtual_price(&mut curve, 1_250, None), Ok(()));
    let mut plain = CurveType::ConstantProduct;
    assert_eq!(update_base_virtual_price(&mut plain, 1_000_000, None), Ok(()));
}

#[test]
fn constant_product_scenario() {
    assert_eq!(constant_product_swap(1000, 1_000_000, 1_000_000), Some(999));
    assert_eq!(CurveType::ConstantProduct.swap(1000, 1_000_000, 1_000_000, TradeDirection::BtoA), Ok(999));
    assert_eq!(constant_product_swap(0, 0, 5), None);
    assert_eq!(constant_product_swap(5, 0, 7), Some(7));
    assert_eq!(CurveType::ConstantProduct.swap(5, 0, 7, TradeDirection::AtoB), Err(QuoteError::InsufficientLiquidity));
    assert_eq!(CurveType::ConstantProduct.swap(5, 1, 0, TradeDirection::AtoB), Err(QuoteError::InsufficientLiquidity));
    assert_eq!(CurveType::ConstantProduct.swap(0, 1, 7, TradeDirection::AtoB), Ok(0));
}

#[test]
fn constant_product_monotone() {
    let mut last = 0;
    for dx in 0..2000u64 {
        let out = constant_product_swap(dx * 37, 12_345, 67_890).unwrap();
        assert!(out >= last && out < 67_890);
        last = out;
    }
}

#[test]
fn stable_invariant_and_swap() {
    assert_eq!(compute_d(100, 1_000_000, 1_000_000), Ok(2_000_000));
    assert_eq!(compute_d(100, 0, 0), Ok(0));
    assert_eq!(compute_y(100, 1_001_000, 2_000_000), Ok(999_000));
    assert_eq!(compute_y(0, 1_001_000, 2_000_000), Err(QuoteError::MathOverflow));
    let c = CurveType::Stable { amp: 100, token_multiplier: dynamic_amm_quote::curve::TokenMultiplier { token_a_multiplier: 1, token_b_multiplier: 1, precision_factor: 6 }, depeg: Depeg { base_virtual_price: 0, base_cache_updated: 0, depeg_type: DepegType::Plain }, last_amp_updated_timestamp: 0 };
    assert_eq!(c.swap(1000, 1_000_000, 2_000_000, TradeDirection::AtoB), Ok(1009));
    assert_eq!(c.swap(500_000, 1_000_000, 1_000_000, TradeDirection::AtoB).map(|v| v > 396_000), Ok(true));
}

#[test]
fn curve_type_from_ix() {
    assert_eq!(CurveType::from(CurveTypeIx::ConstantProduct), CurveType::ConstantProduct);
    assert!(matches!(CurveType::from(CurveTypeIx::Stable), CurveType::Stable { amp: 0, last_amp_updated_timestamp: 0, .. }));
}

#[test]
fn locked_profit_release() {
    let t = LockedProfitTracker { last_updated_locked_profit: 1000, last_report: 100, locked_profit_degradation: 1_000_000_000 };
    assert_eq!(t.calculate_locked_profit(600), Some(500));
    assert_eq!(t.calculate_locked_profit(100), Some(1000));
    assert_eq!(t.calculate_locked_profit(2000), Some(0));
    assert_eq!(t.calculate_locked_profit(99), None);
    let v = Vault { total_amount: 10_000, locked_profit_tracker: t };
    assert_eq!(v.get_unlocked_amount(600), Some(9_500));
    assert_eq!(v.get_amount_by_share(600, 10, 100), Some(950));
    assert_eq!(v.get_unmint_amount(600, 950, 100), Some(10));
    assert_eq!(v.get_amount_by_share(600, 10, 0), None);
}

#[test]
fn deposit_round_trip_never_gains() {
    let v = Vault {
        total_amount: 1_000_003,
        locked_profit_tracker: LockedProfitTracker { last_updated_locked_profit: 0, last_report: 0, locked_profit_degradation: 0 },
    };
    for x in [0u64, 1, 2, 7, 12_345, 999_999, 1_000_003] {
        let shares = v.get_unmint_amount(0, x, 999_999).unwrap();
        let back = v.get_amount_by_share(0, shares, 999_999).unwrap();
        assert!(back <= x);
    }
    assert_eq!(v.get_unmint_amount(0, 12_345, 999_999), Some(12_344));
}
