use synthetic_sc::deposit::{deposit_collateral, max_s_tsla_to_mint};
use synthetic_sc::error::ErrorCode;
use synthetic_sc::events::CollateralDeposited;
use synthetic_sc::mint::mint_s_tsla;
use synthetic_sc::oracle::{PriceOracle, PriceStatus};
use synthetic_sc::redeem::redeem_s_tsla;
use synthetic_sc::state::{UserCollateralAccount, Vault};
use synthetic_sc::trade::market_trade;

fn position(owner: u64, deposited: u64, minted: u64) -> UserCollateralAccount {
    UserCollateralAccount {
        bump: 0,
        owner,
        deposited_amount: deposited,
        minted_amount: minted,
        last_deposit_ts: 0,
    }
}

#[test]
fn max_mint_exact_values() {
    assert_eq!(max_s_tsla_to_mint(1000), Ok(666));
    assert_eq!(max_s_tsla_to_mint(150), Ok(100));
    assert_eq!(max_s_tsla_to_mint(0), Ok(0));
}

#[test]
fn max_mint_overflow_rejected() {
    assert_eq!(max_s_tsla_to_mint(u64::MAX), Err(ErrorCode::MathOverflow));
}

#[test]
fn deposit_accumulates_and_auto_mints() {
    let mut pos = position(1, 0, 0);
    let out = deposit_collateral(&mut pos, 1, 1000, 5, true).unwrap();
    assert_eq!(out.deposited, CollateralDeposited { user: 1, amount: 1000 });
    assert_eq!(out.minted.user, 1);
    assert_eq!(out.minted.amount, 666);
    assert_eq!(pos.deposited_amount, 1000);
    assert_eq!(pos.minted_amount, 666);
    assert_eq!(pos.last_deposit_ts, 5);

    let again = deposit_collateral(&mut pos, 1, 500, 6, true).unwrap();
    assert_eq!(pos.deposited_amount, 1500);
    assert_eq!(pos.minted_amount, 1000);
    assert_eq!(again.minted.amount, 334);
}

#[test]
fn deposit_without_auto_mint_leaves_supply_untouched() {
    let mut pos = position(1, 0, 0);
    let out = deposit_collateral(&mut pos, 1, 1000, 5, false).unwrap();
    assert_eq!(out.minted.amount, 0);
    assert_eq!(pos.deposited_amount, 1000);
    assert_eq!(pos.minted_amount, 0);
}

#[test]
fn deposit_add_overflow_rejected() {
    let mut pos = position(1, u64::MAX, 0);
    let before = pos;
    assert_eq!(
        deposit_collateral(&mut pos, 1, 1, 5, false),
        Err(ErrorCode::MathOverflow)
    );
    assert_eq!(pos, before);
}

#[test]
fn deposit_auto_mint_overflow_rejected() {
    // The new total fits in 64 bits, but the intermediate `total * 100` of
    // the auto-mint cap does not.
    let mut pos = position(1, u64::MAX / 100, 0);
    let before = pos;
    assert_eq!(
        deposit_collateral(&mut pos, 1, 1, 5, true),
        Err(ErrorCode::MathOverflow)
    );
    assert_eq!(pos, before);
}

#[test]
fn mint_respects_collateral_floor() {
    let mut pos = position(1, 150, 0);
    assert_eq!(mint_s_tsla(&mut pos, 1, 100), Ok(100));
    assert_eq!(pos.minted_amount, 100);

    let before = pos;
    assert_eq!(
        mint_s_tsla(&mut pos, 1, 1),
        Err(ErrorCode::InsufficientCollateral)
    );
    assert_eq!(pos, before);
}

#[test]
fn mint_unauthorized_caller_rejected() {
    let mut pos = position(1, 1_000_000, 0);
    let before = pos;
    assert_eq!(mint_s_tsla(&mut pos, 2, 10), Err(ErrorCode::Unauthorized));
    assert_eq!(pos, before);
}

#[test]
fn mint_overflow_rejected() {
    let mut pos = position(1, u64::MAX, 0);
    let before = pos;
    assert_eq!(mint_s_tsla(&mut pos, 1, 1), Err(ErrorCode::MathOverflow));
    assert_eq!(pos, before);
}

#[test]
fn buy_charges_exact_margin() {
    let mut pos = position(1, 0, 0);
    let record = market_trade(&mut pos, 1, 1, true, 800_000_000, 9).unwrap();
    assert!(record.is_buy);
    assert_eq!(record.amount, 1);
    assert_eq!(record.usdc_amount, 1_200_000_000);
    assert_eq!(record.price, 800_000_000);
    assert_eq!(pos.deposited_amount, 1_200_000_000);
    assert_eq!(pos.minted_amount, 1);
    assert_eq!(pos.last_deposit_ts, 9);
}

#[test]
fn buy_overflow_rejected() {
    let mut pos = position(1, 0, 0);
    let before = pos;
    assert_eq!(
        market_trade(&mut pos, 1, u64::MAX, true, 2, 9),
        Err(ErrorCode::MathOverflow)
    );
    assert_eq!(pos, before);

    // The base product fits, the 150x scaling does not.
    assert_eq!(
        market_trade(&mut pos, 1, 1, true, u64::MAX / 2, 9),
        Err(ErrorCode::MathOverflow)
    );
    assert_eq!(pos, before);
}

#[test]
fn sell_truncates_at_division_by_150() {
    // 1 * 800_000_000 / 150 = 5_333_333 truncated, then * 100: the payout is
    // 533_333_300, not the 533_333_333 the distributive order would give.
    let mut pos = position(1, 533_333_300, 1);
    let record = market_trade(&mut pos, 1, 1, false, 800_000_000, 9).unwrap();
    assert_eq!(record.usdc_amount, 533_333_300);
    assert!(!record.is_buy);
    assert_eq!(pos.deposited_amount, 0);
    assert_eq!(pos.minted_amount, 0);
}

#[test]
fn sell_without_supply_rejected() {
    let mut pos = position(1, 1_000_000, 0);
    let before = pos;
    assert_eq!(
        market_trade(&mut pos, 1, 1, false, 800_000_000, 9),
        Err(ErrorCode::InsufficientSyntheticBalance)
    );
    assert_eq!(pos, before);
}

#[test]
fn sell_without_collateral_rejected() {
    let mut pos = position(1, 99, 1);
    let before = pos;
    assert_eq!(
        market_trade(&mut pos, 1, 1, false, 150, 9),
        Err(ErrorCode::InsufficientCollateral)
    );
    assert_eq!(pos, before);
}

#[test]
fn redeem_clamps_minted_amount_at_zero() {
    // Redeeming more than was minted floors the debt at exactly zero.
    let mut pos = position(1, 1000, 5);
    let out = redeem_s_tsla(&mut pos, 1, 10, 150).unwrap();
    assert_eq!(out.synthetic_burned, 10);
    assert_eq!(out.collateral_out, 1000);
    assert_eq!(pos.minted_amount, 0);
    assert_eq!(pos.deposited_amount, 0);
}

#[test]
fn redeem_pays_rounded_amount() {
    let mut pos = position(1, 600_000_000, 1);
    let out = redeem_s_tsla(&mut pos, 1, 1, 800_000_000).unwrap();
    assert_eq!(out.collateral_out, 533_333_300);
    assert_eq!(pos.deposited_amount, 600_000_000 - 533_333_300);
    assert_eq!(pos.minted_amount, 0);
}

#[test]
fn redeem_unauthorized_caller_rejected() {
    let mut pos = position(1, 1000, 5);
    let before = pos;
    assert_eq!(
        redeem_s_tsla(&mut pos, 2, 1, 150),
        Err(ErrorCode::Unauthorized)
    );
    assert_eq!(pos, before);
}

#[test]
fn redeem_without_collateral_rejected() {
    let mut pos = position(1, 999, 10);
    let before = pos;
    assert_eq!(
        redeem_s_tsla(&mut pos, 1, 10, 150),
        Err(ErrorCode::InsufficientCollateral)
    );
    assert_eq!(pos, before);
}

#[test]
fn redeem_overflow_rejected() {
    let mut pos = position(1, 1000, 10);
    let before = pos;
    assert_eq!(
        redeem_s_tsla(&mut pos, 1, u64::MAX, 2),
        Err(ErrorCode::MathOverflow)
    );
    assert_eq!(pos, before);
}

#[test]
fn oracle_update_and_read() {
    let mut oracle = PriceOracle::initialize(9, 1, 100);
    assert_eq!(oracle.price, 0);
    assert_eq!(oracle.status, PriceStatus::Unknown);
    assert_eq!(oracle.authority, 9);

    assert_eq!(oracle.update_price(9, 800_000_000, 200), Ok(()));
    assert_eq!(oracle.status, PriceStatus::Trading);
    assert_eq!(
        oracle.read_price(),
        (800_000_000, PriceStatus::Trading, 200)
    );
}

#[test]
fn oracle_update_unauthorized_rejected() {
    let mut oracle = PriceOracle::initialize(9, 1, 100);
    let before = oracle;
    assert_eq!(
        oracle.update_price(8, 800_000_000, 200),
        Err(ErrorCode::Unauthorized)
    );
    assert_eq!(oracle, before);
}

#[test]
fn vault_authority_derivation_is_reproducible() {
    let vault = Vault::initialize(42);
    assert_eq!(vault.authority().bump, 42);
    assert_eq!(vault.authority(), vault.authority());
}
