use crate::error::ErrorCode;
use crate::events::TradeExecuted;
use crate::laws::lemma_buy_preserves_priced_floor;
use crate::state::UserCollateralAccount;
use vstd::arithmetic::div_mod::lemma_div_is_ordered;
use vstd::arithmetic::mul::lemma_mul_inequality;
use vstd::prelude::*;

verus! {

/// Collateral a buy of `amount` synthetic units charges at `price`:
/// `amount * price * 150 / 100`, so the buyer posts the price plus the 50%
/// over-collateralization margin.
pub open spec fn buy_usdc_required(amount: int, price: int) -> int {
    amount * price * 150 / 100
}

/// Collateral a sell or redemption of `amount` synthetic units pays out at
/// `price`: `amount * price / 150 * 100`.  The truncation happens at the
/// division by 150, before the multiplication by 100; this order is part of
/// the ledger's arithmetic contract.
pub open spec fn sell_usdc_out(amount: int, price: int) -> int {
    amount * price / 150 * 100
}

/// The market-trade transition on one position.
///
/// A buy charges [`buy_usdc_required`] collateral and mints `amount` units;
/// any intermediate above `u64::MAX` fails with `MathOverflow`.  A sell
/// requires the position to hold `amount` minted units
/// (`InsufficientSyntheticBalance`) and enough collateral for the payout
/// (`InsufficientCollateral`), then burns the units and pays out
/// [`sell_usdc_out`] collateral.  Errors change nothing.
pub open spec fn trade_spec(
    pre: UserCollateralAccount,
    user: u64,
    amount: u64,
    is_buy: bool,
    price: u64,
    now: i64,
) -> Result<(UserCollateralAccount, TradeExecuted), ErrorCode> {
    let base = amount * price;
    if is_buy {
        if base > u64::MAX || base * 150 > u64::MAX {
            Err(ErrorCode::MathOverflow)
        } else {
            let usdc_required = buy_usdc_required(amount as int, price as int);
            if pre.deposited_amount + usdc_required > u64::MAX {
                Err(ErrorCode::MathOverflow)
            } else if pre.minted_amount + amount > u64::MAX {
                Err(ErrorCode::MathOverflow)
            } else {
                Ok(
                    (
                        UserCollateralAccount {
                            bump: pre.bump,
                            owner: user,
                            deposited_amount: (pre.deposited_amount + usdc_required) as u64,
                            minted_amount: (pre.minted_amount + amount) as u64,
                            last_deposit_ts: now,
                        },
                        TradeExecuted {
                            user,
                            is_buy: true,
                            amount,
                            usdc_amount: usdc_required as u64,
                            price,
                        },
                    ),
                )
            }
        }
    } else {
        if base > u64::MAX {
            Err(ErrorCode::MathOverflow)
        } else {
            let usdc_out = sell_usdc_out(amount as int, price as int);
            if pre.minted_amount < amount {
                Err(ErrorCode::InsufficientSyntheticBalance)
            } else if pre.deposited_amount < usdc_out {
                Err(ErrorCode::InsufficientCollateral)
            } else {
                Ok(
                    (
                        UserCollateralAccount {
                            deposited_amount: (pre.deposited_amount - usdc_out) as u64,
                            minted_amount: (pre.minted_amount - amount) as u64,
                            ..pre
                        },
                        TradeExecuted {
                            user,
                            is_buy: false,
                            amount,
                            usdc_amount: usdc_out as u64,
                            price,
                        },
                    ),
                )
            }
        }
    }
}

/// Executes a protocol-priced market trade of `amount` synthetic units at
/// `price` against the caller's position.
///
/// On a successful buy the host must transfer `usdc_amount` collateral from
/// the user to the vault and mint `amount` units to the user under the
/// vault's authority; on a successful sell it must burn `amount` units from
/// the user and pay `usdc_amount` collateral out of the vault.  The returned
/// record is published either way.
pub fn market_trade(
    position: &mut UserCollateralAccount,
    user: u64,
    amount: u64,
    is_buy: bool,
    price: u64,
    now: i64,
) -> (r: Result<TradeExecuted, ErrorCode>)
    ensures
        ({
            match trade_spec(*old(position), user, amount, is_buy, price, now) {
                Ok(post) => r == Ok::<TradeExecuted, ErrorCode>(post.1) && *final(position)
                    == post.0,
                Err(e) => r == Err::<TradeExecuted, ErrorCode>(e) && *final(position) == *old(position),
            }
        }),
        // Collateralization floor, priced at the trade's price: a buy from a
        // position whose collateral covers its minted supply at 150% of
        // value leaves it covered, whenever the truncation at the division
        // by 100 loses nothing (`amount * price` even).
        is_buy && r is Ok && (amount * price) % 2 == 0 && old(position).deposited_amount * 100
            >= old(position).minted_amount * price * 150 ==> final(position).deposited_amount * 100
            >= final(position).minted_amount * price * 150,
{
    let ghost pre = *position;
    if is_buy {
        let base = match amount.checked_mul(price) {
            Some(base) => base,
            None => {
                return Err(ErrorCode::MathOverflow);
            },
        };
        let scaled = match base.checked_mul(150) {
            Some(scaled) => scaled,
            None => {
                return Err(ErrorCode::MathOverflow);
            },
        };
        let usdc_required = scaled / 100;
        let new_deposited = match position.deposited_amount.checked_add(usdc_required) {
            Some(total) => total,
            None => {
                return Err(ErrorCode::MathOverflow);
            },
        };
        let new_minted = match position.minted_amount.checked_add(amount) {
            Some(total) => total,
            None => {
                return Err(ErrorCode::MathOverflow);
            },
        };
        proof {
            if (amount * price) % 2 == 0 && pre.deposited_amount * 100 >= pre.minted_amount * price
                * 150 {
                lemma_buy_preserves_priced_floor(
                    pre.deposited_amount as int,
                    pre.minted_amount as int,
                    amount as int,
                    price as int,
                );
            }
        }
        position.owner = user;
        position.deposited_amount = new_deposited;
        position.minted_amount = new_minted;
        position.last_deposit_ts = now;
        Ok(TradeExecuted { user, is_buy: true, amount, usdc_amount: usdc_required, price })
    } else {
        let base = match amount.checked_mul(price) {
            Some(base) => base,
            None => {
                return Err(ErrorCode::MathOverflow);
            },
        };
        proof {
            lemma_div_is_ordered(base as int, u64::MAX as int, 150);
            lemma_mul_inequality(base as int / 150, u64::MAX as int / 150, 100);
        }
        let usdc_out = match (base / 150).checked_mul(100) {
            Some(out) => out,
            None => {
                return Err(ErrorCode::MathOverflow);
            },
        };
        if position.minted_amount < amount {
            return Err(ErrorCode::InsufficientSyntheticBalance);
        }
        if position.deposited_amount < usdc_out {
            return Err(ErrorCode::InsufficientCollateral);
        }
        position.minted_amount = position.minted_amount - amount;
        position.deposited_amount = position.deposited_amount - usdc_out;
        Ok(TradeExecuted { user, is_buy: false, amount, usdc_amount: usdc_out, price })
    }
}

} // verus!
