use crate::error::ErrorCode;
use crate::state::UserCollateralAccount;
use crate::trade::sell_usdc_out;
use vstd::arithmetic::div_mod::lemma_div_is_ordered;
use vstd::arithmetic::mul::lemma_mul_inequality;
use vstd::prelude::*;

verus! {

/// What a successful redemption asks the host to perform: burn
/// `synthetic_burned` units from the user, then pay `collateral_out`
/// collateral from the vault to the user under the vault's authority.
#[derive(Clone, Copy, Debug, PartialEq, Eq, Structural)]
pub struct RedeemOutcome {
    pub synthetic_burned: u64,
    pub collateral_out: u64,
}

/// The redemption transition on one position.
///
/// Checks run in this order: the caller must be the stored owner
/// (`Unauthorized`); `redeem_amount * price` must fit in the 64-bit unsigned
/// range (`MathOverflow`); and the stored collateral must cover the payout
/// (`InsufficientCollateral`).  On success both balances shrink by
/// saturating subtraction: the minted amount clamps at zero when the
/// redeemed amount exceeds it, a deliberately lenient policy distinct from
/// the checked arithmetic elsewhere.
pub open spec fn redeem_spec(
    pre: UserCollateralAccount,
    caller: u64,
    redeem_amount: u64,
    price: u64,
) -> Result<(UserCollateralAccount, RedeemOutcome), ErrorCode> {
    if caller != pre.owner {
        Err(ErrorCode::Unauthorized)
    } else if redeem_amount * price > u64::MAX {
        Err(ErrorCode::MathOverflow)
    } else {
        let usdc_out = sell_usdc_out(redeem_amount as int, price as int);
        if pre.deposited_amount < usdc_out {
            Err(ErrorCode::InsufficientCollateral)
        } else {
            Ok(
                (
                    UserCollateralAccount {
                        minted_amount: if pre.minted_amount >= redeem_amount {
                            (pre.minted_amount - redeem_amount) as u64
                        } else {
                            0u64
                        },
                        deposited_amount: (pre.deposited_amount - usdc_out) as u64,
                        ..pre
                    },
                    RedeemOutcome {
                        synthetic_burned: redeem_amount,
                        collateral_out: usdc_out as u64,
                    },
                ),
            )
        }
    }
}

/// Redeems `redeem_amount` synthetic units for collateral at `price`.
///
/// On success the host must burn `synthetic_burned` units from the caller
/// and pay `collateral_out` collateral from the vault to the caller under
/// the vault's authority; on any error it performs nothing.
pub fn redeem_s_tsla(
    position: &mut UserCollateralAccount,
    caller: u64,
    redeem_amount: u64,
    price: u64,
) -> (r: Result<RedeemOutcome, ErrorCode>)
    requires
        redeem_amount > 0,
    ensures
        ({
            match redeem_spec(*old(position), caller, redeem_amount, price) {
                Ok(post) => r == Ok::<RedeemOutcome, ErrorCode>(post.1) && *final(position)
                    == post.0,
                Err(e) => r == Err::<RedeemOutcome, ErrorCode>(e) && *final(position) == *old(position),
            }
        }),
        // Saturating decrement: the minted amount never underflows, it
        // clamps at exactly zero when more is redeemed than was minted.
        r is Ok ==> final(position).minted_amount == if old(position).minted_amount
            >= redeem_amount {
            old(position).minted_amount - redeem_amount
        } else {
            0int
        },
{
    if caller != position.owner {
        return Err(ErrorCode::Unauthorized);
    }
    let base = match redeem_amount.checked_mul(price) {
        Some(base) => base,
        None => {
            return Err(ErrorCode::MathOverflow);
        },
    };
    proof {
        lemma_div_is_ordered(base as int, u64::MAX as int, 150);
        lemma_mul_inequality(base as int / 150, u64::MAX as int / 150, 100);
    }
    let usdc_out = match (base / 150).checked_mul(100) {
        Some(out) => out,
        None => {
            return Err(ErrorCode::MathOverflow);
        },
    };
    if position.deposited_amount < usdc_out {
        return Err(ErrorCode::InsufficientCollateral);
    }
    position.minted_amount = position.minted_amount.saturating_sub(redeem_amount);
    position.deposited_amount = position.deposited_amount - usdc_out;
    Ok(RedeemOutcome { synthetic_burned: redeem_amount, collateral_out: usdc_out })
}

} // verus!
