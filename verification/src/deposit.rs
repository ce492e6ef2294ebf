use crate::error::ErrorCode;
use crate::events::{CollateralDeposited, STeslaMinted};
use crate::state::UserCollateralAccount;
use vstd::prelude::*;

verus! {

/// The largest synthetic supply a collateral balance may back at the 150%
/// floor: `collateral * 100 / 150`, truncated.
pub open spec fn max_mintable(collateral: int) -> int {
    collateral * 100 / 150
}

/// Checked computation of [`max_mintable`]; fails with `MathOverflow` when
/// the intermediate `collateral * 100` exceeds the 64-bit unsigned range.
pub fn max_s_tsla_to_mint(collateral: u64) -> (r: Result<u64, ErrorCode>)
    ensures
        collateral * 100 <= u64::MAX ==> r == Ok::<u64, ErrorCode>(
            (max_mintable(collateral as int)) as u64,
        ),
        collateral * 100 > u64::MAX ==> r == Err::<u64, ErrorCode>(ErrorCode::MathOverflow),
{
    let mul = match collateral.checked_mul(100) {
        Some(mul) => mul,
        None => {
            return Err(ErrorCode::MathOverflow);
        },
    };
    Ok(mul / 150)
}

/// What a successful deposit asks the host to publish and perform: the
/// deposit record is always emitted, and `minted` is emitted (and its
/// amount minted to the user under the vault's authority) only when its
/// amount is positive.
#[derive(Clone, Copy, Debug, PartialEq, Eq, Structural)]
pub struct DepositOutcome {
    pub deposited: CollateralDeposited,
    pub minted: STeslaMinted,
}

/// The deposit transition on one position, as a mathematical function of the
/// pre-state: either the post-state with the outcome, or the error.
///
/// `amount` collateral is added to the position.  With `auto_mint` set, the
/// engine then immediately mints synthetic supply up to the maximum the new
/// collateral total may back at the 150% floor; without it, minting is left
/// to the explicit mint operation.  Any intermediate result above `u64::MAX`
/// fails with `MathOverflow` and changes nothing.
pub open spec fn deposit_spec(
    pre: UserCollateralAccount,
    user: u64,
    amount: u64,
    now: i64,
    auto_mint: bool,
) -> Result<(UserCollateralAccount, DepositOutcome), ErrorCode> {
    let new_deposited = pre.deposited_amount + amount;
    if new_deposited > u64::MAX {
        Err(ErrorCode::MathOverflow)
    } else if auto_mint && new_deposited * 100 > u64::MAX {
        Err(ErrorCode::MathOverflow)
    } else {
        let mint_now = if auto_mint && max_mintable(new_deposited) > pre.minted_amount {
            max_mintable(new_deposited) - pre.minted_amount
        } else {
            0
        };
        Ok(
            (
                UserCollateralAccount {
                    bump: pre.bump,
                    owner: user,
                    deposited_amount: new_deposited as u64,
                    minted_amount: (pre.minted_amount + mint_now) as u64,
                    last_deposit_ts: now,
                },
                DepositOutcome {
                    deposited: CollateralDeposited { user, amount },
                    minted: STeslaMinted { user, amount: mint_now as u64 },
                },
            ),
        )
    }
}

/// Adds `amount` collateral to the caller's position and, with `auto_mint`
/// set, mints synthetic supply up to the 150% floor.
///
/// The host must first transfer `amount` collateral from the user to the
/// vault; on any error here the host rolls that transfer back.  On success
/// it then mints `minted.amount` synthetic units to the user (when positive)
/// and publishes the returned records.
pub fn deposit_collateral(
    position: &mut UserCollateralAccount,
    user: u64,
    amount: u64,
    now: i64,
    auto_mint: bool,
) -> (r: Result<DepositOutcome, ErrorCode>)
    requires
        amount > 0,
    ensures
        ({
            match deposit_spec(*old(position), user, amount, now, auto_mint) {
                Ok(post) => r == Ok::<DepositOutcome, ErrorCode>(post.1) && *final(position)
                    == post.0,
                Err(e) => r == Err::<DepositOutcome, ErrorCode>(e) && *final(position) == *old(position),
            }
        }),
        // A successful auto-mint deposit keeps a collateralized position
        // collateralized: it never mints past the 150% floor.
        r is Ok && auto_mint && old(position).collateralized() ==> final(position).collateralized(),
{
    let new_deposited = match position.deposited_amount.checked_add(amount) {
        Some(total) => total,
        None => {
            return Err(ErrorCode::MathOverflow);
        },
    };
    let mint_now: u64 = if auto_mint {
        let max_mint = match max_s_tsla_to_mint(new_deposited) {
            Ok(max_mint) => max_mint,
            Err(e) => {
                return Err(e);
            },
        };
        max_mint.saturating_sub(position.minted_amount)
    } else {
        0
    };
    proof {
        crate::laws::lemma_auto_mint_cap_within_floor(new_deposited as int);
    }
    position.owner = user;
    position.deposited_amount = new_deposited;
    position.last_deposit_ts = now;
    if mint_now > 0 {
        position.minted_amount = position.minted_amount + mint_now;
    }
    Ok(
        DepositOutcome {
            deposited: CollateralDeposited { user, amount },
            minted: STeslaMinted { user, amount: mint_now },
        },
    )
}

} // verus!
