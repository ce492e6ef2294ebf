use crate::error::ErrorCode;
use crate::state::UserCollateralAccount;
use vstd::prelude::*;

verus! {

/// The explicit-mint transition on one position.
///
/// Checks run in this order: the caller must be the stored owner
/// (`Unauthorized`); every intermediate of the collateralization test must
/// fit in the 64-bit unsigned range (`MathOverflow`); and the deposited
/// collateral must cover the existing plus the new debt at the 150% floor
/// (`InsufficientCollateral`).  On success the minted amount is added to the
/// position's synthetic debt.
pub open spec fn mint_spec(
    pre: UserCollateralAccount,
    caller: u64,
    mint_amount: u64,
) -> Result<UserCollateralAccount, ErrorCode> {
    let new_minted = pre.minted_amount + mint_amount;
    if caller != pre.owner {
        Err(ErrorCode::Unauthorized)
    } else if new_minted > u64::MAX || new_minted * 150 > u64::MAX || pre.deposited_amount * 100
        > u64::MAX {
        Err(ErrorCode::MathOverflow)
    } else if pre.deposited_amount * 100 < new_minted * 150 {
        Err(ErrorCode::InsufficientCollateral)
    } else {
        Ok(UserCollateralAccount { minted_amount: new_minted as u64, ..pre })
    }
}

/// Mints `mint_amount` synthetic units against the position's collateral.
///
/// On success the host must mint the returned amount of synthetic units to
/// the owner under the vault's authority.  A successful mint always leaves
/// the position at or above the 150% floor, because the collateral is
/// checked against the existing plus the new debt.
pub fn mint_s_tsla(
    position: &mut UserCollateralAccount,
    caller: u64,
    mint_amount: u64,
) -> (r: Result<u64, ErrorCode>)
    requires
        mint_amount > 0,
    ensures
        ({
            match mint_spec(*old(position), caller, mint_amount) {
                Ok(post) => r == Ok::<u64, ErrorCode>(mint_amount) && *final(position) == post,
                Err(e) => r == Err::<u64, ErrorCode>(e) && *final(position) == *old(position),
            }
        }),
        // Collateralization floor: a successful mint leaves the position
        // covered at 150%, whatever state it started from.
        r is Ok ==> final(position).collateralized(),
{
    if caller != position.owner {
        return Err(ErrorCode::Unauthorized);
    }
    let new_minted = match position.minted_amount.checked_add(mint_amount) {
        Some(total) => total,
        None => {
            return Err(ErrorCode::MathOverflow);
        },
    };
    let required_collateral = match new_minted.checked_mul(150) {
        Some(debt) => debt,
        None => {
            return Err(ErrorCode::MathOverflow);
        },
    };
    let available_collateral = match position.deposited_amount.checked_mul(100) {
        Some(cover) => cover,
        None => {
            return Err(ErrorCode::MathOverflow);
        },
    };
    if available_collateral < required_collateral {
        return Err(ErrorCode::InsufficientCollateral);
    }
    position.minted_amount = new_minted;
    Ok(mint_amount)
}

} // verus!
