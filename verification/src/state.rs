use vstd::prelude::*;

verus! {

/// Protocol-owned treasury record.
///
/// The pooled collateral balance itself lives in the host's token ledger and
/// is not duplicated here; the record stores only the derivation salt
/// (`bump`) of the vault's signing capability.
#[derive(Clone, Copy, Debug, PartialEq, Eq, Structural)]
pub struct Vault {
    pub bump: u8,
}

/// The vault's derived signing capability.
///
/// A non-exportable credential the engine presents to the host's transfer
/// subsystem when moving pooled collateral without a user signature.  It is
/// derived deterministically from a fixed label and the vault's stored salt,
/// so it is reproducible and bound to exactly one vault instance.
#[derive(Clone, Copy, Debug, PartialEq, Eq, Structural)]
pub struct VaultAuthority {
    pub bump: u8,
}

impl Vault {
    /// Creates the vault record with the given derivation salt.
    pub fn initialize(bump: u8) -> (vault: Vault)
        ensures
            vault == (Vault { bump }),
    {
        Vault { bump }
    }

    /// Derives the vault's signing capability from its stored salt.
    pub fn authority(&self) -> (cap: VaultAuthority)
        ensures
            cap == (VaultAuthority { bump: self.bump }),
    {
        VaultAuthority { bump: self.bump }
    }
}

/// One record per user: the collateral currently backing that user's
/// synthetic debt and the outstanding synthetic supply attributed to them.
///
/// Account identities (`owner`) are the host's account keys, held here as
/// plain integers; the engine only ever compares them for equality.
#[derive(Clone, Copy, Debug, PartialEq, Eq, Structural)]
pub struct UserCollateralAccount {
    pub bump: u8,
    pub owner: u64,
    pub deposited_amount: u64,
    pub minted_amount: u64,
    pub last_deposit_ts: i64,
}

impl UserCollateralAccount {
    /// The 150% collateralization floor, evaluated directly on the stored
    /// balances: the deposited collateral covers one and a half times the
    /// minted synthetic supply.
    pub open spec fn collateralized(self) -> bool {
        self.deposited_amount * 100 >= self.minted_amount * 150
    }

    /// A fresh, empty position for `owner`, as the host creates it lazily on
    /// the owner's first deposit or trade.
    pub fn new(owner: u64, bump: u8) -> (position: UserCollateralAccount)
        ensures
            position == (UserCollateralAccount {
                bump,
                owner,
                deposited_amount: 0u64,
                minted_amount: 0u64,
                last_deposit_ts: 0i64,
            }),
    {
        UserCollateralAccount {
            bump,
            owner,
            deposited_amount: 0,
            minted_amount: 0,
            last_deposit_ts: 0,
        }
    }
}

} // verus!
