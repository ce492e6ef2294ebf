use crate::deposit::{deposit_spec, DepositOutcome};
use crate::error::ErrorCode;
use crate::events::TradeExecuted;
use crate::mint::mint_spec;
use crate::oracle::{PriceOracle, PriceStatus};
use crate::redeem::{redeem_spec, RedeemOutcome};
use crate::state::{UserCollateralAccount, Vault, VaultAuthority};
use crate::trade::trade_spec;
use std::collections::HashMap;
use vstd::prelude::*;

verus! {

broadcast use vstd::std_specs::hash::group_hash_axioms;

/// The fixed fallback price used on trade and redemption paths while no live
/// external feed is wired in: $800 with 6 decimal places.  Production
/// deployments select the live oracle instead (see [`EngineConfig`]).
pub const PLACEHOLDER_TSLA_PRICE: u64 = 800_000_000;

/// Configuration of the issuance engine.
///
/// Both deposit behaviours are explicit configuration rather than a silent
/// choice: with `auto_mint_on_deposit`, a deposit immediately mints
/// synthetic supply up to the 150% floor; without it, minting is left to the
/// explicit mint operation.  With `use_live_oracle`, trades and redemptions
/// price at the oracle's live price and are gated on its `Trading` status;
/// without it they use [`PLACEHOLDER_TSLA_PRICE`].
#[derive(Clone, Copy, Debug, PartialEq, Eq, Structural)]
pub struct EngineConfig {
    pub auto_mint_on_deposit: bool,
    pub use_live_oracle: bool,
}

/// The protocol's whole ledger state: the singleton vault and price oracle
/// (absent until their one-time initialization) and one position per user,
/// addressed by the user's account key.
pub struct SyntheticProtocol {
    pub config: EngineConfig,
    pub vault: Option<Vault>,
    pub oracle: Option<PriceOracle>,
    pub positions: HashMap<u64, UserCollateralAccount>,
}

impl SyntheticProtocol {
    /// The position the next operation of `user` starts from: the stored
    /// record, or a fresh empty one where none exists yet (positions are
    /// created lazily on a user's first deposit or trade).
    pub open spec fn position_or_new(self, user: u64) -> UserCollateralAccount {
        if self.positions@.contains_key(user) {
            self.positions@[user]
        } else {
            UserCollateralAccount {
                bump: 0u8,
                owner: user,
                deposited_amount: 0u64,
                minted_amount: 0u64,
                last_deposit_ts: 0i64,
            }
        }
    }

    /// The price a trade or redemption executes at, if any: the placeholder
    /// constant, or, with the live oracle selected, the oracle's price
    /// gated on its `Trading` status.
    pub open spec fn trade_price_spec(self) -> Option<u64> {
        if self.config.use_live_oracle {
            match self.oracle {
                Some(oracle) => if oracle.status == PriceStatus::Trading {
                    Some(oracle.price)
                } else {
                    None
                },
                None => None,
            }
        } else {
            Some(PLACEHOLDER_TSLA_PRICE)
        }
    }

    /// An empty ledger: nothing initialized, no positions.
    pub fn new(config: EngineConfig) -> (protocol: SyntheticProtocol)
        ensures
            protocol.config == config,
            protocol.vault is None,
            protocol.oracle is None,
            protocol.positions@ == Map::<u64, UserCollateralAccount>::empty(),
    {
        SyntheticProtocol { config, vault: None, oracle: None, positions: HashMap::new() }
    }

    /// One-time creation of the vault record with its derivation salt.
    ///
    /// Invoked a second time it fails with `AlreadyInitialized` and never
    /// silently overwrites the existing vault.
    pub fn initialize(&mut self, bump: u8) -> (r: Result<(), ErrorCode>)
        ensures
            old(self).vault is Some ==> r == Err::<(), ErrorCode>(ErrorCode::AlreadyInitialized)
                && *final(self) == *old(self),
            old(self).vault is None ==> r == Ok::<(), ErrorCode>(()) && final(self).vault == Some(
                Vault { bump },
            ) && final(self).oracle == old(self).oracle && final(self).positions == old(self).positions && final(self).config == old(self).config,
    {
        if self.vault.is_some() {
            return Err(ErrorCode::AlreadyInitialized);
        }
        self.vault = Some(Vault::initialize(bump));
        Ok(())
    }

    /// One-time creation of the price oracle: price zero, status `Unknown`,
    /// and the paying identity as the update authority.
    ///
    /// Invoked a second time it fails with `AlreadyInitialized` and never
    /// silently overwrites the existing oracle.
    pub fn initialize_price_oracle(&mut self, payer: u64, bump: u8, now: i64) -> (r: Result<
        (),
        ErrorCode,
    >)
        ensures
            old(self).oracle is Some ==> r == Err::<(), ErrorCode>(ErrorCode::AlreadyInitialized)
                && *final(self) == *old(self),
            old(self).oracle is None ==> r == Ok::<(), ErrorCode>(()) && final(self).oracle == Some(
                PriceOracle {
                    bump,
                    authority: payer,
                    last_update_timestamp: now,
                    price: 0u64,
                    status: PriceStatus::Unknown,
                },
            ) && final(self).vault == old(self).vault && final(self).positions == old(self).positions && final(self).config == old(self).config,
    {
        if self.oracle.is_some() {
            return Err(ErrorCode::AlreadyInitialized);
        }
        self.oracle = Some(PriceOracle::initialize(payer, bump, now));
        Ok(())
    }

    /// Pushes a new oracle price; only the oracle's stored authority may.
    pub fn update_price(&mut self, caller: u64, new_price: u64, now: i64) -> (r: Result<
        (),
        ErrorCode,
    >)
        requires
            old(self).oracle is Some,
        ensures
            caller != old(self).oracle->Some_0.authority ==> r == Err::<(), ErrorCode>(
                ErrorCode::Unauthorized,
            ) && *final(self) == *old(self),
            caller == old(self).oracle->Some_0.authority ==> r == Ok::<(), ErrorCode>(()) && final(self).oracle == Some(
                PriceOracle {
                    price: new_price,
                    last_update_timestamp: now,
                    status: PriceStatus::Trading,
                    ..old(self).oracle->Some_0
                },
            ) && final(self).vault == old(self).vault && final(self).positions == old(self).positions && final(self).config == old(self).config,
    {
        match &mut self.oracle {
            Some(oracle) => oracle.update_price(caller, new_price, now),
            None => Err(ErrorCode::Unauthorized),
        }
    }

    /// The price the next trade or redemption would execute at, if any.
    pub fn trade_price(&self) -> (r: Option<u64>)
        ensures
            r == self.trade_price_spec(),
    {
        if self.config.use_live_oracle {
            match &self.oracle {
                Some(oracle) => {
                    if oracle.status == PriceStatus::Trading {
                        Some(oracle.price)
                    } else {
                        None
                    }
                },
                None => None,
            }
        } else {
            Some(PLACEHOLDER_TSLA_PRICE)
        }
    }

    /// Deposits `amount` collateral for `user`, creating their position on
    /// first use, and auto-mints up to the 150% floor when configured.
    ///
    /// The host must transfer `amount` collateral from the user to the
    /// vault, and on success perform and publish the returned outcome.
    pub fn deposit_collateral(&mut self, user: u64, amount: u64, now: i64) -> (r: Result<
        DepositOutcome,
        ErrorCode,
    >)
        requires
            amount > 0,
            old(self).vault is Some,
        ensures
            ({
                let pre = old(self).position_or_new(user);
                match deposit_spec(pre, user, amount, now, old(self).config.auto_mint_on_deposit) {
                    Ok(post) => r == Ok::<DepositOutcome, ErrorCode>(post.1) && final(self).positions@ == old(self).positions@.insert(user, post.0) && final(self).vault
                        == old(self).vault && final(self).oracle == old(self).oracle && final(self).config == old(self).config,
                    Err(e) => r == Err::<DepositOutcome, ErrorCode>(e) && *final(self) == *old(self),
                }
            }),
    {
        let mut position: UserCollateralAccount = match self.positions.get(&user) {
            Some(position) => *position,
            None => UserCollateralAccount::new(user, 0),
        };
        let auto_mint = self.config.auto_mint_on_deposit;
        match crate::deposit::deposit_collateral(&mut position, user, amount, now, auto_mint) {
            Ok(outcome) => {
                self.positions.insert(user, position);
                Ok(outcome)
            },
            Err(e) => Err(e),
        }
    }

    /// Explicitly mints `mint_amount` synthetic units against the collateral
    /// of the position stored under `position`; only its owner may.
    ///
    /// On success the host must mint the returned amount to the owner under
    /// the vault's authority.
    pub fn mint_s_tsla(&mut self, caller: u64, position: u64, mint_amount: u64) -> (r: Result<
        u64,
        ErrorCode,
    >)
        requires
            mint_amount > 0,
            old(self).positions@.contains_key(position),
        ensures
            ({
                let pre = old(self).positions@[position];
                match mint_spec(pre, caller, mint_amount) {
                    Ok(post) => r == Ok::<u64, ErrorCode>(mint_amount) && final(self).positions@
                        == old(self).positions@.insert(position, post) && final(self).vault == old(self).vault && final(self).oracle == old(self).oracle && final(self).config == old(self).config,
                    Err(e) => r == Err::<u64, ErrorCode>(e) && *final(self) == *old(self),
                }
            }),
    {
        let mut stored: UserCollateralAccount = match self.positions.get(&position) {
            Some(stored) => *stored,
            None => UserCollateralAccount::new(position, 0),
        };
        match crate::mint::mint_s_tsla(&mut stored, caller, mint_amount) {
            Ok(minted) => {
                self.positions.insert(position, stored);
                Ok(minted)
            },
            Err(e) => Err(e),
        }
    }

    /// Executes a market trade of `amount` synthetic units for `user` at the
    /// configured price source, creating their position on first use.
    ///
    /// Fails with `NoOraclePrice` when the live oracle is selected but not
    /// in the `Trading` status.  On success the host must perform the token
    /// movements the returned record describes and publish it.
    pub fn market_trade(&mut self, user: u64, amount: u64, is_buy: bool, now: i64) -> (r: Result<
        TradeExecuted,
        ErrorCode,
    >)
        requires
            old(self).vault is Some,
        ensures
            ({
                match old(self).trade_price_spec() {
                    None => r == Err::<TradeExecuted, ErrorCode>(ErrorCode::NoOraclePrice) && *final(self) == *old(self),
                    Some(price) => {
                        let pre = old(self).position_or_new(user);
                        match trade_spec(pre, user, amount, is_buy, price, now) {
                            Ok(post) => r == Ok::<TradeExecuted, ErrorCode>(post.1) && final(self).positions@ == old(self).positions@.insert(user, post.0) && final(self).vault == old(self).vault && final(self).oracle == old(self).oracle
                                && final(self).config == old(self).config,
                            Err(e) => r == Err::<TradeExecuted, ErrorCode>(e) && *final(self)
                                == *old(self),
                        }
                    },
                }
            }),
    {
        let price = match self.trade_price() {
            Some(price) => price,
            None => {
                return Err(ErrorCode::NoOraclePrice);
            },
        };
        let mut position: UserCollateralAccount = match self.positions.get(&user) {
            Some(position) => *position,
            None => UserCollateralAccount::new(user, 0),
        };
        match crate::trade::market_trade(&mut position, user, amount, is_buy, price, now) {
            Ok(record) => {
                self.positions.insert(user, position);
                Ok(record)
            },
            Err(e) => Err(e),
        }
    }

    /// Redeems `redeem_amount` synthetic units from the position stored
    /// under `position` at the configured price source; only its owner may.
    ///
    /// On success the host must burn the outcome's synthetic units from the
    /// caller and pay its collateral out of the vault under the vault's
    /// authority.
    pub fn redeem_s_tsla(&mut self, caller: u64, position: u64, redeem_amount: u64) -> (r: Result<
        RedeemOutcome,
        ErrorCode,
    >)
        requires
            redeem_amount > 0,
            old(self).positions@.contains_key(position),
            old(self).vault is Some,
        ensures
            ({
                match old(self).trade_price_spec() {
                    None => r == Err::<RedeemOutcome, ErrorCode>(ErrorCode::NoOraclePrice) && *final(self) == *old(self),
                    Some(price) => {
                        let pre = old(self).positions@[position];
                        match redeem_spec(pre, caller, redeem_amount, price) {
                            Ok(post) => r == Ok::<RedeemOutcome, ErrorCode>(post.1) && final(self).positions@ == old(self).positions@.insert(position, post.0) && final(self).vault == old(self).vault && final(self).oracle == old(self).oracle
                                && final(self).config == old(self).config,
                            Err(e) => r == Err::<RedeemOutcome, ErrorCode>(e) && *final(self)
                                == *old(self),
                        }
                    },
                }
            }),
    {
        let price = match self.trade_price() {
            Some(price) => price,
            None => {
                return Err(ErrorCode::NoOraclePrice);
            },
        };
        let mut stored: UserCollateralAccount = match self.positions.get(&position) {
            Some(stored) => *stored,
            None => UserCollateralAccount::new(position, 0),
        };
        match crate::redeem::redeem_s_tsla(&mut stored, caller, redeem_amount, price) {
            Ok(outcome) => {
                self.positions.insert(position, stored);
                Ok(outcome)
            },
            Err(e) => Err(e),
        }
    }

    /// The vault's derived signing capability, presented by the host to the
    /// transfer subsystem for protocol-initiated transfers.
    pub fn vault_authority(&self) -> (cap: VaultAuthority)
        requires
            self.vault is Some,
        ensures
            cap == (VaultAuthority { bump: self.vault->Some_0.bump }),
    {
        match &self.vault {
            Some(vault) => vault.authority(),
            None => VaultAuthority { bump: 0 },
        }
    }

    /// The stored position of `user`, if one exists.
    pub fn position(&self, user: u64) -> (r: Option<UserCollateralAccount>)
        ensures
            self.positions@.contains_key(user) ==> r == Some(self.positions@[user]),
            !self.positions@.contains_key(user) ==> r is None,
    {
        match self.positions.get(&user) {
            Some(position) => Some(*position),
            None => None,
        }
    }
}

} // verus!
