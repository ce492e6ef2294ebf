//! Accounting core of a synthetic-asset issuance protocol.
//!
//! Users deposit a stable collateral asset into a pooled vault, and against
//! that collateral the engine mints and burns a synthetic tracking token while
//! maintaining a 150% over-collateralization floor.  The library holds the
//! ledger rules only: how deposits, explicit mints, market trades and
//! redemptions mutate per-user and protocol-wide balances, and how the price
//! feed is consumed.  Actual token transfers, account storage and the clock
//! belong to the hosting substrate; every operation here returns the token
//! movements the host must perform, and the host's atomic commit makes an
//! operation all-or-nothing.

pub mod deposit;
pub mod error;
pub mod events;
pub mod laws;
pub mod mint;
pub mod oracle;
pub mod protocol;
pub mod redeem;
pub mod state;
pub mod trade;
