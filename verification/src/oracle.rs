use crate::error::ErrorCode;
use vstd::prelude::*;

verus! {

/// Status of the oracle's last-known price.
#[derive(Clone, Copy, Debug, PartialEq, Eq, Structural)]
pub enum PriceStatus {
    /// The oracle has never been updated since creation.
    Unknown,
    /// The price is live and may back trades and redemptions.
    Trading,
    /// The feed was explicitly disabled.
    Halted,
}

/// Singleton record holding the last-known reference price of the tracked
/// asset and the identity permitted to push updates.
///
/// `price` is a fixed-point value with 6 decimal places, denominated in
/// collateral units.
#[derive(Clone, Copy, Debug, PartialEq, Eq, Structural)]
pub struct PriceOracle {
    pub bump: u8,
    pub authority: u64,
    pub last_update_timestamp: i64,
    pub price: u64,
    pub status: PriceStatus,
}

impl PriceOracle {
    /// Creates the oracle record: price zero, status `Unknown`, and the
    /// given identity as the update authority.
    pub fn initialize(authority: u64, bump: u8, now: i64) -> (oracle: PriceOracle)
        ensures
            oracle == (PriceOracle {
                bump,
                authority,
                last_update_timestamp: now,
                price: 0u64,
                status: PriceStatus::Unknown,
            }),
    {
        PriceOracle {
            bump,
            authority,
            last_update_timestamp: now,
            price: 0,
            status: PriceStatus::Unknown,
        }
    }

    /// Pushes a new price.
    ///
    /// Only the stored authority may update; any other caller fails with
    /// `Unauthorized` and changes nothing.  A successful update stores the
    /// price unchecked (zero and arbitrarily large values are accepted),
    /// stamps the update time and sets the status to `Trading`.
    pub fn update_price(&mut self, caller: u64, new_price: u64, now: i64) -> (r: Result<
        (),
        ErrorCode,
    >)
        ensures
            caller != old(self).authority ==> r == Err::<(), ErrorCode>(ErrorCode::Unauthorized)
                && *final(self) == *old(self),
            caller == old(self).authority ==> r == Ok::<(), ErrorCode>(()) && *final(self) == (PriceOracle {
                price: new_price,
                last_update_timestamp: now,
                status: PriceStatus::Trading,
                ..*old(self)
            }),
    {
        if caller != self.authority {
            return Err(ErrorCode::Unauthorized);
        }
        self.price = new_price;
        self.last_update_timestamp = now;
        self.status = PriceStatus::Trading;
        Ok(())
    }

    /// Pure read of the current price, status and update time.
    pub fn read_price(&self) -> (r: (u64, PriceStatus, i64))
        ensures
            r == (self.price, self.status, self.last_update_timestamp),
    {
        (self.price, self.status, self.last_update_timestamp)
    }
}

} // verus!
