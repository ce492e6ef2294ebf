use vstd::prelude::*;

verus! {

/// Record of a successful collateral deposit, for the host to publish.
#[derive(Clone, Copy, Debug, PartialEq, Eq, Structural)]
pub struct CollateralDeposited {
    pub user: u64,
    pub amount: u64,
}

/// Record of synthetic supply minted to a user, for the host to publish.
#[derive(Clone, Copy, Debug, PartialEq, Eq, Structural)]
pub struct STeslaMinted {
    pub user: u64,
    pub amount: u64,
}

/// Record of an executed market trade, for the host to publish.
///
/// On a buy, `usdc_amount` is the collateral the user paid in; on a sell, it
/// is the collateral paid out.  `price` is the fixed-point price the trade
/// was executed at.
#[derive(Clone, Copy, Debug, PartialEq, Eq, Structural)]
pub struct TradeExecuted {
    pub user: u64,
    pub is_buy: bool,
    pub amount: u64,
    pub usdc_amount: u64,
    pub price: u64,
}

} // verus!
