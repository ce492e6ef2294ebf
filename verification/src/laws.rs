use crate::deposit::max_mintable;
use vstd::arithmetic::div_mod::{
    lemma_div_multiples_vanish, lemma_fundamental_div_mod, lemma_mod_bound,
};
use vstd::prelude::*;

verus! {

/// The auto-mint cap respects the collateralization floor: a supply of
/// [`max_mintable`] synthetic units, one and a half of which must be covered,
/// never needs more than the collateral that backs it.
pub proof fn lemma_auto_mint_cap_within_floor(collateral: int)
    requires
        0 <= collateral,
    ensures
        max_mintable(collateral) * 150 <= collateral * 100,
{
    lemma_fundamental_div_mod(collateral * 100, 150);
    lemma_mod_bound(collateral * 100, 150);
}

/// A buy preserves the collateralization floor priced at the trade's own
/// price: if the deposited collateral covered the minted supply, valued at
/// `price`, at 150% before the buy, it still does after, because the buy
/// charges `amount * price * 150 / 100` collateral for `amount` new units.
///
/// The truncation at the division by 100 loses up to one collateral unit, so
/// the law holds exactly whenever `amount * price` is even (then
/// `amount * price * 150` is a multiple of 100 and nothing is truncated).
pub proof fn lemma_buy_preserves_priced_floor(
    deposited: int,
    minted: int,
    amount: int,
    price: int,
)
    requires
        0 <= deposited,
        0 <= minted,
        0 <= amount,
        0 <= price,
        deposited * 100 >= minted * price * 150,
        (amount * price) % 2 == 0,
    ensures
        (deposited + amount * price * 150 / 100) * 100 >= (minted + amount) * price * 150,
{
    let base = amount * price;
    let half = base / 2;
    lemma_fundamental_div_mod(base, 2);
    assert(base == 2 * half);
    assert(base * 150 == 100 * (3 * half)) by (nonlinear_arith)
        requires
            base == 2 * half,
    ;
    lemma_div_multiples_vanish(3 * half, 100);
    assert(base * 150 / 100 == 3 * half);
    assert((base * 150 / 100) * 100 == base * 150);
    assert((minted + amount) * price * 150 == minted * price * 150 + amount * price * 150)
        by (nonlinear_arith);
}

} // verus!
