//! The accounts a swap runs on, as far as its decisions read them, and the
//! one check made on them before anything is traded.

use crate::types::{ErrorCode, Pubkey};
use vstd::prelude::*;

verus! {

/// The accounts of one market. Of all of them a swap's decisions read one
/// fact: which token the wallet for the market's base currency holds.
#[derive(Clone, Copy, Debug, PartialEq, Eq)]
pub struct MarketAccounts {
    /// Mint of the wallet that holds the market's base currency.
    pub coin_mint: Pubkey,
}

/// The accounts of a direct swap on one market.
#[derive(Clone, Copy, Debug, PartialEq, Eq)]
pub struct Swap {
    /// The market traded on.
    pub market: MarketAccounts,
    /// Who signs for the swap.
    pub authority: Pubkey,
    /// Mint of the wallet that holds the market's quote currency.
    pub pc_mint: Pubkey,
}

/// The accounts of a transitive swap across two markets quoted in the same
/// currency.
#[derive(Clone, Copy, Debug, PartialEq, Eq)]
pub struct SwapTransitive {
    /// The market on which the token given up is sold.
    pub from: MarketAccounts,
    /// The market on which the token wanted is bought.
    pub to: MarketAccounts,
    /// Who signs for the swap, and for every order placed.
    pub authority: Pubkey,
    /// Mint of the one wallet that holds the quote currency of both markets.
    pub pc_mint: Pubkey,
}

/// The verdict on the two mints of a swap: they must differ.
pub open spec fn valid_swap(from_mint: Pubkey, to_mint: Pubkey) -> Result<(), ErrorCode> {
    if from_mint@ == to_mint@ {
        Err(ErrorCode::SwapTokensCannotMatch)
    } else {
        Ok(())
    }
}

/// Checks that a direct swap trades one token for another: the base currency
/// of its market is not also the quote currency.
pub fn is_valid_swap(accounts: &Swap) -> (valid: Result<(), ErrorCode>)
    ensures
        valid == valid_swap(accounts.market.coin_mint, accounts.pc_mint),
{
    _is_valid_swap(&accounts.market.coin_mint, &accounts.pc_mint)
}

/// Checks that a transitive swap trades one token for another: its two markets
/// do not have the same base currency.
pub fn is_valid_swap_transitive(accounts: &SwapTransitive) -> (valid: Result<(), ErrorCode>)
    ensures
        valid == valid_swap(accounts.from.coin_mint, accounts.to.coin_mint),
{
    _is_valid_swap(&accounts.from.coin_mint, &accounts.to.coin_mint)
}

/// Checks that the tokens being swapped are of different mints.
fn _is_valid_swap(from_mint: &Pubkey, to_mint: &Pubkey) -> (valid: Result<(), ErrorCode>)
    ensures
        valid == valid_swap(*from_mint, *to_mint),
{
    if from_mint.equals(to_mint) {
        return Err(ErrorCode::SwapTokensCannotMatch);
    }
    Ok(())
}

/// A swap is refused exactly when it would trade a token for itself, and then
/// for that reason.
pub proof fn lemma_same_mint_is_refused(from_mint: Pubkey, to_mint: Pubkey)
    ensures
        from_mint@ == to_mint@ <==> valid_swap(from_mint, to_mint) == Err::<(), ErrorCode>(
            ErrorCode::SwapTokensCannotMatch,
        ),
        from_mint@ != to_mint@ <==> valid_swap(from_mint, to_mint) is Ok,
{
}

} // verus!
