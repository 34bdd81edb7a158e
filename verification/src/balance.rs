//! The balance tracker: what a wallet holds, and what an order moved.
//!
//! The venue is never asked how much it filled. Each wallet is read before and
//! after an order, and the difference is what was sold or bought. A balance
//! that moved the wrong way is a trap, not a negative amount.

use crate::types::{Pubkey, Side};
use vstd::prelude::*;

verus! {

/// Offset of the mint in the data of a token account.
pub const MINT_OFFSET: usize = 0;

/// Offset of the balance in the data of a token account.
pub const AMOUNT_OFFSET: usize = 64;

/// Length of the balance in the data of a token account.
pub const AMOUNT_LEN: usize = 8;

/// The number that eight bytes spell, least significant byte first.
pub open spec fn le_u64(bytes: Seq<u8>) -> int
    recommends
        bytes.len() == 8,
{
    bytes[0] + bytes[1] * 0x100 + bytes[2] * 0x1_0000 + bytes[3] * 0x100_0000 + bytes[4]
        * 0x1_0000_0000 + bytes[5] * 0x100_0000_0000 + bytes[6] * 0x1_0000_0000_0000 + bytes[7]
        * 0x100_0000_0000_0000
}

/// The balance that the data of a token account records: the eight bytes from
/// offset 64, least significant first. Data too short to hold them records
/// none.
pub open spec fn balance_of(wallet: Seq<u8>) -> Option<u64> {
    if wallet.len() >= AMOUNT_OFFSET + AMOUNT_LEN {
        Some(le_u64(wallet.subrange(AMOUNT_OFFSET as int, AMOUNT_OFFSET + AMOUNT_LEN)) as u64)
    } else {
        None
    }
}

/// The mint that the data of a token account records: its first 32 bytes.
/// Data too short to hold them records none.
pub open spec fn mint_of(wallet: Seq<u8>) -> Option<Seq<u8>> {
    if wallet.len() >= MINT_OFFSET + 32 {
        Some(wallet.subrange(MINT_OFFSET as int, MINT_OFFSET + 32))
    } else {
        None
    }
}

/// Reads the balance of a token account from its data.
///
/// Reading changes nothing and remembers nothing: the result is a function of
/// the data handed in, so a balance is as fresh as the data.
pub fn measure(wallet: &[u8]) -> (amount: Option<u64>)
    ensures
        amount == balance_of(wallet@),
{
    if wallet.len() < AMOUNT_OFFSET + AMOUNT_LEN {
        return None;
    }
    let b0 = wallet[AMOUNT_OFFSET] as u64;
    let b1 = wallet[AMOUNT_OFFSET + 1] as u64;
    let b2 = wallet[AMOUNT_OFFSET + 2] as u64;
    let b3 = wallet[AMOUNT_OFFSET + 3] as u64;
    let b4 = wallet[AMOUNT_OFFSET + 4] as u64;
    let b5 = wallet[AMOUNT_OFFSET + 5] as u64;
    let b6 = wallet[AMOUNT_OFFSET + 6] as u64;
    let b7 = wallet[AMOUNT_OFFSET + 7] as u64;
    Some(
        b0 + b1 * 0x100 + b2 * 0x1_0000 + b3 * 0x100_0000 + b4 * 0x1_0000_0000 + b5
            * 0x100_0000_0000 + b6 * 0x1_0000_0000_0000 + b7 * 0x100_0000_0000_0000,
    )
}

/// Reads the mint of a token account from its data.
pub fn mint(wallet: &[u8]) -> (key: Option<Pubkey>)
    ensures
        match key {
            Some(key) => mint_of(wallet@) == Some(key@),
            None => mint_of(wallet@) is None,
        },
{
    if wallet.len() < MINT_OFFSET + 32 {
        return None;
    }
    let mut bytes = [0u8; 32];
    let mut i: usize = 0;
    while i < 32
        invariant
            i <= 32,
            wallet@.len() >= MINT_OFFSET + 32,
            forall|j: int| 0 <= j < i ==> bytes@[j] == wallet@[MINT_OFFSET + j],
        decreases 32 - i,
    {
        bytes[i] = wallet[MINT_OFFSET + i];
        i = i + 1;
    }
    assert(bytes@ =~= wallet@.subrange(MINT_OFFSET as int, MINT_OFFSET + 32));
    Some(Pubkey::new_from_array(bytes))
}

/// What a freshly read balance is worth: two readings of a wallet whose data
/// did not change in between give the same balance.
pub proof fn lemma_measure_is_idempotent(first: Seq<u8>, second: Seq<u8>)
    requires
        first == second,
    ensures
        balance_of(first) == balance_of(second),
{
}

/// A balance depends on the eight bytes that record it and on nothing else:
/// whatever else changes in the data of a wallet, its balance does not.
pub proof fn lemma_measure_reads_the_amount_only(first: Seq<u8>, second: Seq<u8>)
    requires
        first.len() >= AMOUNT_OFFSET + AMOUNT_LEN,
        second.len() >= AMOUNT_OFFSET + AMOUNT_LEN,
        forall|i: int|
            AMOUNT_OFFSET <= i < AMOUNT_OFFSET + AMOUNT_LEN ==> first[i] == second[i],
    ensures
        balance_of(first) == balance_of(second),
{
    assert(first.subrange(AMOUNT_OFFSET as int, AMOUNT_OFFSET + AMOUNT_LEN)
        =~= second.subrange(AMOUNT_OFFSET as int, AMOUNT_OFFSET + AMOUNT_LEN));
}

/// The balances of the two wallets that an order on a market moves.
#[derive(Clone, Copy, Debug, PartialEq, Eq, Structural)]
pub struct Balances {
    /// Balance of the wallet for the market's base currency.
    pub base: u64,
    /// Balance of the wallet for the quote currency.
    pub quote: u64,
}

/// What one order sold and bought.
#[derive(Clone, Copy, Debug, PartialEq, Eq, Structural)]
pub struct Fill {
    /// Amount of the currency given up: base for an ask, quote for a bid.
    pub sold: u64,
    /// Amount of the currency received: quote for an ask, base for a bid.
    pub bought: u64,
}

/// What an order of the given side moved, from the balances before and after
/// it. An ask gives up base and receives quote; a bid gives up quote and
/// receives base. There is no fill where a balance moved the other way.
pub open spec fn fill_between(side: Side, before: Balances, after: Balances) -> Option<Fill> {
    match side {
        Side::Ask => if before.base >= after.base && after.quote >= before.quote {
            Some(
                Fill {
                    sold: (before.base - after.base) as u64,
                    bought: (after.quote - before.quote) as u64,
                },
            )
        } else {
            None
        },
        Side::Bid => if before.quote >= after.quote && after.base >= before.base {
            Some(
                Fill {
                    sold: (before.quote - after.quote) as u64,
                    bought: (after.base - before.base) as u64,
                },
            )
        } else {
            None
        },
    }
}

impl Balances {
    /// The fill of an order of the given side placed when the balances were
    /// `self` and settled when they were `after`, or `None` where a
    /// subtraction traps.
    pub fn fill(&self, after: &Balances, side: Side) -> (fill: Option<Fill>)
        ensures
            fill == fill_between(side, *self, *after),
    {
        let (from_before, from_after, to_before, to_after) = match side {
            Side::Bid => (self.quote, after.quote, self.base, after.base),
            Side::Ask => (self.base, after.base, self.quote, after.quote),
        };
        let sold = match from_before.checked_sub(from_after) {
            Some(sold) => sold,
            None => {
                return None;
            },
        };
        let bought = match to_after.checked_sub(to_before) {
            Some(bought) => bought,
            None => {
                return None;
            },
        };
        Some(Fill { sold, bought })
    }
}

} // verus!
