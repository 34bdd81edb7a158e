//! The values a swap is described by: token addresses, the trade direction,
//! the caller's minimum exchange rate, the measured outcome, and the ways a
//! swap can fail.

use vstd::prelude::*;

verus! {

/// Address of an account or of a token mint: 32 bytes.
#[derive(Clone, Copy, Debug, PartialEq, Eq)]
pub struct Pubkey(pub [u8; 32]);

impl View for Pubkey {
    type V = Seq<u8>;

    open spec fn view(&self) -> Seq<u8> {
        self.0@
    }
}

impl Pubkey {
    /// Wraps 32 bytes as an address.
    pub fn new_from_array(bytes: [u8; 32]) -> (key: Pubkey)
        ensures
            key@ == bytes@,
    {
        Pubkey(bytes)
    }

    /// The 32 bytes of the address.
    pub fn to_bytes(&self) -> (bytes: [u8; 32])
        ensures
            bytes@ == self@,
    {
        self.0
    }

    /// Whether two addresses hold the same 32 bytes.
    pub fn equals(&self, other: &Pubkey) -> (same: bool)
        ensures
            same == (self@ == other@),
    {
        let mut i: usize = 0;
        while i < 32
            invariant
                i <= 32,
                forall|j: int| 0 <= j < i ==> self@[j] == other@[j],
            decreases 32 - i,
        {
            if self.0[i] != other.0[i] {
                return false;
            }
            i = i + 1;
        }
        assert(self@ =~= other@);
        true
    }
}

/// Direction of a trade on a market: a bid buys the base currency with the
/// quote currency, an ask sells the base currency for the quote currency.
#[derive(Clone, Copy, Debug, PartialEq, Eq, Structural)]
pub enum Side {
    Bid,
    Ask,
}

/// The least the caller accepts to receive for what is sold.
#[derive(Clone, Copy, Debug, PartialEq, Eq, Structural)]
pub struct ExchangeRate {
    /// Native units of the *to* token owed for one whole *from* token, with
    /// the decimals of the *to* mint.
    pub rate: u64,
    /// Decimals of the *from* mint.
    pub from_decimals: u8,
    /// Scaling exponent for the quote currency of a transitive swap. A direct
    /// swap sets it to zero.
    pub quote_decimals: u8,
    /// When set, quote currency that the second leg of a transitive swap left
    /// unspent counts for nothing. When clear, it is credited at the rate the
    /// second leg achieved.
    pub strict: bool,
}

impl ExchangeRate {
    /// A rate is meaningful when it asks for something in return.
    pub open spec fn wf(self) -> bool {
        self.rate > 0
    }

    /// Whether the rate asks for something in return.
    pub fn is_wf(&self) -> (ok: bool)
        ensures
            ok == self.wf(),
    {
        self.rate > 0
    }
}

/// What a swap did, as measured on the caller's wallets.
#[derive(Clone, Copy, Debug, PartialEq, Eq)]
pub struct DidSwap {
    /// The most of the *from* token the caller offered to sell.
    pub given_amount: u64,
    /// The minimum exchange rate the caller asked for.
    pub min_exchange_rate: ExchangeRate,
    /// Amount of the *from* token sold.
    pub from_amount: u64,
    /// Amount of the *to* token bought.
    pub to_amount: u64,
    /// Transitive swaps: quote currency received for the sale on the first leg.
    pub quote_amount: u64,
    /// Transitive swaps: quote currency that the second leg left unspent.
    pub spill_amount: u64,
    /// Mint sold.
    pub from_mint: Pubkey,
    /// Mint bought.
    pub to_mint: Pubkey,
    /// Mint of the quote currency of the markets used.
    pub quote_mint: Pubkey,
    /// Who signed for the swap.
    pub authority: Pubkey,
}

/// The declared reasons for rejecting a swap.
#[derive(Clone, Copy, Debug, PartialEq, Eq, Structural)]
pub enum ErrorCode {
    /// The tokens being swapped must have different mints.
    SwapTokensCannotMatch,
    /// Slippage tolerance exceeded.
    SlippageExceeded,
    /// No tokens received when swapping.
    ZeroSwap,
}

impl ErrorCode {
    /// The message that goes with the code.
    pub fn message(&self) -> (text: &'static str)
        ensures
            text@ == self.message_spec(),
    {
        match self {
            ErrorCode::SwapTokensCannotMatch => "The tokens being swapped must have different mints",
            ErrorCode::SlippageExceeded => "Slippage tolerance exceeded",
            ErrorCode::ZeroSwap => "No tokens received when swapping",
        }
    }

    /// The message of each code.
    pub open spec fn message_spec(self) -> Seq<char> {
        match self {
            ErrorCode::SwapTokensCannotMatch => "The tokens being swapped must have different mints"@,
            ErrorCode::SlippageExceeded => "Slippage tolerance exceeded"@,
            ErrorCode::ZeroSwap => "No tokens received when swapping"@,
        }
    }
}

/// Why a swap stopped short of success. Every one of these undoes the whole
/// swap: there is no partial success.
#[derive(Clone, Copy, Debug, PartialEq, Eq, Structural)]
pub enum Abort {
    /// The swap was rejected for a declared reason.
    Rejected(ErrorCode),
    /// A fatal trap: an overflow, a balance that moved the wrong way, more
    /// quote currency spent than was earned, a division by zero, or an order
    /// of zero size.
    Trap,
    /// An account could not be read, or the venue refused an order or a
    /// settlement.
    VenueFailed,
    /// A swap was handed an event it was not waiting for.
    OutOfTurn,
}

} // verus!
