//! Swap execution and slippage verification for instantly settled token swaps
//! against a limit-order venue.
//!
//! A swap sells one token and buys another by placing immediate-or-cancel
//! orders on one market (a direct swap) or on two markets that share a quote
//! currency (a transitive swap), settling after each order. What was sold and
//! bought is never taken from the venue's word: it is the difference of the
//! wallet balances read before and after each order. The measured outcome is
//! then held against the caller's minimum exchange rate.
//!
//! The library holds the decisions and the arithmetic, and touches no account
//! itself. [`swap`] and [`swap_transitive`] open a [`SwapState`] and name the
//! first [`Action`]. The caller performs each action against the venue and
//! hands the [`Event`] it produced to [`SwapState::step`], until the step
//! answers [`Action::Finish`] or [`Action::Abort`].

pub mod accounts;
pub mod balance;
pub mod orderbook;
pub mod risk;
pub mod swap;
pub mod types;

pub use accounts::{is_valid_swap, is_valid_swap_transitive, MarketAccounts, Swap, SwapTransitive};
pub use balance::{measure, mint, Balances, Fill};
pub use orderbook::{NewOrder, OrderType, SelfTradeBehavior};
pub use risk::apply_risk_checks;
pub use swap::{swap, swap_transitive, Action, Event, Leg, Route, Stage, SwapState};
pub use types::{Abort, DidSwap, ErrorCode, ExchangeRate, Pubkey, Side};
