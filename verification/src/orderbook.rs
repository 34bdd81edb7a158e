//! The venue client: how a swap words its orders.
//!
//! Every order is immediate-or-cancel and priced to take whatever the book
//! offers: a sale accepts any price and any proceeds, a purchase spends up to
//! its budget on as much of the base currency as that buys. What an order
//! actually filled is read off the wallets afterwards.

use crate::types::Side;
use vstd::arithmetic::div_mod::{lemma_basic_div, lemma_fundamental_div_mod, lemma_mod_pos_bound};
use vstd::prelude::*;

verus! {

/// What the venue does when an order would trade against one of its owner's
/// own resting orders.
#[derive(Clone, Copy, Debug, PartialEq, Eq, Structural)]
pub enum SelfTradeBehavior {
    /// Shrink the resting order by what would have traded.
    DecrementTake,
    /// Cancel the resting order.
    CancelProvide,
    /// Fail the whole transaction.
    AbortTransaction,
}

/// How long an order lives.
#[derive(Clone, Copy, Debug, PartialEq, Eq, Structural)]
pub enum OrderType {
    /// Rests on the book until filled or cancelled.
    Limit,
    /// Fills what it can at once; the rest is cancelled.
    ImmediateOrCancel,
    /// Rests on the book, and is rejected if it would trade at once.
    PostOnly,
}

/// The most matching cycles the venue may spend on one order before it gives
/// up and posts what is left.
pub const MATCH_CYCLE_LIMIT: u16 = 65535;

/// The client order id of every order: ids serve cancellation, and a swap
/// never cancels.
pub const CLIENT_ORDER_ID: u64 = 0;

/// An order as the venue takes it.
#[derive(Clone, Copy, Debug, PartialEq, Eq, Structural)]
pub struct NewOrder {
    /// Bid or ask.
    pub side: Side,
    /// Limit price, in lots of the quote currency per lot of the base currency.
    pub limit_price: u64,
    /// The most base currency to trade, in lots.
    pub max_coin_qty: u64,
    /// The most quote currency to trade, in native units, fees included.
    pub max_native_pc_qty: u64,
    /// What to do about the owner's own resting orders.
    pub self_trade_behavior: SelfTradeBehavior,
    /// How long the order lives.
    pub order_type: OrderType,
    /// Id by which the owner could cancel the order.
    pub client_order_id: u64,
    /// The most matching cycles the venue may spend on the order.
    pub limit: u16,
}

impl NewOrder {
    /// The venue takes no order with a zero price or a zero quantity.
    pub open spec fn wf(self) -> bool {
        &&& self.limit_price > 0
        &&& self.max_coin_qty > 0
        &&& self.max_native_pc_qty > 0
    }
}

/// The order of a swap with the given price and quantities: immediate or
/// cancel, shrinking the owner's own resting orders rather than trading with
/// them, under the fixed client order id and cycle limit. There is none where
/// the price or a quantity is zero.
pub open spec fn order_for(
    limit_price: u64,
    max_coin_qty: u64,
    max_native_pc_qty: u64,
    side: Side,
) -> Option<NewOrder> {
    if limit_price == 0 || max_coin_qty == 0 || max_native_pc_qty == 0 {
        None
    } else {
        Some(
            NewOrder {
                side,
                limit_price,
                max_coin_qty,
                max_native_pc_qty,
                self_trade_behavior: SelfTradeBehavior::DecrementTake,
                order_type: OrderType::ImmediateOrCancel,
                client_order_id: CLIENT_ORDER_ID,
                limit: MATCH_CYCLE_LIMIT,
            },
        )
    }
}

/// The whole lots of the base currency in `size` native units, for a market
/// whose lot is `coin_lot_size` native units. What is left over below one lot
/// cannot be traded. There is no answer for a lot of size zero.
pub open spec fn lots_in(coin_lot_size: u64, size: u64) -> Option<u64> {
    if coin_lot_size == 0 {
        None
    } else {
        Some(size / coin_lot_size)
    }
}

/// The order that sells up to `base_amount` native units of the base currency
/// on a market whose lot is `coin_lot_size`: an ask for the whole lots in that
/// amount, at the lowest price there is, for proceeds without bound. There is
/// none where the lot size is zero or the amount is less than one lot.
pub open spec fn sell_order(base_amount: u64, coin_lot_size: u64) -> Option<NewOrder> {
    match lots_in(coin_lot_size, base_amount) {
        Some(max_coin_qty) => order_for(1, max_coin_qty, u64::MAX, Side::Ask),
        None => None,
    }
}

/// The order that spends up to `quote_amount` native units of the quote
/// currency: a bid at the highest price there is, for base currency without
/// bound. There is none for an amount of zero.
pub open spec fn buy_order(quote_amount: u64) -> Option<NewOrder> {
    order_for(u64::MAX, u64::MAX, quote_amount, Side::Bid)
}

/// Number of lots of the base currency in a trade of `size` native units, or
/// `None` where the division traps.
pub fn coin_lots(coin_lot_size: u64, size: u64) -> (lots: Option<u64>)
    ensures
        lots == lots_in(coin_lot_size, size),
{
    size.checked_div(coin_lot_size)
}

/// Words an order for the venue, or gives `None` where the price or a
/// quantity is zero.
///
/// * `limit_price` - the limit price in lot units.
/// * `max_coin_qty` - the most base currency to trade, in lots.
/// * `max_native_pc_qty` - the most quote currency to trade, in native units.
/// * `side` - bid or ask.
pub fn new_order(limit_price: u64, max_coin_qty: u64, max_native_pc_qty: u64, side: Side) -> (order:
    Option<NewOrder>)
    ensures
        order == order_for(limit_price, max_coin_qty, max_native_pc_qty, side),
        order matches Some(order) ==> order.wf(),
{
    if limit_price == 0 || max_coin_qty == 0 || max_native_pc_qty == 0 {
        return None;
    }
    Some(
        NewOrder {
            side,
            limit_price,
            max_coin_qty,
            max_native_pc_qty,
            self_trade_behavior: SelfTradeBehavior::DecrementTake,
            order_type: OrderType::ImmediateOrCancel,
            client_order_id: CLIENT_ORDER_ID,
            limit: MATCH_CYCLE_LIMIT,
        },
    )
}

/// Words the sale of up to `base_amount` native units of the base currency,
/// for as much of the quote currency as the book gives.
pub fn sell(base_amount: u64, coin_lot_size: u64) -> (order: Option<NewOrder>)
    ensures
        order == sell_order(base_amount, coin_lot_size),
        order matches Some(order) ==> order.wf(),
{
    let limit_price: u64 = 1;
    let max_coin_qty = match coin_lots(coin_lot_size, base_amount) {
        Some(lots) => lots,
        None => {
            return None;
        },
    };
    let max_native_pc_qty = u64::MAX;
    new_order(limit_price, max_coin_qty, max_native_pc_qty, Side::Ask)
}

/// Words the purchase of as much of the base currency as `quote_amount`
/// native units of the quote currency buy.
pub fn buy(quote_amount: u64) -> (order: Option<NewOrder>)
    ensures
        order == buy_order(quote_amount),
        order matches Some(order) ==> order.wf(),
{
    let limit_price = u64::MAX;
    let max_coin_qty = u64::MAX;
    let max_native_pc_qty = quote_amount;
    new_order(limit_price, max_coin_qty, max_native_pc_qty, Side::Bid)
}

/// A sale can be worded exactly when the amount holds at least one whole lot,
/// and then it offers the whole lots in the amount: what is left over below
/// one lot stays out of the order.
pub proof fn lemma_sell_order_offers_whole_lots(base_amount: u64, coin_lot_size: u64)
    ensures
        sell_order(base_amount, coin_lot_size) is Some <==> 0 < coin_lot_size <= base_amount,
        sell_order(base_amount, coin_lot_size) matches Some(order) ==> {
            &&& order.side == Side::Ask
            &&& order.max_coin_qty * coin_lot_size <= base_amount
            &&& base_amount < (order.max_coin_qty + 1) * coin_lot_size
        },
{
    if coin_lot_size > 0 {
        let amount = base_amount as int;
        let lot = coin_lot_size as int;
        let lots = amount / lot;
        let rest = amount % lot;
        lemma_fundamental_div_mod(amount, lot);
        lemma_mod_pos_bound(amount, lot);
        assert(lot * lots == lots * lot) by (nonlinear_arith);
        assert((lots + 1) * lot == lots * lot + lot) by (nonlinear_arith);
        if amount < lot {
            lemma_basic_div(amount, lot);
        } else {
            assert(lots > 0) by (nonlinear_arith)
                requires
                    amount == lots * lot + rest,
                    rest < lot,
                    amount >= lot,
                    lot > 0,
            ;
        }
    }
}

} // verus!
