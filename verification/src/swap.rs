//! The swap orchestrator: which step of a swap comes next.
//!
//! A swap is a run of orders, one for a direct swap and two for a transitive
//! one. For each order the orchestrator has the wallets measured, words and
//! places the order, has it settled, and has the wallets measured again. It
//! reaches the venue through nobody but its caller: each step names one
//! [`Action`] for the caller to perform and takes the [`Event`] that the
//! action produced. The last action carries the measured outcome together with
//! the verdict of the risk verifier on it.

use crate::accounts::{
    is_valid_swap, is_valid_swap_transitive, valid_swap, Swap, SwapTransitive,
};
use crate::balance::{fill_between, Balances, Fill};
use crate::orderbook::{buy, buy_order, sell, sell_order, NewOrder};
use crate::risk::{apply_risk_checks, fits, lemma_direct_swap_acceptance, pow10, risk_verdict};
use crate::types::{Abort, DidSwap, ErrorCode, ExchangeRate, Pubkey, Side};
use vstd::prelude::*;

verus! {

/// Which order of a swap. A direct swap has only a first leg, on its one
/// market. The first leg of a transitive swap sells on the market of the
/// token given up, the second buys on the market of the token wanted.
#[derive(Clone, Copy, Debug, PartialEq, Eq, Structural)]
pub enum Leg {
    First,
    Second,
}

/// The shape of a swap.
#[derive(Clone, Copy, Debug, PartialEq, Eq, Structural)]
pub enum Route {
    /// One order of the given side on one market.
    Direct(Side),
    /// A sale on one market, then a purchase on another with the proceeds.
    Transitive,
}

/// What the caller is to do next.
#[derive(Clone, Copy, Debug, PartialEq, Eq)]
pub enum Action {
    /// Read the balances of the two wallets that the leg's order moves: the
    /// wallet for the base currency of the leg's market, and the wallet for
    /// the quote currency. Answer with [`Event::Balances`].
    Measure(Leg),
    /// Read the size of a lot of the base currency on the leg's market. Answer
    /// with [`Event::LotSize`].
    ReadLotSize(Leg),
    /// Place the order on the leg's market. Answer with
    /// [`Event::OrderPlaced`].
    PlaceOrder(Leg, NewOrder),
    /// Settle the funds of the leg's market into the wallets. Answer with
    /// [`Event::Settled`].
    Settle(Leg),
    /// The swap is measured. Publish the outcome, then end with the verdict.
    Finish(DidSwap, Result<(), Abort>),
    /// The swap cannot go on. End with the abort.
    Abort(Abort),
}

/// What the caller reports back.
#[derive(Clone, Copy, Debug, PartialEq, Eq, Structural)]
pub enum Event {
    /// The balances read.
    Balances(Balances),
    /// The lot size read.
    LotSize(u64),
    /// The venue took the order.
    OrderPlaced,
    /// The venue settled.
    Settled,
    /// The action failed: an account could not be read, or the venue refused
    /// the order or the settlement.
    Failed,
}

/// How far the current leg has come.
#[derive(Clone, Copy, Debug, PartialEq, Eq, Structural)]
pub enum Stage {
    /// The balances before the order are being read.
    MeasuringBefore,
    /// The lot size is being read, for a sale.
    ReadingLotSize { before: Balances },
    /// The order is being placed.
    PlacingOrder { before: Balances },
    /// The order is being settled.
    Settling { before: Balances },
    /// The balances after the order are being read.
    MeasuringAfter { before: Balances },
    /// The swap finished or aborted: nothing is awaited.
    Closed,
}

/// The order that a leg of the given side places with the given budget on a
/// market with the given lot size. Only a sale looks at the lot size.
pub open spec fn leg_order(side: Side, budget: u64, coin_lot_size: u64) -> Option<NewOrder> {
    match side {
        Side::Bid => buy_order(budget),
        Side::Ask => sell_order(budget, coin_lot_size),
    }
}

/// A swap in progress.
#[derive(Clone, Copy, Debug, PartialEq, Eq)]
pub struct SwapState {
    /// The shape of the swap.
    pub route: Route,
    /// The most of the token given up that the caller offered to sell.
    pub given_amount: u64,
    /// The minimum exchange rate to hold the outcome against.
    pub min_exchange_rate: ExchangeRate,
    /// Who signs for the swap.
    pub authority: Pubkey,
    /// Mint given up.
    pub from_mint: Pubkey,
    /// Mint wanted.
    pub to_mint: Pubkey,
    /// Mint of the quote currency.
    pub quote_mint: Pubkey,
    /// What the first leg of a transitive swap sold and bought, once it is
    /// over.
    pub first_fill: Option<Fill>,
    /// How far the current leg has come.
    pub stage: Stage,
}

impl SwapState {
    /// The leg in progress: the second once the first has filled.
    pub open spec fn leg(self) -> Leg {
        if self.first_fill is Some {
            Leg::Second
        } else {
            Leg::First
        }
    }

    /// The side of the order of the leg in progress: that of the swap for a
    /// direct swap; for a transitive swap an ask, then a bid.
    pub open spec fn side(self) -> Side {
        match self.route {
            Route::Direct(side) => side,
            Route::Transitive => match self.first_fill {
                None => Side::Ask,
                Some(_) => Side::Bid,
            },
        }
    }

    /// What the order of the leg in progress may spend: on the first leg what
    /// the caller offered; on the second leg exactly what the first leg
    /// bought.
    pub open spec fn budget(self) -> u64 {
        match self.first_fill {
            None => self.given_amount,
            Some(first) => first.bought,
        }
    }

    /// The states that a swap passes through.
    ///
    /// The two mints differ. A direct swap has one leg, uses no quote
    /// scaling, and is quoted in whichever of its two tokens is not the base
    /// currency of its market.
    pub open spec fn wf(self) -> bool {
        &&& self.from_mint@ != self.to_mint@
        &&& self.route matches Route::Direct(side) ==> {
            &&& self.first_fill is None
            &&& self.min_exchange_rate.quote_decimals == 0
            &&& self.quote_mint == match side {
                Side::Bid => self.from_mint,
                Side::Ask => self.to_mint,
            }
        }
    }

    /// This swap at another stage.
    pub open spec fn at(self, stage: Stage) -> SwapState {
        SwapState { stage, ..self }
    }

    /// The outcome of a direct swap whose order filled as given: what was
    /// sold and bought, and neither quote proceeds nor spill.
    pub open spec fn direct_outcome(self, fill: Fill) -> DidSwap {
        DidSwap {
            given_amount: self.given_amount,
            min_exchange_rate: self.min_exchange_rate,
            from_amount: fill.sold,
            to_amount: fill.bought,
            quote_amount: 0,
            spill_amount: 0,
            from_mint: self.from_mint,
            to_mint: self.to_mint,
            quote_mint: self.quote_mint,
            authority: self.authority,
        }
    }

    /// The outcome of a transitive swap whose legs filled as given, where the
    /// second leg spent no more than the first earned: sold is what the first
    /// leg sold, bought is what the second leg bought, the quote amount is
    /// what the first leg earned, and the spill is what the second leg left of
    /// it.
    pub open spec fn transitive_outcome(self, first: Fill, second: Fill) -> DidSwap {
        DidSwap {
            given_amount: self.given_amount,
            min_exchange_rate: self.min_exchange_rate,
            from_amount: first.sold,
            to_amount: second.bought,
            quote_amount: first.bought,
            spill_amount: (first.bought - second.sold) as u64,
            from_mint: self.from_mint,
            to_mint: self.to_mint,
            quote_mint: self.quote_mint,
            authority: self.authority,
        }
    }

    /// The swap stops: nothing more is awaited, and the caller is told why.
    pub open spec fn aborted(self, why: Abort) -> (SwapState, Action) {
        (self.at(Stage::Closed), Action::Abort(why))
    }

    /// The swap ends with a measured outcome and the risk verifier's verdict
    /// on it.
    pub open spec fn finished(self, outcome: DidSwap) -> (SwapState, Action) {
        (self.at(Stage::Closed), Action::Finish(outcome, risk_verdict(outcome)))
    }

    /// The order of the leg in progress goes to the venue; a leg whose order
    /// cannot be worded traps.
    pub open spec fn placing(self, before: Balances, order: Option<NewOrder>) -> (
        SwapState,
        Action,
    ) {
        match order {
            Some(order) => (
                self.at(Stage::PlacingOrder { before }),
                Action::PlaceOrder(self.leg(), order),
            ),
            None => self.aborted(Abort::Trap),
        }
    }

    /// The leg in progress filled. A direct swap is over. A transitive swap
    /// goes on to its second leg after the first, and is over after the
    /// second, where it traps if the second leg spent more than the first
    /// earned.
    pub open spec fn filled(self, fill: Fill) -> (SwapState, Action) {
        match self.route {
            Route::Direct(_) => self.finished(self.direct_outcome(fill)),
            Route::Transitive => match self.first_fill {
                None => (
                    SwapState { first_fill: Some(fill), stage: Stage::MeasuringBefore, ..self },
                    Action::Measure(Leg::Second),
                ),
                Some(first) => if first.bought >= fill.sold {
                    self.finished(self.transitive_outcome(first, fill))
                } else {
                    self.aborted(Abort::Trap)
                },
            },
        }
    }

    /// The state after an event, and the action it calls for.
    ///
    /// Each leg runs in the same order: balances before; for a sale, the lot
    /// size; the order; its settlement; balances after. A failed action
    /// aborts the swap: nothing is tried again. So does an event other than
    /// the one awaited.
    pub open spec fn next(self, event: Event) -> (SwapState, Action) {
        match (self.stage, event) {
            (Stage::Closed, _) => self.aborted(Abort::OutOfTurn),
            (_, Event::Failed) => self.aborted(Abort::VenueFailed),
            (Stage::MeasuringBefore, Event::Balances(before)) => match self.side() {
                Side::Bid => self.placing(before, buy_order(self.budget())),
                Side::Ask => (
                    self.at(Stage::ReadingLotSize { before }),
                    Action::ReadLotSize(self.leg()),
                ),
            },
            (Stage::ReadingLotSize { before }, Event::LotSize(coin_lot_size)) => self.placing(
                before,
                leg_order(self.side(), self.budget(), coin_lot_size),
            ),
            (Stage::PlacingOrder { before }, Event::OrderPlaced) => (
                self.at(Stage::Settling { before }),
                Action::Settle(self.leg()),
            ),
            (Stage::Settling { before }, Event::Settled) => (
                self.at(Stage::MeasuringAfter { before }),
                Action::Measure(self.leg()),
            ),
            (Stage::MeasuringAfter { before }, Event::Balances(after)) => match fill_between(
                self.side(),
                before,
                after,
            ) {
                Some(fill) => self.filled(fill),
                None => self.aborted(Abort::Trap),
            },
            _ => self.aborted(Abort::OutOfTurn),
        }
    }

    /// The leg in progress.
    pub fn current_leg(&self) -> (leg: Leg)
        ensures
            leg == self.leg(),
    {
        match self.first_fill {
            Some(_) => Leg::Second,
            None => Leg::First,
        }
    }

    /// The side of the order of the leg in progress.
    pub fn current_side(&self) -> (side: Side)
        ensures
            side == self.side(),
    {
        match self.route {
            Route::Direct(side) => side,
            Route::Transitive => match self.first_fill {
                None => Side::Ask,
                Some(_) => Side::Bid,
            },
        }
    }

    /// What the order of the leg in progress may spend.
    pub fn current_budget(&self) -> (amount: u64)
        ensures
            amount == self.budget(),
    {
        match self.first_fill {
            None => self.given_amount,
            Some(first) => first.bought,
        }
    }

    fn abort(self, why: Abort) -> (r: (SwapState, Action))
        ensures
            r == self.aborted(why),
            self.wf() ==> r.0.wf(),
    {
        (SwapState { stage: Stage::Closed, ..self }, Action::Abort(why))
    }

    fn finish(self, outcome: DidSwap) -> (r: (SwapState, Action))
        ensures
            r == self.finished(outcome),
            self.wf() ==> r.0.wf(),
    {
        let verdict = apply_risk_checks(outcome);
        (SwapState { stage: Stage::Closed, ..self }, Action::Finish(outcome, verdict))
    }

    fn place(self, before: Balances, order: Option<NewOrder>) -> (r: (SwapState, Action))
        ensures
            r == self.placing(before, order),
            self.wf() ==> r.0.wf(),
    {
        match order {
            Some(order) => (
                SwapState { stage: Stage::PlacingOrder { before }, ..self },
                Action::PlaceOrder(self.current_leg(), order),
            ),
            None => self.abort(Abort::Trap),
        }
    }

    fn fill(self, fill: Fill) -> (r: (SwapState, Action))
        ensures
            r == self.filled(fill),
            self.wf() ==> r.0.wf(),
    {
        match self.route {
            Route::Direct(_) => {
                let outcome = DidSwap {
                    given_amount: self.given_amount,
                    min_exchange_rate: self.min_exchange_rate,
                    from_amount: fill.sold,
                    to_amount: fill.bought,
                    quote_amount: 0,
                    spill_amount: 0,
                    from_mint: self.from_mint,
                    to_mint: self.to_mint,
                    quote_mint: self.quote_mint,
                    authority: self.authority,
                };
                self.finish(outcome)
            },
            Route::Transitive => match self.first_fill {
                None => (
                    SwapState { first_fill: Some(fill), stage: Stage::MeasuringBefore, ..self },
                    Action::Measure(Leg::Second),
                ),
                Some(first) => {
                    let sell_proceeds = first.bought;
                    let buy_proceeds = fill.sold;
                    // The quote currency that the second leg left unspent.
                    let spill_amount = match sell_proceeds.checked_sub(buy_proceeds) {
                        Some(spill_amount) => spill_amount,
                        None => {
                            return self.abort(Abort::Trap);
                        },
                    };
                    let outcome = DidSwap {
                        given_amount: self.given_amount,
                        min_exchange_rate: self.min_exchange_rate,
                        from_amount: first.sold,
                        to_amount: fill.bought,
                        quote_amount: sell_proceeds,
                        spill_amount,
                        from_mint: self.from_mint,
                        to_mint: self.to_mint,
                        quote_mint: self.quote_mint,
                        authority: self.authority,
                    };
                    self.finish(outcome)
                },
            },
        }
    }

    /// Words the order of the leg in progress for a market with the given lot
    /// size.
    fn order(&self, coin_lot_size: u64) -> (order: Option<NewOrder>)
        ensures
            order == leg_order(self.side(), self.budget(), coin_lot_size),
    {
        match self.current_side() {
            Side::Bid => buy(self.current_budget()),
            Side::Ask => sell(self.current_budget(), coin_lot_size),
        }
    }

    /// Takes the event that the last action produced and names the next
    /// action.
    pub fn step(self, event: Event) -> (r: (SwapState, Action))
        ensures
            r == self.next(event),
            self.wf() ==> r.0.wf(),
    {
        match (self.stage, event) {
            (Stage::Closed, _) => self.abort(Abort::OutOfTurn),
            (_, Event::Failed) => self.abort(Abort::VenueFailed),
            (Stage::MeasuringBefore, Event::Balances(before)) => match self.current_side() {
                Side::Bid => self.place(before, buy(self.current_budget())),
                Side::Ask => (
                    SwapState { stage: Stage::ReadingLotSize { before }, ..self },
                    Action::ReadLotSize(self.current_leg()),
                ),
            },
            (Stage::ReadingLotSize { before }, Event::LotSize(coin_lot_size)) => self.place(
                before,
                self.order(coin_lot_size),
            ),
            (Stage::PlacingOrder { before }, Event::OrderPlaced) => (
                SwapState { stage: Stage::Settling { before }, ..self },
                Action::Settle(self.current_leg()),
            ),
            (Stage::Settling { before }, Event::Settled) => (
                SwapState { stage: Stage::MeasuringAfter { before }, ..self },
                Action::Measure(self.current_leg()),
            ),
            (Stage::MeasuringAfter { before }, Event::Balances(after)) => match before.fill(
                &after,
                self.current_side(),
            ) {
                Some(fill) => self.fill(fill),
                None => self.abort(Abort::Trap),
            },
            _ => self.abort(Abort::OutOfTurn),
        }
    }
}

/// The state in which a direct swap opens: nothing measured yet, the quote
/// scaling of the rate set to zero, sold and bought token chosen by the side.
/// A bid pays the quote currency for the base currency, an ask the reverse.
pub open spec fn direct_opening(
    accounts: Swap,
    side: Side,
    amount: u64,
    min_exchange_rate: ExchangeRate,
) -> SwapState {
    SwapState {
        route: Route::Direct(side),
        given_amount: amount,
        min_exchange_rate: ExchangeRate { quote_decimals: 0, ..min_exchange_rate },
        authority: accounts.authority,
        from_mint: match side {
            Side::Bid => accounts.pc_mint,
            Side::Ask => accounts.market.coin_mint,
        },
        to_mint: match side {
            Side::Bid => accounts.market.coin_mint,
            Side::Ask => accounts.pc_mint,
        },
        quote_mint: accounts.pc_mint,
        first_fill: None,
        stage: Stage::MeasuringBefore,
    }
}

/// The state in which a transitive swap opens: nothing measured yet, selling
/// the base currency of the one market for the base currency of the other.
pub open spec fn transitive_opening(
    accounts: SwapTransitive,
    amount: u64,
    min_exchange_rate: ExchangeRate,
) -> SwapState {
    SwapState {
        route: Route::Transitive,
        given_amount: amount,
        min_exchange_rate,
        authority: accounts.authority,
        from_mint: accounts.from.coin_mint,
        to_mint: accounts.to.coin_mint,
        quote_mint: accounts.pc_mint,
        first_fill: None,
        stage: Stage::MeasuringBefore,
    }
}

/// Opens a swap of two tokens on a single market, where one is the base
/// currency and the other the quote currency: a single immediate-or-cancel
/// order that is settled at once.
///
/// A bid swaps the quote currency for the base currency, an ask the base
/// currency for the quote currency. Fails, before anything is asked of the
/// venue, where the two are the same token.
///
/// * `side` - the direction to swap.
/// * `amount` - the most to swap *from*.
/// * `min_exchange_rate` - the rate below which the swap is rejected.
pub fn swap(accounts: &Swap, side: Side, amount: u64, min_exchange_rate: ExchangeRate) -> (opened:
    Result<(SwapState, Action), ErrorCode>)
    ensures
        match opened {
            Ok((state, action)) => {
                &&& valid_swap(accounts.market.coin_mint, accounts.pc_mint) is Ok
                &&& state == direct_opening(*accounts, side, amount, min_exchange_rate)
                &&& action == Action::Measure(Leg::First)
                &&& state.wf()
            },
            Err(code) => Err::<(), ErrorCode>(code) == valid_swap(
                accounts.market.coin_mint,
                accounts.pc_mint,
            ),
        },
{
    match is_valid_swap(accounts) {
        Ok(()) => {},
        Err(code) => {
            return Err(code);
        },
    }
    let mut min_exchange_rate = min_exchange_rate;

    // Not used for direct swaps.
    min_exchange_rate.quote_decimals = 0;

    // Side determines swap direction.
    let (from_mint, to_mint) = match side {
        Side::Bid => (accounts.pc_mint, accounts.market.coin_mint),
        Side::Ask => (accounts.market.coin_mint, accounts.pc_mint),
    };
    let state = SwapState {
        route: Route::Direct(side),
        given_amount: amount,
        min_exchange_rate,
        authority: accounts.authority,
        from_mint,
        to_mint,
        quote_mint: match side {
            Side::Bid => from_mint,
            Side::Ask => to_mint,
        },
        first_fill: None,
        stage: Stage::MeasuringBefore,
    };
    Ok((state, Action::Measure(Leg::First)))
}

/// Opens a swap of two base currencies across two markets quoted in the same
/// currency: an immediate-or-cancel sale on the first market, settled; then
/// an immediate-or-cancel purchase on the second market with the proceeds,
/// settled.
///
/// Fails, before anything is asked of the venue, where the two base
/// currencies are the same token.
///
/// * `amount` - the most to swap *from*.
/// * `min_exchange_rate` - the rate below which the swap is rejected.
pub fn swap_transitive(
    accounts: &SwapTransitive,
    amount: u64,
    min_exchange_rate: ExchangeRate,
) -> (opened: Result<(SwapState, Action), ErrorCode>)
    ensures
        match opened {
            Ok((state, action)) => {
                &&& valid_swap(accounts.from.coin_mint, accounts.to.coin_mint) is Ok
                &&& state == transitive_opening(*accounts, amount, min_exchange_rate)
                &&& action == Action::Measure(Leg::First)
                &&& state.wf()
            },
            Err(code) => Err::<(), ErrorCode>(code) == valid_swap(
                accounts.from.coin_mint,
                accounts.to.coin_mint,
            ),
        },
{
    match is_valid_swap_transitive(accounts) {
        Ok(()) => {},
        Err(code) => {
            return Err(code);
        },
    }
    let state = SwapState {
        route: Route::Transitive,
        given_amount: amount,
        min_exchange_rate,
        authority: accounts.authority,
        from_mint: accounts.from.coin_mint,
        to_mint: accounts.to.coin_mint,
        quote_mint: accounts.pc_mint,
        first_fill: None,
        stage: Stage::MeasuringBefore,
    };
    Ok((state, Action::Measure(Leg::First)))
}

/// The state and the action after a leg has been told what it has read before
/// its order: the balances and, for a sale, the lot size of its market.
pub open spec fn after_readings(state: SwapState, before: Balances, coin_lot_size: u64) -> (
    SwapState,
    Action,
) {
    match state.side() {
        Side::Bid => state.next(Event::Balances(before)),
        Side::Ask => state.next(Event::Balances(before)).0.next(Event::LotSize(coin_lot_size)),
    }
}

/// How one leg runs, from a state that awaits the balances before the order.
///
/// A sale first has the lot size read. Then the leg's order is placed, worded
/// for the leg's budget, or the swap traps where no order can be worded. The
/// order once placed is settled, the wallets are measured again, and the leg
/// ends as its fill decides: with a trap where a balance moved the wrong way.
pub proof fn lemma_leg_run(
    state: SwapState,
    before: Balances,
    coin_lot_size: u64,
    after: Balances,
)
    requires
        state.stage == Stage::MeasuringBefore,
    ensures
        state.side() == Side::Ask ==> state.next(Event::Balances(before)).1 == Action::ReadLotSize(
            state.leg(),
        ),
        match leg_order(state.side(), state.budget(), coin_lot_size) {
            None => after_readings(state, before, coin_lot_size).1 == Action::Abort(Abort::Trap),
            Some(order) => {
                let (placing, place) = after_readings(state, before, coin_lot_size);
                let (settling, settle) = placing.next(Event::OrderPlaced);
                let (measuring, measure) = settling.next(Event::Settled);
                &&& place == Action::PlaceOrder(state.leg(), order)
                &&& settle == Action::Settle(state.leg())
                &&& measure == Action::Measure(state.leg())
                &&& measuring.next(Event::Balances(after)) == match fill_between(
                    state.side(),
                    before,
                    after,
                ) {
                    Some(fill) => state.filled(fill),
                    None => state.aborted(Abort::Trap),
                }
            },
        },
{
}

/// The state and the last action of a leg that runs its course: told the
/// balances before its order and, for a sale, the lot size; then that its
/// order was placed, that it was settled, and the balances after.
pub open spec fn after_leg(
    state: SwapState,
    before: Balances,
    coin_lot_size: u64,
    after: Balances,
) -> (SwapState, Action) {
    after_readings(state, before, coin_lot_size).0.next(Event::OrderPlaced).0.next(
        Event::Settled,
    ).0.next(Event::Balances(after))
}

/// How a direct swap ends.
///
/// Once its order is placed and settled, a direct swap traps if a balance
/// moved the wrong way. Otherwise it finishes with this outcome: sold is what
/// left the wallet of the token given up, bought is what reached the wallet of
/// the token wanted, there are no quote proceeds and no spill, and the rate is
/// the caller's with its quote scaling set to zero. The verdict that comes
/// with the outcome is the risk verifier's.
pub proof fn lemma_direct_swap_run(
    accounts: Swap,
    side: Side,
    amount: u64,
    min_exchange_rate: ExchangeRate,
    before: Balances,
    coin_lot_size: u64,
    after: Balances,
)
    requires
        leg_order(side, amount, coin_lot_size) is Some,
    ensures
        after_leg(
            direct_opening(accounts, side, amount, min_exchange_rate),
            before,
            coin_lot_size,
            after,
        ).1 == match fill_between(side, before, after) {
            None => Action::Abort(Abort::Trap),
            Some(fill) => {
                let outcome = DidSwap {
                    given_amount: amount,
                    min_exchange_rate: ExchangeRate { quote_decimals: 0, ..min_exchange_rate },
                    from_amount: fill.sold,
                    to_amount: fill.bought,
                    quote_amount: 0,
                    spill_amount: 0,
                    from_mint: match side {
                        Side::Bid => accounts.pc_mint,
                        Side::Ask => accounts.market.coin_mint,
                    },
                    to_mint: match side {
                        Side::Bid => accounts.market.coin_mint,
                        Side::Ask => accounts.pc_mint,
                    },
                    quote_mint: accounts.pc_mint,
                    authority: accounts.authority,
                };
                Action::Finish(outcome, risk_verdict(outcome))
            },
        },
{
    let opening = direct_opening(accounts, side, amount, min_exchange_rate);
    lemma_leg_run(opening, before, coin_lot_size, after);
}

/// How a transitive swap runs.
///
/// Its first leg is a sale of the amount offered. When the sale has filled,
/// the second leg begins, and not before; its order is a purchase whose
/// budget is exactly what the sale earned, whatever the caller offered. The
/// swap traps if the purchase spent more than the sale earned. Otherwise it
/// finishes with this outcome: sold is what the sale gave up, bought is what
/// the purchase received, the quote amount is what the sale earned, and the
/// spill is what the purchase left of it. The verdict that comes with the
/// outcome is the risk verifier's.
pub proof fn lemma_transitive_swap_run(
    accounts: SwapTransitive,
    amount: u64,
    min_exchange_rate: ExchangeRate,
    before_sale: Balances,
    coin_lot_size: u64,
    after_sale: Balances,
    before_purchase: Balances,
    after_purchase: Balances,
)
    requires
        sell_order(amount, coin_lot_size) is Some,
        fill_between(Side::Ask, before_sale, after_sale) is Some,
    ensures
        ({
            let opening = transitive_opening(accounts, amount, min_exchange_rate);
            let sale = fill_between(Side::Ask, before_sale, after_sale)->0;
            let (halfway, proceed) = after_leg(opening, before_sale, coin_lot_size, after_sale);
            &&& after_readings(opening, before_sale, coin_lot_size).1 == Action::PlaceOrder(
                Leg::First,
                sell_order(amount, coin_lot_size)->0,
            )
            &&& proceed == Action::Measure(Leg::Second)
            &&& halfway.next(Event::Balances(before_purchase)).1 == match buy_order(sale.bought) {
                Some(order) => Action::PlaceOrder(Leg::Second, order),
                None => Action::Abort(Abort::Trap),
            }
            &&& buy_order(sale.bought) is Some ==> after_leg(
                halfway,
                before_purchase,
                coin_lot_size,
                after_purchase,
            ).1 == match fill_between(Side::Bid, before_purchase, after_purchase) {
                None => Action::Abort(Abort::Trap),
                Some(purchase) => if purchase.sold > sale.bought {
                    Action::Abort(Abort::Trap)
                } else {
                    let outcome = DidSwap {
                        given_amount: amount,
                        min_exchange_rate,
                        from_amount: sale.sold,
                        to_amount: purchase.bought,
                        quote_amount: sale.bought,
                        spill_amount: (sale.bought - purchase.sold) as u64,
                        from_mint: accounts.from.coin_mint,
                        to_mint: accounts.to.coin_mint,
                        quote_mint: accounts.pc_mint,
                        authority: accounts.authority,
                    };
                    Action::Finish(outcome, risk_verdict(outcome))
                },
            }
        }),
{
    let opening = transitive_opening(accounts, amount, min_exchange_rate);
    lemma_leg_run(opening, before_sale, coin_lot_size, after_sale);
    let halfway = after_leg(opening, before_sale, coin_lot_size, after_sale).0;
    lemma_leg_run(halfway, before_purchase, coin_lot_size, after_purchase);
}

/// What a direct swap needs to succeed.
///
/// Whatever its order filled, a direct swap finishes with an outcome that has
/// no quote scaling and no spill. One that bought nothing is rejected as a
/// zero swap, whatever it sold. It is accepted exactly when it bought
/// something, the amount bought scaled by the decimals of the mint sold fits
/// in 128 bits, and that scaled amount is at least the amount sold times the
/// rate.
pub proof fn lemma_direct_swap_verdict(state: SwapState, fill: Fill)
    requires
        state.wf(),
        state.route is Direct,
    ensures
        state.filled(fill).1 matches Action::Finish(outcome, verdict) && {
            &&& outcome == state.direct_outcome(fill)
            &&& fill.bought == 0 ==> verdict == Err::<(), Abort>(
                Abort::Rejected(ErrorCode::ZeroSwap),
            )
            &&& verdict is Ok <==> {
                &&& fill.bought > 0
                &&& fits(fill.bought * pow10(state.min_exchange_rate.from_decimals))
                &&& fill.bought * pow10(state.min_exchange_rate.from_decimals) >= fill.sold
                    * state.min_exchange_rate.rate
            }
        },
{
    lemma_direct_swap_acceptance(state.direct_outcome(fill));
}

/// A failed action is fatal, wherever the swap stands: the swap aborts and is
/// closed.
pub proof fn lemma_failure_is_fatal(state: SwapState)
    requires
        !(state.stage is Closed),
    ensures
        state.next(Event::Failed) == (state.at(Stage::Closed), Action::Abort(Abort::VenueFailed)),
{
}

/// A swap that finished or aborted stays so, and nothing is tried again: it
/// answers every further event by aborting out of turn.
pub proof fn lemma_closed_is_final(state: SwapState, event: Event)
    requires
        state.stage is Closed,
    ensures
        state.next(event) == (state, Action::Abort(Abort::OutOfTurn)),
{
}

/// Nothing reaches the venue out of order: an order is placed only in answer
/// to the balances read before it or, for a sale, to the lot size read after
/// them; a settlement is called for only in answer to a placed order.
pub proof fn lemma_orders_follow_measurement(state: SwapState, event: Event)
    ensures
        state.next(event).1 is PlaceOrder ==> {
            ||| state.stage is MeasuringBefore && event is Balances
            ||| state.stage is ReadingLotSize && event is LotSize
        },
        state.next(event).1 is Settle <==> state.stage is PlacingOrder && event is OrderPlaced,
{
}

} // verus!
