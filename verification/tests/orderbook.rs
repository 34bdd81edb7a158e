use serum_swap::orderbook::{buy, coin_lots, new_order, sell, CLIENT_ORDER_ID, MATCH_CYCLE_LIMIT};
use serum_swap::{NewOrder, OrderType, SelfTradeBehavior, Side};

#[test]
fn sale_offers_the_whole_lots_in_the_amount() {
    let order = sell(2_500, 1_000).unwrap();
    assert_eq!(
        order,
        NewOrder {
            side: Side::Ask,
            limit_price: 1,
            max_coin_qty: 2,
            max_native_pc_qty: u64::MAX,
            self_trade_behavior: SelfTradeBehavior::DecrementTake,
            order_type: OrderType::ImmediateOrCancel,
            client_order_id: 0,
            limit: 65535,
        }
    );
}

#[test]
fn sale_of_exact_lots_offers_them_all() {
    assert_eq!(sell(3_000, 1_000).unwrap().max_coin_qty, 3);
    assert_eq!(sell(1_000, 1_000).unwrap().max_coin_qty, 1);
    assert_eq!(sell(u64::MAX, 1).unwrap().max_coin_qty, u64::MAX);
}

#[test]
fn sale_of_less_than_one_lot_cannot_be_worded() {
    assert_eq!(sell(999, 1_000), None);
    assert_eq!(sell(0, 1), None);
}

#[test]
fn sale_on_a_market_without_lot_size_cannot_be_worded() {
    assert_eq!(sell(1_000, 0), None);
    assert_eq!(coin_lots(0, 1_000), None);
}

#[test]
fn lots_are_counted_by_whole_division() {
    assert_eq!(coin_lots(10, 25), Some(2));
    assert_eq!(coin_lots(10, 9), Some(0));
    assert_eq!(coin_lots(1, u64::MAX), Some(u64::MAX));
}

#[test]
fn purchase_spends_up_to_its_budget_at_any_price() {
    let order = buy(500).unwrap();
    assert_eq!(
        order,
        NewOrder {
            side: Side::Bid,
            limit_price: u64::MAX,
            max_coin_qty: u64::MAX,
            max_native_pc_qty: 500,
            self_trade_behavior: SelfTradeBehavior::DecrementTake,
            order_type: OrderType::ImmediateOrCancel,
            client_order_id: 0,
            limit: 65535,
        }
    );
}

#[test]
fn purchase_with_nothing_cannot_be_worded() {
    assert_eq!(buy(0), None);
}

#[test]
fn every_order_is_immediate_or_cancel_and_decrements_the_taker() {
    for side in [Side::Bid, Side::Ask] {
        let order = new_order(7, 8, 9, side).unwrap();
        assert_eq!(order.side, side);
        assert_eq!(order.limit_price, 7);
        assert_eq!(order.max_coin_qty, 8);
        assert_eq!(order.max_native_pc_qty, 9);
        assert_eq!(order.order_type, OrderType::ImmediateOrCancel);
        assert_eq!(order.self_trade_behavior, SelfTradeBehavior::DecrementTake);
        assert_eq!(order.client_order_id, CLIENT_ORDER_ID);
        assert_eq!(order.limit, MATCH_CYCLE_LIMIT);
    }
    assert_eq!(MATCH_CYCLE_LIMIT, 65535);
    assert_eq!(CLIENT_ORDER_ID, 0);
}

#[test]
fn order_with_a_zero_price_or_quantity_cannot_be_worded() {
    assert_eq!(new_order(0, 1, 1, Side::Bid), None);
    assert_eq!(new_order(1, 0, 1, Side::Bid), None);
    assert_eq!(new_order(1, 1, 0, Side::Ask), None);
    assert!(new_order(1, 1, 1, Side::Ask).is_some());
}
