use exchange::{Asset, Exchange, ExchangeError, Transfer};

const ONE: u128 = 1_000_000_000_000;
const OPERATION: u64 = 900;
const VAULT: u64 = 901;
const BUYER: u64 = 1;
const SELLER: u64 = 2;

fn exchange_with_pair(min: u128) -> Exchange<u64, u32> {
    let mut ex = Exchange::new(OPERATION, VAULT, min);
    assert_eq!(ex.create_pair(10, 20, 7, 1), 0);
    ex
}

#[test]
fn order_creation_reserves_the_volume() {
    let mut ex = exchange_with_pair(10);
    let (id, t) = ex.create_buy_order(0, BUYER, 500, ONE, 500, 3).unwrap();
    assert_eq!(id, 0);
    assert_eq!(t, Transfer { asset: Asset::Token(10), from: BUYER, to: OPERATION, amount: 500 });
    let (id, t) = ex.create_sell_order(0, SELLER, 400, ONE, 1000, 3).unwrap();
    assert_eq!(id, 0);
    assert_eq!(t, Transfer { asset: Asset::Token(20), from: SELLER, to: OPERATION, amount: 400 });
    let (id, _) = ex.create_buy_order(0, BUYER, 1, ONE, 1, 3).unwrap();
    assert_eq!(id, 1);
}

#[test]
fn order_creation_errors() {
    let mut ex = exchange_with_pair(10);
    assert_eq!(ex.create_buy_order(1, BUYER, 500, ONE, 500, 3), Err(ExchangeError::PairNotFound));
    assert_eq!(ex.create_sell_order(5, SELLER, 5, ONE, 500, 3), Err(ExchangeError::PairNotFound));
    assert_eq!(
        ex.create_buy_order(0, BUYER, 501, ONE, 500, 3),
        Err(ExchangeError::InsufficientAmount)
    );
    assert_eq!(
        ex.create_native_sell_order(0, SELLER, 5, ONE, 5, 3),
        Err(ExchangeError::PairNotFound)
    );
    assert!(ex.pair_book(0).unwrap().buy_order_ids().is_empty());
    assert!(ex.pair(1).is_err());
    assert_eq!(ex.pair(0).unwrap().base, 10);
}

#[test]
fn underflowing_match_rolls_back_the_pair() {
    // minimum volume 10; buy (100, 2e12); sell (40, 1e12). The buy order
    // implies 200 base units, so the sell order would be absorbed, and the
    // buyer reduced by (1e12 / 40) * 1e12 = 2.5e22, which is below zero: the
    // pair's tick is rolled back and reported.
    let mut ex = exchange_with_pair(10);
    ex.create_buy_order(0, BUYER, 100, 2 * ONE, 100, 1).unwrap();
    ex.create_sell_order(0, SELLER, 40, ONE, 40, 1).unwrap();
    let report = ex.match_orders(2);
    assert_eq!(report.aborted, vec![0]);
    assert!(report.transfers.is_empty());
    let book = ex.pair_book(0).unwrap();
    assert_eq!(book.buy_order(0).unwrap().volume, 100);
    assert_eq!(book.sell_order(0).unwrap().volume, 40);
    assert_eq!(book.trade_count(), 0);
}

#[test]
fn buy_absorbed_match_settles_with_fee() {
    let mut ex = exchange_with_pair(10);
    ex.create_buy_order(0, BUYER, 10_000, ONE, 10_000, 1).unwrap();
    ex.create_sell_order(0, SELLER, 15_000, ONE, 15_000, 1).unwrap();
    let report = ex.match_orders(5);
    assert!(report.aborted.is_empty());
    assert_eq!(
        report.transfers,
        vec![
            Transfer { asset: Asset::Token(10), from: OPERATION, to: SELLER, amount: 9990 },
            Transfer { asset: Asset::Token(10), from: OPERATION, to: VAULT, amount: 10 },
            Transfer { asset: Asset::Token(20), from: OPERATION, to: BUYER, amount: 9990 },
            Transfer { asset: Asset::Token(20), from: OPERATION, to: VAULT, amount: 10 },
        ]
    );
    let book = ex.pair_book(0).unwrap();
    // the buy order fell to zero and was pruned; the sell order keeps 5000
    assert!(book.buy_order_ids().is_empty());
    assert_eq!(book.sell_order(0).unwrap().volume, 5000);
    assert_eq!(book.trade_count(), 1);
    let t = book.trade(0).unwrap();
    assert_eq!((t.pair, t.seller, t.buyer, t.volume, t.ratio, t.created), (0, SELLER, BUYER, 10_000, ONE, 5));
}

#[test]
fn settlement_conserves_each_leg() {
    let mut ex = exchange_with_pair(10);
    ex.create_buy_order(0, BUYER, 12_345_678, ONE, 12_345_678, 1).unwrap();
    ex.create_sell_order(0, SELLER, 20_000_000, ONE, 20_000_000, 1).unwrap();
    let report = ex.match_orders(2);
    let t = &report.transfers;
    assert_eq!(t.len(), 4);
    assert!(t.iter().all(|x| x.from == OPERATION));
    assert_eq!(t[0].amount + t[1].amount, 12_345_678);
    assert_eq!(t[2].amount + t[3].amount, 12_345_678);
    assert_eq!((t[0].to, t[1].to, t[2].to, t[3].to), (SELLER, VAULT, BUYER, VAULT));
}

#[test]
fn each_match_rereads_the_reduced_order() {
    let mut ex = exchange_with_pair(10);
    ex.create_buy_order(0, BUYER, 5 * ONE, ONE, 5 * ONE, 1).unwrap();
    ex.create_sell_order(0, SELLER, ONE, ONE, ONE, 1).unwrap();
    ex.create_sell_order(0, SELLER + 1, ONE, ONE, ONE, 1).unwrap();
    let report = ex.match_orders(2);
    assert!(report.aborted.is_empty());
    assert_eq!(report.transfers.len(), 8);
    let book = ex.pair_book(0).unwrap();
    // two matches of 1e12 each: 5e12 - 2e12 remains, never more than before
    let buy = book.buy_order(0).unwrap();
    assert_eq!(buy.volume, 3 * ONE);
    assert!(buy.volume <= 5 * ONE);
    assert!(book.sell_order_ids().is_empty());
    assert_eq!(book.trade_count(), 2);
    assert_eq!(book.trade(1).unwrap().seller, SELLER + 1);
}

#[test]
fn oldest_eligible_buy_is_matched_first() {
    let mut ex = exchange_with_pair(60);
    ex.create_buy_order(0, 11, 100, ONE, 100, 1).unwrap();
    ex.create_buy_order(0, 12, 100, 2 * ONE, 100, 1).unwrap();
    ex.create_sell_order(0, SELLER, 150, ONE, 150, 1).unwrap();
    let report = ex.match_orders(2);
    assert!(report.aborted.is_empty());
    let book = ex.pair_book(0).unwrap();
    assert_eq!(book.trade_count(), 1);
    assert_eq!(book.trade(0).unwrap().buyer, 11);
    // the newer, better-priced buy order is untouched
    assert_eq!(book.buy_order_ids(), vec![1]);
    assert_eq!(book.buy_order(1).unwrap().volume, 100);
    // the sell order fell to 50, at or below the minimum of 60
    assert!(book.sell_order_ids().is_empty());
}

#[test]
fn quiet_tick_changes_nothing() {
    let mut ex = exchange_with_pair(10);
    ex.create_buy_order(0, BUYER, 100, ONE, 100, 1).unwrap();
    ex.create_sell_order(0, SELLER, 100, 2 * ONE, 100, 1).unwrap();
    let report = ex.match_orders(2);
    assert!(report.transfers.is_empty());
    assert!(report.aborted.is_empty());
    let book = ex.pair_book(0).unwrap();
    assert_eq!(book.buy_order_ids(), vec![0]);
    assert_eq!(book.sell_order_ids(), vec![0]);
    assert_eq!(book.buy_order(0).unwrap().volume, 100);
    assert_eq!(book.sell_order(0).unwrap().volume, 100);
    assert_eq!(book.trade_count(), 0);
}

#[test]
fn dust_is_pruned_even_without_matches() {
    let mut ex = exchange_with_pair(10);
    ex.create_buy_order(0, BUYER, 10, ONE, 10, 1).unwrap();
    ex.create_buy_order(0, BUYER, 11, ONE, 11, 1).unwrap();
    ex.create_sell_order(0, SELLER, 5, 2 * ONE, 5, 1).unwrap();
    ex.match_orders(2);
    let book = ex.pair_book(0).unwrap();
    assert_eq!(book.buy_order_ids(), vec![1]);
    assert!(book.sell_order_ids().is_empty());
}

#[test]
fn native_market_settles_base_leg_in_native_currency() {
    let mut ex: Exchange<u64, u32> = Exchange::new(OPERATION, VAULT, 10);
    assert_eq!(ex.create_native_pair(30, 7, 1), 0);
    let (_, t) = ex.create_native_buy_order(0, BUYER, 10_000, ONE, 10_000, 1).unwrap();
    assert_eq!(t.asset, Asset::Native);
    let (_, t) = ex.create_native_sell_order(0, SELLER, 10_000, ONE, 10_000, 1).unwrap();
    assert_eq!(t.asset, Asset::Token(30));
    let (native, pairs) = ex.on_tick(2);
    assert!(pairs.transfers.is_empty());
    assert_eq!(native.transfers.len(), 4);
    assert_eq!(native.transfers[0], Transfer { asset: Asset::Native, from: OPERATION, to: SELLER, amount: 9990 });
    assert_eq!(native.transfers[2], Transfer { asset: Asset::Token(30), from: OPERATION, to: BUYER, amount: 9990 });
    let book = ex.native_pair_book(0).unwrap();
    assert_eq!(book.trade_count(), 1);
    assert!(book.buy_order_ids().is_empty());
    assert!(book.sell_order_ids().is_empty());
}

#[test]
fn pairs_tick_independently() {
    let mut ex = exchange_with_pair(10);
    ex.create_pair(11, 21, 7, 1);
    // pair 0 fails its arithmetic, pair 1 matches
    ex.create_buy_order(0, BUYER, 100, 2 * ONE, 100, 1).unwrap();
    ex.create_sell_order(0, SELLER, 40, ONE, 40, 1).unwrap();
    ex.create_buy_order(1, BUYER, 10_000, ONE, 10_000, 1).unwrap();
    ex.create_sell_order(1, SELLER, 10_000, ONE, 10_000, 1).unwrap();
    let report = ex.match_orders(2);
    assert_eq!(report.aborted, vec![0]);
    assert_eq!(report.transfers.len(), 4);
    assert_eq!(report.transfers[0].asset, Asset::Token(11));
    assert_eq!(ex.pair_book(1).unwrap().trade_count(), 1);
    assert_eq!(ex.pair_book(0).unwrap().trade_count(), 0);
}

#[test]
fn settings_can_be_replaced() {
    let mut ex = exchange_with_pair(10);
    ex.set_minimum_volume(20);
    ex.set_account_operation(5);
    ex.set_account_vault(6);
    assert_eq!((ex.minimum_volume(), ex.account_operation(), ex.account_vault()), (20, 5, 6));
    assert_eq!((ex.pair_count(), ex.native_pair_count()), (1, 0));
}
