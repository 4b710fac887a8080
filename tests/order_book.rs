use exchange::PairBook;

#[test]
fn ids_are_assigned_in_creation_order() {
    let mut book: PairBook<u64, u32> = PairBook::new();
    assert_eq!(book.create_buy(0, 1, 100, 5, 7), Some(0));
    assert_eq!(book.create_buy(0, 2, 200, 6, 8), Some(1));
    assert_eq!(book.create_sell(0, 3, 300, 7, 9), Some(0));
    assert_eq!(book.buy_order_ids(), vec![0, 1]);
    assert_eq!(book.sell_order_ids(), vec![0]);
    assert_eq!(book.buy_order_count(), 2);
    assert_eq!(book.sell_order_count(), 1);
    let o = book.buy_order(1).unwrap();
    assert_eq!((o.order_id, o.buyer, o.volume, o.ratio, o.created), (1, 2, 200, 6, 8));
    assert!(book.buy_order(2).is_none());
    assert!(book.sell_order(1).is_none());
}

#[test]
fn remove_takes_an_order_out_and_ignores_an_absent_one() {
    let mut book: PairBook<u64, u32> = PairBook::new();
    book.create_buy(0, 1, 100, 5, 0);
    book.create_buy(0, 2, 100, 5, 0);
    book.create_buy(0, 3, 100, 5, 0);
    book.remove_buy(1);
    assert_eq!(book.buy_order_ids(), vec![0, 2]);
    assert!(book.buy_order(1).is_none());
    book.remove_buy(1);
    book.remove_buy(42);
    assert_eq!(book.buy_order_ids(), vec![0, 2]);
    // ids are never reused
    assert_eq!(book.create_buy(0, 4, 100, 5, 0), Some(3));
    book.create_sell(0, 5, 100, 5, 0);
    book.remove_sell(0);
    assert!(book.sell_order_ids().is_empty());
}

#[test]
fn trades_start_empty() {
    let book: PairBook<u64, u32> = PairBook::new();
    assert_eq!(book.trade_count(), 0);
    assert!(book.trade(0).is_none());
}

#[test]
fn update_remaining_only_lowers() {
    let mut book: PairBook<u64, u32> = PairBook::new();
    book.create_buy(0, 1, 100, 5, 7);
    book.create_sell(0, 2, 80, 4, 7);
    assert!(book.update_buy_remaining(0, 60));
    let o = book.buy_order(0).unwrap();
    assert_eq!((o.volume, o.ratio, o.created, o.buyer), (60, 5, 7, 1));
    assert!(!book.update_buy_remaining(0, 61));
    assert!(!book.update_buy_remaining(3, 1));
    assert_eq!(book.buy_order(0).unwrap().volume, 60);
    assert!(book.update_sell_remaining(0, 0));
    assert_eq!(book.sell_order(0).unwrap().volume, 0);
}
