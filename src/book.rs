//! The order book and trade ledger of one pair.
use vstd::prelude::*;
use crate::matching::{buy_with_volume, pass_spec, run_pass, scan, sell_with_volume, Fill, PassState};
use crate::settle::{settle_all, settlements_of, trades_of, Settlement};
use crate::types::{
    BuyOrderIndex, BuyOrderInfo, PairIndex, SellOrderIndex, SellOrderInfo, TradeIndex, TradeInfo,
    Transfer,
};

verus! {

/// The order ids of `s` under `key` strictly increase and stay below `bound`.
pub open spec fn ids_increasing_below<T>(s: Seq<T>, key: spec_fn(T) -> u128, bound: u128) -> bool {
    &&& forall|a: int, b: int| 0 <= a < b < s.len() ==> key(s[a]) < key(s[b])
    &&& forall|a: int| 0 <= a < s.len() ==> key(s[a]) < bound
}

/// The id of a buy order.
pub open spec fn buy_id<A, B>() -> spec_fn(BuyOrderInfo<A, B>) -> u128 {
    |o: BuyOrderInfo<A, B>| o.order_id
}

/// The id of a sell order.
pub open spec fn sell_id<A, B>() -> spec_fn(SellOrderInfo<A, B>) -> u128 {
    |o: SellOrderInfo<A, B>| o.order_id
}

/// A buy order that is not dust: its remaining volume exceeds `min`.
pub open spec fn buy_above<A, B>(min: u128) -> spec_fn(BuyOrderInfo<A, B>) -> bool {
    |o: BuyOrderInfo<A, B>| o.volume > min
}

/// A sell order that is not dust: its remaining volume exceeds `min`.
pub open spec fn sell_above<A, B>(min: u128) -> spec_fn(SellOrderInfo<A, B>) -> bool {
    |o: SellOrderInfo<A, B>| o.volume > min
}

/// A buy order whose id is not `id`.
pub open spec fn buy_other_than<A, B>(id: u128) -> spec_fn(BuyOrderInfo<A, B>) -> bool {
    |o: BuyOrderInfo<A, B>| o.order_id != id
}

/// A sell order whose id is not `id`.
pub open spec fn sell_other_than<A, B>(id: u128) -> spec_fn(SellOrderInfo<A, B>) -> bool {
    |o: SellOrderInfo<A, B>| o.order_id != id
}

/// A tick on one pair: a whole matching pass, then the dust pruned from both
/// sides; `None` where the pass fails its arithmetic.
pub open spec fn tick_spec<A, B>(
    buys: Seq<BuyOrderInfo<A, B>>,
    sells: Seq<SellOrderInfo<A, B>>,
    min: u128,
) -> Option<PassState<A, B>> {
    match pass_spec(buys, sells, min) {
        None => None,
        Some(st) => Some((st.0.filter(buy_above(min)), st.1.filter(sell_above(min)), st.2)),
    }
}

/// Filtering keeps increasing ids increasing, and keeps only elements of the
/// input.
pub proof fn lemma_filter_keeps_ids<T>(
    s: Seq<T>,
    key: spec_fn(T) -> u128,
    bound: u128,
    p: spec_fn(T) -> bool,
)
    requires
        ids_increasing_below(s, key, bound),
    ensures
        ids_increasing_below(s.filter(p), key, bound),
        forall|k: int| 0 <= k < s.filter(p).len() ==> s.contains(#[trigger] s.filter(p)[k]),
    decreases s.len(),
{
    reveal(Seq::filter);
    if s.len() > 0 {
        let d = s.drop_last();
        lemma_filter_keeps_ids(d, key, bound, p);
        let fd = d.filter(p);
        assert forall|k: int| 0 <= k < fd.len() implies key(#[trigger] fd[k]) < key(s.last()) by {
            assert(d.contains(fd[k]));
            let idx = choose|idx: int| 0 <= idx < d.len() && d[idx] == fd[k];
            assert(s[idx] == d[idx]);
        }
        assert forall|k: int| 0 <= k < fd.len() implies s.contains(#[trigger] fd[k]) by {
            assert(d.contains(fd[k]));
            let idx = choose|idx: int| 0 <= idx < d.len() && d[idx] == fd[k];
            assert(s[idx] == d[idx]);
        }
        if p(s.last()) {
            let f = fd.push(s.last());
            assert(s.filter(p) == f);
            assert(s.contains(s[s.len() - 1]));
            assert forall|k: int| 0 <= k < f.len() implies s.contains(#[trigger] f[k]) by {
                if k < fd.len() {
                    assert(f[k] == fd[k]);
                }
            }
        }
    }
}

/// Removes from `v` every buy order that is dust.
fn retain_buys<A: Copy, B: Copy>(
    v: &Vec<BuyOrderInfo<A, B>>,
    min: u128,
) -> (r: Vec<BuyOrderInfo<A, B>>)
    ensures
        r@ == v@.filter(buy_above(min)),
{
    let mut r: Vec<BuyOrderInfo<A, B>> = Vec::new();
    let mut k: usize = 0;
    while k < v.len()
        invariant
            k <= v.len(),
            r@ == v@.take(k as int).filter(buy_above(min)),
        decreases v.len() - k,
    {
        proof {
            reveal(Seq::filter);
            assert(v@.take(k + 1).drop_last() =~= v@.take(k as int));
        }
        let o = v[k];
        if o.volume > min {
            r.push(o);
        }
        k += 1;
    }
    proof {
        assert(v@.take(v.len() as int) =~= v@);
    }
    r
}

/// Removes from `v` every sell order that is dust.
fn retain_sells<A: Copy, B: Copy>(
    v: &Vec<SellOrderInfo<A, B>>,
    min: u128,
) -> (r: Vec<SellOrderInfo<A, B>>)
    ensures
        r@ == v@.filter(sell_above(min)),
{
    let mut r: Vec<SellOrderInfo<A, B>> = Vec::new();
    let mut k: usize = 0;
    while k < v.len()
        invariant
            k <= v.len(),
            r@ == v@.take(k as int).filter(sell_above(min)),
        decreases v.len() - k,
    {
        proof {
            reveal(Seq::filter);
            assert(v@.take(k + 1).drop_last() =~= v@.take(k as int));
        }
        let o = v[k];
        if o.volume > min {
            r.push(o);
        }
        k += 1;
    }
    proof {
        assert(v@.take(v.len() as int) =~= v@);
    }
    r
}

/// A copy of `v`.
fn copy_vec<T: Copy>(v: &Vec<T>) -> (r: Vec<T>)
    ensures
        r@ == v@,
{
    let mut r: Vec<T> = Vec::new();
    let mut k: usize = 0;
    while k < v.len()
        invariant
            k <= v.len(),
            r@ == v@.take(k as int),
        decreases v.len() - k,
    {
        r.push(v[k]);
        k += 1;
        proof {
            assert(r@ =~= v@.take(k as int));
        }
    }
    proof {
        assert(v@.take(v.len() as int) =~= v@);
    }
    r
}

/// The open orders of one pair, each side in creation order, with the id
/// counters of both sides and the pair's trade ledger.
pub struct PairBook<AccountId, BlockNumber> {
    buys: Vec<BuyOrderInfo<AccountId, BlockNumber>>,
    sells: Vec<SellOrderInfo<AccountId, BlockNumber>>,
    buy_count: u128,
    sell_count: u128,
    trades: Vec<TradeInfo<AccountId, BlockNumber>>,
}

impl<A: Copy, B: Copy> PairBook<A, B> {
    /// The open buy orders, oldest first.
    pub closed spec fn buy_orders(&self) -> Seq<BuyOrderInfo<A, B>> {
        self.buys@
    }

    /// The open sell orders, oldest first.
    pub closed spec fn sell_orders(&self) -> Seq<SellOrderInfo<A, B>> {
        self.sells@
    }

    /// The id that the next buy order gets.
    pub closed spec fn next_buy_id(&self) -> u128 {
        self.buy_count
    }

    /// The id that the next sell order gets.
    pub closed spec fn next_sell_id(&self) -> u128 {
        self.sell_count
    }

    /// The trades of the pair, in the order they were made.
    pub closed spec fn trade_records(&self) -> Seq<TradeInfo<A, B>> {
        self.trades@
    }

    /// On each side the ids strictly increase in creation order and stay
    /// below the side's counter.
    pub open spec fn wf(&self) -> bool {
        &&& ids_increasing_below(self.buy_orders(), buy_id(), self.next_buy_id())
        &&& ids_increasing_below(self.sell_orders(), sell_id(), self.next_sell_id())
    }

    /// No orders, no trades, and both counters at zero.
    pub open spec fn is_empty(&self) -> bool {
        &&& self.buy_orders() == Seq::<BuyOrderInfo<A, B>>::empty()
        &&& self.sell_orders() == Seq::<SellOrderInfo<A, B>>::empty()
        &&& self.next_buy_id() == 0
        &&& self.next_sell_id() == 0
        &&& self.trade_records() == Seq::<TradeInfo<A, B>>::empty()
    }

    /// An empty book.
    pub fn new() -> (r: Self)
        ensures
            r.wf(),
            r.is_empty(),
    {
        PairBook { buys: Vec::new(), sells: Vec::new(), buy_count: 0, sell_count: 0, trades: Vec::new() }
    }

    /// Opens a buy order with the next id of the pair; `None`, with nothing
    /// changed, where the ids are exhausted.
    pub fn create_buy(
        &mut self,
        pair: PairIndex,
        buyer: A,
        volume: u128,
        ratio: u128,
        now: B,
    ) -> (r: Option<BuyOrderIndex>)
        requires
            old(self).wf(),
        ensures
            final(self).wf(),
            r is None <==> old(self).next_buy_id() == u128::MAX,
            r is None ==> *final(self) == *old(self),
            r is Some ==> r->Some_0 == old(self).next_buy_id() && opened_buy(
                *old(self),
                *final(self),
                BuyOrderInfo { order_id: r->Some_0, pair, buyer, volume, ratio, created: now },
            ),
    {
        if self.buy_count == u128::MAX {
            return None;
        }
        let id = self.buy_count;
        self.buys.push(BuyOrderInfo { order_id: id, pair, buyer, volume, ratio, created: now });
        self.buy_count = id + 1;
        Some(id)
    }

    /// Opens a sell order with the next id of the pair; `None`, with nothing
    /// changed, where the ids are exhausted.
    pub fn create_sell(
        &mut self,
        pair: PairIndex,
        seller: A,
        volume: u128,
        ratio: u128,
        now: B,
    ) -> (r: Option<SellOrderIndex>)
        requires
            old(self).wf(),
        ensures
            final(self).wf(),
            r is None <==> old(self).next_sell_id() == u128::MAX,
            r is None ==> *final(self) == *old(self),
            r is Some ==> r->Some_0 == old(self).next_sell_id() && opened_sell(
                *old(self),
                *final(self),
                SellOrderInfo { order_id: r->Some_0, pair, seller, volume, ratio, created: now },
            ),
    {
        if self.sell_count == u128::MAX {
            return None;
        }
        let id = self.sell_count;
        self.sells.push(SellOrderInfo { order_id: id, pair, seller, volume, ratio, created: now });
        self.sell_count = id + 1;
        Some(id)
    }

    /// The open buy order with id `id`, if there is one.
    pub fn buy_order(&self, id: BuyOrderIndex) -> (r: Option<BuyOrderInfo<A, B>>)
        ensures
            r is Some <==> exists|k: int|
                0 <= k < self.buy_orders().len() && #[trigger] self.buy_orders()[k].order_id == id,
            r is Some ==> r->Some_0.order_id == id && self.buy_orders().contains(r->Some_0),
    {
        let mut k: usize = 0;
        while k < self.buys.len()
            invariant
                k <= self.buys.len(),
                forall|m: int| 0 <= m < k ==> #[trigger] self.buys@[m].order_id != id,
            decreases self.buys.len() - k,
        {
            if self.buys[k].order_id == id {
                let o = self.buys[k];
                proof {
                    assert(self.buys@[k as int] == o);
                    assert(self.buy_orders()[k as int].order_id == id);
                }
                return Some(o);
            }
            k += 1;
        }
        None
    }

    /// The open sell order with id `id`, if there is one.
    pub fn sell_order(&self, id: SellOrderIndex) -> (r: Option<SellOrderInfo<A, B>>)
        ensures
            r is Some <==> exists|k: int|
                0 <= k < self.sell_orders().len() && #[trigger] self.sell_orders()[k].order_id == id,
            r is Some ==> r->Some_0.order_id == id && self.sell_orders().contains(r->Some_0),
    {
        let mut k: usize = 0;
        while k < self.sells.len()
            invariant
                k <= self.sells.len(),
                forall|m: int| 0 <= m < k ==> #[trigger] self.sells@[m].order_id != id,
            decreases self.sells.len() - k,
        {
            if self.sells[k].order_id == id {
                let o = self.sells[k];
                proof {
                    assert(self.sells@[k as int] == o);
                    assert(self.sell_orders()[k as int].order_id == id);
                }
                return Some(o);
            }
            k += 1;
        }
        None
    }

    /// The ids of the open buy orders, oldest first.
    pub fn buy_order_ids(&self) -> (r: Vec<BuyOrderIndex>)
        ensures
            r@ == self.buy_orders().map_values(buy_id()),
    {
        let mut r: Vec<BuyOrderIndex> = Vec::new();
        let mut k: usize = 0;
        while k < self.buys.len()
            invariant
                k <= self.buys.len(),
                r@ == self.buys@.take(k as int).map_values(buy_id()),
            decreases self.buys.len() - k,
        {
            r.push(self.buys[k].order_id);
            k += 1;
            proof {
                assert(r@ =~= self.buys@.take(k as int).map_values(buy_id()));
            }
        }
        proof {
            assert(self.buys@.take(self.buys.len() as int) =~= self.buys@);
        }
        r
    }

    /// The ids of the open sell orders, oldest first.
    pub fn sell_order_ids(&self) -> (r: Vec<SellOrderIndex>)
        ensures
            r@ == self.sell_orders().map_values(sell_id()),
    {
        let mut r: Vec<SellOrderIndex> = Vec::new();
        let mut k: usize = 0;
        while k < self.sells.len()
            invariant
                k <= self.sells.len(),
                r@ == self.sells@.take(k as int).map_values(sell_id()),
            decreases self.sells.len() - k,
        {
            r.push(self.sells[k].order_id);
            k += 1;
            proof {
                assert(r@ =~= self.sells@.take(k as int).map_values(sell_id()));
            }
        }
        proof {
            assert(self.sells@.take(self.sells.len() as int) =~= self.sells@);
        }
        r
    }

    /// Removes the buy order with id `id`; nothing happens where there is none.
    pub fn remove_buy(&mut self, id: BuyOrderIndex)
        requires
            old(self).wf(),
        ensures
            final(self).wf(),
            final(self).buy_orders() == old(self).buy_orders().filter(buy_other_than(id)),
            final(self).sell_orders() == old(self).sell_orders(),
            final(self).next_buy_id() == old(self).next_buy_id(),
            final(self).next_sell_id() == old(self).next_sell_id(),
            final(self).trade_records() == old(self).trade_records(),
    {
        let mut r: Vec<BuyOrderInfo<A, B>> = Vec::new();
        let mut k: usize = 0;
        while k < self.buys.len()
            invariant
                k <= self.buys.len(),
                r@ == self.buys@.take(k as int).filter(buy_other_than(id)),
            decreases self.buys.len() - k,
        {
            proof {
                reveal(Seq::filter);
                assert(self.buys@.take(k + 1).drop_last() =~= self.buys@.take(k as int));
            }
            let o = self.buys[k];
            if o.order_id != id {
                r.push(o);
            }
            k += 1;
        }
        proof {
            assert(self.buys@.take(self.buys.len() as int) =~= self.buys@);
            lemma_filter_keeps_ids(self.buys@, buy_id(), self.buy_count, buy_other_than(id));
        }
        self.buys = r;
    }

    /// Removes the sell order with id `id`; nothing happens where there is none.
    pub fn remove_sell(&mut self, id: SellOrderIndex)
        requires
            old(self).wf(),
        ensures
            final(self).wf(),
            final(self).sell_orders() == old(self).sell_orders().filter(sell_other_than(id)),
            final(self).buy_orders() == old(self).buy_orders(),
            final(self).next_buy_id() == old(self).next_buy_id(),
            final(self).next_sell_id() == old(self).next_sell_id(),
            final(self).trade_records() == old(self).trade_records(),
    {
        let mut r: Vec<SellOrderInfo<A, B>> = Vec::new();
        let mut k: usize = 0;
        while k < self.sells.len()
            invariant
                k <= self.sells.len(),
                r@ == self.sells@.take(k as int).filter(sell_other_than(id)),
            decreases self.sells.len() - k,
        {
            proof {
                reveal(Seq::filter);
                assert(self.sells@.take(k + 1).drop_last() =~= self.sells@.take(k as int));
            }
            let o = self.sells[k];
            if o.order_id != id {
                r.push(o);
            }
            k += 1;
        }
        proof {
            assert(self.sells@.take(self.sells.len() as int) =~= self.sells@);
            lemma_filter_keeps_ids(self.sells@, sell_id(), self.sell_count, sell_other_than(id));
        }
        self.sells = r;
    }

    /// The id that the next buy order will get.
    pub fn buy_order_count(&self) -> (r: BuyOrderIndex)
        ensures
            r == self.next_buy_id(),
    {
        self.buy_count
    }

    /// The id that the next sell order will get.
    pub fn sell_order_count(&self) -> (r: SellOrderIndex)
        ensures
            r == self.next_sell_id(),
    {
        self.sell_count
    }

    /// Lowers the remaining volume of the buy order with id `id` to
    /// `volume`, keeping every other field. Returns `false`, changing
    /// nothing, where there is no such order or `volume` would raise it.
    pub fn update_buy_remaining(&mut self, id: BuyOrderIndex, volume: u128) -> (r: bool)
        requires
            old(self).wf(),
        ensures
            final(self).wf(),
            r <==> exists|k: int|
                0 <= k < old(self).buy_orders().len() && #[trigger] old(self).buy_orders()[k].order_id == id
                    && volume <= old(self).buy_orders()[k].volume,
            !r ==> *final(self) == *old(self),
            r ==> exists|k: int|
                0 <= k < old(self).buy_orders().len() && #[trigger] old(self).buy_orders()[k].order_id == id
                    && final(self).buy_orders() == old(self).buy_orders().update(
                    k,
                    buy_with_volume(old(self).buy_orders()[k], volume),
                ),
            final(self).sell_orders() == old(self).sell_orders(),
            final(self).next_buy_id() == old(self).next_buy_id(),
            final(self).next_sell_id() == old(self).next_sell_id(),
            final(self).trade_records() == old(self).trade_records(),
    {
        let mut k: usize = 0;
        while k < self.buys.len()
            invariant
                k <= self.buys.len(),
                *self == *old(self),
                old(self).wf(),
                forall|m: int| 0 <= m < k ==> #[trigger] self.buys@[m].order_id != id,
            decreases self.buys.len() - k,
        {
            let o = self.buys[k];
            if o.order_id == id {
                proof {
                    assert(self.buy_orders()[k as int].order_id == id);
                    assert forall|m: int|
                        0 <= m < self.buys.len() && #[trigger] self.buys@[m].order_id == id implies m
                        == k by {
                        if m < k {
                        } else if m > k {
                            assert(self.buys@[k as int].order_id < self.buys@[m].order_id);
                        }
                    }
                }
                if volume > o.volume {
                    return false;
                }
                let lowered = BuyOrderInfo {
                    order_id: o.order_id,
                    pair: o.pair,
                    buyer: o.buyer,
                    volume,
                    ratio: o.ratio,
                    created: o.created,
                };
                self.buys.set(k, lowered);
                return true;
            }
            k += 1;
        }
        false
    }

    /// Lowers the remaining volume of the sell order with id `id` to
    /// `volume`, keeping every other field. Returns `false`, changing
    /// nothing, where there is no such order or `volume` would raise it.
    pub fn update_sell_remaining(&mut self, id: SellOrderIndex, volume: u128) -> (r: bool)
        requires
            old(self).wf(),
        ensures
            final(self).wf(),
            r <==> exists|k: int|
                0 <= k < old(self).sell_orders().len() && #[trigger] old(self).sell_orders()[k].order_id == id
                    && volume <= old(self).sell_orders()[k].volume,
            !r ==> *final(self) == *old(self),
            r ==> exists|k: int|
                0 <= k < old(self).sell_orders().len() && #[trigger] old(self).sell_orders()[k].order_id == id
                    && final(self).sell_orders() == old(self).sell_orders().update(
                    k,
                    sell_with_volume(old(self).sell_orders()[k], volume),
                ),
            final(self).buy_orders() == old(self).buy_orders(),
            final(self).next_buy_id() == old(self).next_buy_id(),
            final(self).next_sell_id() == old(self).next_sell_id(),
            final(self).trade_records() == old(self).trade_records(),
    {
        let mut k: usize = 0;
        while k < self.sells.len()
            invariant
                k <= self.sells.len(),
                *self == *old(self),
                old(self).wf(),
                forall|m: int| 0 <= m < k ==> #[trigger] self.sells@[m].order_id != id,
            decreases self.sells.len() - k,
        {
            let o = self.sells[k];
            if o.order_id == id {
                proof {
                    assert(self.sell_orders()[k as int].order_id == id);
                    assert forall|m: int|
                        0 <= m < self.sells.len() && #[trigger] self.sells@[m].order_id == id implies m
                        == k by {
                        if m < k {
                        } else if m > k {
                            assert(self.sells@[k as int].order_id < self.sells@[m].order_id);
                        }
                    }
                }
                if volume > o.volume {
                    return false;
                }
                let lowered = SellOrderInfo {
                    order_id: o.order_id,
                    pair: o.pair,
                    seller: o.seller,
                    volume,
                    ratio: o.ratio,
                    created: o.created,
                };
                self.sells.set(k, lowered);
                return true;
            }
            k += 1;
        }
        false
    }

    /// The number of trades recorded on the pair.
    pub fn trade_count(&self) -> (r: usize)
        ensures
            r == self.trade_records().len(),
    {
        self.trades.len()
    }

    /// The trade with sequence number `index`, if there is one.
    pub fn trade(&self, index: TradeIndex) -> (r: Option<TradeInfo<A, B>>)
        ensures
            r is Some <==> index < self.trade_records().len(),
            r is Some ==> r->Some_0 == self.trade_records()[index as int],
    {
        if index < self.trades.len() as u128 {
            Some(self.trades[index as usize])
        } else {
            None
        }
    }

    /// Runs one tick on this pair: a matching pass, settlement of its fills
    /// in order, then the dust pruned. Where the pass fails its arithmetic the
    /// book is left as it was and `None` comes back.
    pub fn tick(&mut self, pair: PairIndex, route: &Settlement<A>, min: u128, now: B) -> (r: Option<
        Vec<Transfer<A>>,
    >)
        requires
            old(self).wf(),
        ensures
            final(self).wf(),
            r is None <==> tick_spec(old(self).buy_orders(), old(self).sell_orders(), min) is None,
            ticked(*old(self), *final(self), pair, min, now),
            r is Some ==> r->Some_0@ == pair_transfers(*old(self), *route, min),
    {
        let mut buys = copy_vec(&self.buys);
        let mut sells = copy_vec(&self.sells);
        match run_pass(&mut buys, &mut sells, min) {
            None => None,
            Some(fills) => {
                proof {
                    lemma_pass_keeps_orders(self.buys@, self.sells@, min);
                    lemma_filter_keeps_ids(buys@, buy_id(), self.buy_count, buy_above(min));
                    lemma_filter_keeps_ids(sells@, sell_id(), self.sell_count, sell_above(min));
                }
                self.buys = retain_buys(&buys, min);
                self.sells = retain_sells(&sells, min);
                let transfers = settle_all(&fills, pair, route, now, &mut self.trades);
                Some(transfers)
            },
        }
    }
}

/// `after` is `before` with buy order `o` opened.
pub open spec fn opened_buy<A: Copy, B: Copy>(
    before: PairBook<A, B>,
    after: PairBook<A, B>,
    o: BuyOrderInfo<A, B>,
) -> bool {
    &&& after.buy_orders() == before.buy_orders().push(o)
    &&& after.next_buy_id() == before.next_buy_id() + 1
    &&& after.sell_orders() == before.sell_orders()
    &&& after.next_sell_id() == before.next_sell_id()
    &&& after.trade_records() == before.trade_records()
}

/// `after` is `before` with sell order `o` opened.
pub open spec fn opened_sell<A: Copy, B: Copy>(
    before: PairBook<A, B>,
    after: PairBook<A, B>,
    o: SellOrderInfo<A, B>,
) -> bool {
    &&& after.sell_orders() == before.sell_orders().push(o)
    &&& after.next_sell_id() == before.next_sell_id() + 1
    &&& after.buy_orders() == before.buy_orders()
    &&& after.next_buy_id() == before.next_buy_id()
    &&& after.trade_records() == before.trade_records()
}

/// `after` is what a tick on `pair` at `now` makes of `before`: unchanged
/// where the pass fails its arithmetic, else the orders that the tick leaves
/// and the trades of its fills appended.
pub open spec fn ticked<A: Copy, B: Copy>(
    before: PairBook<A, B>,
    after: PairBook<A, B>,
    pair: PairIndex,
    min: u128,
    now: B,
) -> bool {
    match tick_spec(before.buy_orders(), before.sell_orders(), min) {
        None => after == before,
        Some(st) => {
            &&& after.buy_orders() == st.0
            &&& after.sell_orders() == st.1
            &&& after.trade_records() == before.trade_records() + trades_of(st.2, pair, now)
            &&& after.next_buy_id() == before.next_buy_id()
            &&& after.next_sell_id() == before.next_sell_id()
        },
    }
}

/// The transfers that a tick on `book` hands to the ledger: none where it
/// fails, else those that settle its fills.
pub open spec fn pair_transfers<A: Copy, B: Copy>(
    book: PairBook<A, B>,
    route: Settlement<A>,
    min: u128,
) -> Seq<Transfer<A>> {
    match tick_spec(book.buy_orders(), book.sell_orders(), min) {
        None => Seq::empty(),
        Some(st) => settlements_of(st.2, route),
    }
}

/// `after` is `before` with each order kept in place and only its remaining
/// volume possibly lowered.
pub open spec fn buys_lowered<A, B>(
    before: Seq<BuyOrderInfo<A, B>>,
    after: Seq<BuyOrderInfo<A, B>>,
) -> bool {
    &&& after.len() == before.len()
    &&& forall|k: int|
        0 <= k < after.len() ==> {
            &&& (#[trigger] after[k]).order_id == before[k].order_id
            &&& after[k].pair == before[k].pair
            &&& after[k].buyer == before[k].buyer
            &&& after[k].ratio == before[k].ratio
            &&& after[k].created == before[k].created
            &&& after[k].volume <= before[k].volume
        }
}

/// `after` is `before` with each order kept in place and only its remaining
/// volume possibly lowered.
pub open spec fn sells_lowered<A, B>(
    before: Seq<SellOrderInfo<A, B>>,
    after: Seq<SellOrderInfo<A, B>>,
) -> bool {
    &&& after.len() == before.len()
    &&& forall|k: int|
        0 <= k < after.len() ==> {
            &&& (#[trigger] after[k]).order_id == before[k].order_id
            &&& after[k].pair == before[k].pair
            &&& after[k].seller == before[k].seller
            &&& after[k].ratio == before[k].ratio
            &&& after[k].created == before[k].created
            &&& after[k].volume <= before[k].volume
        }
}

/// Every point of a scan keeps the orders in place and only lowers volumes.
pub(crate) proof fn lemma_scan_keeps_orders<A, B>(init: PassState<A, B>, i: int, j: int, min: u128)
    requires
        0 <= i,
        0 <= j <= init.1.len(),
        i < init.0.len() || (i == init.0.len() && j == 0),
        scan(init, i, j, init.1.len() as int, min) is Some,
    ensures
        buys_lowered(init.0, scan(init, i, j, init.1.len() as int, min)->Some_0.0),
        sells_lowered(init.1, scan(init, i, j, init.1.len() as int, min)->Some_0.1),
    decreases i, j,
{
    let width = init.1.len() as int;
    if i <= 0 && j <= 0 {
    } else if j <= 0 {
        lemma_scan_keeps_orders(init, i - 1, width, min);
    } else {
        lemma_scan_keeps_orders(init, i, j - 1, min);
    }
}

/// A whole pass keeps the orders in place and only lowers volumes.
pub proof fn lemma_pass_keeps_orders<A, B>(
    buys: Seq<BuyOrderInfo<A, B>>,
    sells: Seq<SellOrderInfo<A, B>>,
    min: u128,
)
    requires
        pass_spec(buys, sells, min) is Some,
    ensures
        buys_lowered(buys, pass_spec(buys, sells, min)->Some_0.0),
        sells_lowered(sells, pass_spec(buys, sells, min)->Some_0.1),
{
    lemma_scan_keeps_orders(
        (buys, sells, Seq::<Fill<A>>::empty()),
        buys.len() as int,
        0,
        min,
    );
}

} // verus!
