//! What a tick guarantees of a pair's book: volumes never rise, no dust is
//! left, matching goes oldest first, and a book with nothing to match is left
//! as it was.
use vstd::prelude::*;
use crate::book::{buy_above, pair_transfers, sell_above, tick_spec, ticked, PairBook};
use crate::matching::{eligible, pass_spec, scan, Fill, PassState};
use crate::settle::Settlement;
use crate::types::{BuyOrderInfo, PairIndex, SellOrderInfo};

verus! {

/// `b` is buy order `a` with the same id, pair, trader, ratio and creation
/// time, and no more volume.
pub open spec fn buy_descends<A, B>(a: BuyOrderInfo<A, B>, b: BuyOrderInfo<A, B>) -> bool {
    &&& a.order_id == b.order_id
    &&& a.pair == b.pair
    &&& a.buyer == b.buyer
    &&& a.ratio == b.ratio
    &&& a.created == b.created
    &&& b.volume <= a.volume
}

/// `b` is sell order `a` with the same id, pair, trader, ratio and creation
/// time, and no more volume.
pub open spec fn sell_descends<A, B>(a: SellOrderInfo<A, B>, b: SellOrderInfo<A, B>) -> bool {
    &&& a.order_id == b.order_id
    &&& a.pair == b.pair
    &&& a.seller == b.seller
    &&& a.ratio == b.ratio
    &&& a.created == b.created
    &&& b.volume <= a.volume
}

/// `o` descends from one of the buy orders of `before`.
pub open spec fn buy_has_ancestor<A, B>(before: Seq<BuyOrderInfo<A, B>>, o: BuyOrderInfo<A, B>) -> bool {
    exists|k: int| 0 <= k < before.len() && #[trigger] buy_descends(before[k], o)
}

/// Every buy order of `after` descends from one of `before`.
pub open spec fn buy_volumes_not_raised<A, B>(
    before: Seq<BuyOrderInfo<A, B>>,
    after: Seq<BuyOrderInfo<A, B>>,
) -> bool {
    forall|n: int| 0 <= n < after.len() ==> #[trigger] buy_has_ancestor(before, after[n])
}

/// `o` descends from one of the sell orders of `before`.
pub open spec fn sell_has_ancestor<A, B>(before: Seq<SellOrderInfo<A, B>>, o: SellOrderInfo<A, B>) -> bool {
    exists|k: int| 0 <= k < before.len() && #[trigger] sell_descends(before[k], o)
}

/// Every sell order of `after` descends from one of `before`.
pub open spec fn sell_volumes_not_raised<A, B>(
    before: Seq<SellOrderInfo<A, B>>,
    after: Seq<SellOrderInfo<A, B>>,
) -> bool {
    forall|n: int| 0 <= n < after.len() ==> #[trigger] sell_has_ancestor(before, after[n])
}

/// A tick never raises the remaining volume of an order and never makes up
/// an order: each order it leaves was there before, with at least as much
/// volume.
pub proof fn lemma_tick_never_raises_volume<A: Copy, B: Copy>(
    before: PairBook<A, B>,
    after: PairBook<A, B>,
    pair: PairIndex,
    min: u128,
    now: B,
)
    requires
        ticked(before, after, pair, min, now),
    ensures
        buy_volumes_not_raised(before.buy_orders(), after.buy_orders()),
        sell_volumes_not_raised(before.sell_orders(), after.sell_orders()),
{
    let bs = before.buy_orders();
    let ss = before.sell_orders();
    let ab = after.buy_orders();
    let as_ = after.sell_orders();
    match tick_spec(bs, ss, min) {
        None => {
            assert forall|n: int| 0 <= n < ab.len() implies #[trigger] buy_has_ancestor(bs, ab[n]) by {
                assert(buy_descends(bs[n], ab[n]));
            }
            assert forall|n: int| 0 <= n < as_.len() implies #[trigger] sell_has_ancestor(ss, as_[n]) by {
                assert(sell_descends(ss[n], as_[n]));
            }
        },
        Some(st) => {
            let passed = pass_spec(bs, ss, min)->Some_0;
            crate::book::lemma_pass_keeps_orders(bs, ss, min);
            assert forall|n: int| 0 <= n < ab.len() implies #[trigger] buy_has_ancestor(bs, ab[n]) by {
                let o = ab[n];
                assert(passed.0.filter(buy_above(min)).contains(o));
                passed.0.lemma_filter_contains_rev(buy_above(min), o);
                let k = choose|k: int| 0 <= k < passed.0.len() && passed.0[k] == o;
                assert(buy_descends(bs[k], ab[n]));
            }
            assert forall|n: int| 0 <= n < as_.len() implies #[trigger] sell_has_ancestor(ss, as_[n]) by {
                let o = as_[n];
                assert(passed.1.filter(sell_above(min)).contains(o));
                passed.1.lemma_filter_contains_rev(sell_above(min), o);
                let k = choose|k: int| 0 <= k < passed.1.len() && passed.1[k] == o;
                assert(sell_descends(ss[k], as_[n]));
            }
        },
    }
}

/// After a tick that completes, no order at or below the minimum volume is
/// left on either side.
pub proof fn lemma_tick_leaves_no_dust<A: Copy, B: Copy>(
    before: PairBook<A, B>,
    after: PairBook<A, B>,
    pair: PairIndex,
    min: u128,
    now: B,
)
    requires
        ticked(before, after, pair, min, now),
        tick_spec(before.buy_orders(), before.sell_orders(), min) is Some,
    ensures
        forall|n: int|
            0 <= n < after.buy_orders().len() ==> (#[trigger] after.buy_orders()[n]).volume > min,
        forall|n: int|
            0 <= n < after.sell_orders().len() ==> (#[trigger] after.sell_orders()[n]).volume > min,
{
    let passed = pass_spec(before.buy_orders(), before.sell_orders(), min)->Some_0;
    assert forall|n: int| 0 <= n < after.buy_orders().len() implies (#[trigger] after.buy_orders()[n]).volume
        > min by {
        passed.0.lemma_filter_pred(buy_above(min), n);
    }
    assert forall|n: int| 0 <= n < after.sell_orders().len() implies (#[trigger] after.sell_orders()[n]).volume
        > min by {
        passed.1.lemma_filter_pred(sell_above(min), n);
    }
}

/// No buy order of `init` before position `(i, j)` of the scan, in row-major
/// order, is eligible against a sell order.
pub open spec fn idle_before<A, B>(init: PassState<A, B>, i: int, j: int, min: u128) -> bool {
    forall|a: int, b: int|
        0 <= a < init.0.len() && 0 <= b < init.1.len() && (a < i || (a == i && b < j))
            ==> !eligible(#[trigger] init.0[a], #[trigger] init.1[b], min)
}

/// While no eligible meeting has come up, a scan leaves its state untouched.
proof fn lemma_scan_idle<A, B>(init: PassState<A, B>, i: int, j: int, min: u128)
    requires
        0 <= i,
        0 <= j <= init.1.len(),
        i < init.0.len() || (i == init.0.len() && j == 0),
        idle_before(init, i, j, min),
    ensures
        scan(init, i, j, init.1.len() as int, min) == Some(init),
    decreases i, j,
{
    let width = init.1.len() as int;
    if i <= 0 && j <= 0 {
    } else if j <= 0 {
        lemma_scan_idle(init, i - 1, width, min);
    } else {
        lemma_scan_idle(init, i, j - 1, min);
        assert(!eligible(init.0[i], init.1[j - 1], min));
    }
}

/// Later points of a scan that has not failed extend the fills of earlier
/// points.
proof fn lemma_scan_fills_extend<A, B>(
    init: PassState<A, B>,
    i: int,
    j: int,
    i2: int,
    j2: int,
    min: u128,
)
    requires
        0 <= i,
        0 <= j <= init.1.len(),
        0 <= j2 <= init.1.len(),
        i < i2 || (i == i2 && j <= j2),
        i2 < init.0.len() || (i2 == init.0.len() && j2 == 0),
        scan(init, i2, j2, init.1.len() as int, min) is Some,
    ensures
        scan(init, i, j, init.1.len() as int, min) is Some,
        scan(init, i, j, init.1.len() as int, min)->Some_0.2.len() <= scan(
            init,
            i2,
            j2,
            init.1.len() as int,
            min,
        )->Some_0.2.len(),
        forall|k: int|
            0 <= k < scan(init, i, j, init.1.len() as int, min)->Some_0.2.len() ==> scan(
                init,
                i2,
                j2,
                init.1.len() as int,
                min,
            )->Some_0.2[k] == #[trigger] scan(init, i, j, init.1.len() as int, min)->Some_0.2[k],
    decreases i2, j2,
{
    let width = init.1.len() as int;
    if i == i2 && j == j2 {
    } else if j2 == 0 {
        lemma_scan_fills_extend(init, i, j, i2 - 1, width, min);
    } else {
        lemma_scan_fills_extend(init, i, j, i2, j2 - 1, min);
    }
}

/// Matching goes oldest first: where buy order `i0` and sell order `j0` are
/// the first eligible meeting of the book in creation order (no older buy
/// order meets any sell order eligibly, and no older sell order meets `i0`
/// eligibly), the first match of a completed pass is between exactly these
/// two orders.
pub proof fn lemma_first_match_is_oldest_eligible<A, B>(
    buys: Seq<BuyOrderInfo<A, B>>,
    sells: Seq<SellOrderInfo<A, B>>,
    min: u128,
    i0: int,
    j0: int,
)
    requires
        0 <= i0 < buys.len(),
        0 <= j0 < sells.len(),
        eligible(buys[i0], sells[j0], min),
        forall|a: int, b: int|
            0 <= a < buys.len() && 0 <= b < sells.len() && (a < i0 || (a == i0 && b < j0))
                ==> !eligible(#[trigger] buys[a], #[trigger] sells[b], min),
        pass_spec(buys, sells, min) is Some,
    ensures
        pass_spec(buys, sells, min)->Some_0.2.len() >= 1,
        pass_spec(buys, sells, min)->Some_0.2[0].buy_id == buys[i0].order_id,
        pass_spec(buys, sells, min)->Some_0.2[0].sell_id == sells[j0].order_id,
        pass_spec(buys, sells, min)->Some_0.2[0].price == buys[i0].ratio,
{
    let init: PassState<A, B> = (buys, sells, Seq::<Fill<A>>::empty());
    let width = sells.len() as int;
    lemma_scan_idle(init, i0, j0, min);
    lemma_scan_fills_extend(init, i0, j0 + 1, buys.len() as int, 0, min);
    assert(scan(init, i0, j0 + 1, width, min) == crate::matching::match_step(init, i0, j0, min));
    let m = crate::fixed::matched_volumes_spec(
        buys[i0].volume,
        buys[i0].ratio,
        sells[j0].volume,
        sells[j0].ratio,
    )->Some_0;
    let first = crate::matching::fill_of(buys[i0], sells[j0], m.base_volume, m.target_volume);
    assert(scan(init, i0, j0 + 1, width, min)->Some_0.2 == Seq::<Fill<A>>::empty().push(first));
    assert(scan(init, i0, j0 + 1, width, min)->Some_0.2[0] == first);
}

/// Fill `f` comes before fill `g` in creation order: an older buy order, or
/// the same buy order and an older sell order.
pub open spec fn fill_precedes<A>(f: Fill<A>, g: Fill<A>) -> bool {
    f.buy_id < g.buy_id || (f.buy_id == g.buy_id && f.sell_id < g.sell_id)
}

/// The fills come in strictly increasing creation order.
pub open spec fn fills_in_order<A>(fills: Seq<Fill<A>>) -> bool {
    forall|a: int, b: int|
        0 <= a < b < fills.len() ==> fill_precedes(#[trigger] fills[a], #[trigger] fills[b])
}

/// Both sides of `init` list their orders by strictly increasing id.
pub open spec fn sides_increasing<A, B>(init: PassState<A, B>) -> bool {
    &&& forall|a: int, b: int|
        0 <= a < b < init.0.len() ==> (#[trigger] init.0[a]).order_id < (#[trigger] init.0[b]).order_id
    &&& forall|a: int, b: int|
        0 <= a < b < init.1.len() ==> (#[trigger] init.1[a]).order_id < (#[trigger] init.1[b]).order_id
}

/// Fill `f` is between buy order `a` and sell order `b` of `init`.
pub open spec fn fill_at<A, B>(init: PassState<A, B>, f: Fill<A>, a: int, b: int) -> bool {
    &&& 0 <= a < init.0.len()
    &&& 0 <= b < init.1.len()
    &&& f.buy_id == init.0[a].order_id
    &&& f.sell_id == init.1[b].order_id
}

/// Fill `f` was made at a meeting that the scan reaches before `(i, j)`.
pub open spec fn fill_before<A, B>(init: PassState<A, B>, f: Fill<A>, i: int, j: int) -> bool {
    exists|a: int, b: int| (a < i || (a == i && b < j)) && #[trigger] fill_at(init, f, a, b)
}

/// Up to any point, a scan has made its fills in creation order, each at a
/// meeting before that point.
proof fn lemma_scan_fills_ordered<A, B>(init: PassState<A, B>, i: int, j: int, min: u128)
    requires
        0 <= i,
        0 <= j <= init.1.len(),
        i < init.0.len() || (i == init.0.len() && j == 0),
        sides_increasing(init),
        init.2.len() == 0,
        scan(init, i, j, init.1.len() as int, min) is Some,
    ensures
        fills_in_order(scan(init, i, j, init.1.len() as int, min)->Some_0.2),
        forall|k: int|
            0 <= k < scan(init, i, j, init.1.len() as int, min)->Some_0.2.len() ==> fill_before(
                init,
                #[trigger] scan(init, i, j, init.1.len() as int, min)->Some_0.2[k],
                i,
                j,
            ),
    decreases i, j,
{
    let width = init.1.len() as int;
    let st = scan(init, i, j, width, min)->Some_0;
    if i <= 0 && j <= 0 {
    } else if j <= 0 {
        lemma_scan_fills_ordered(init, i - 1, width, min);
        assert forall|k: int| 0 <= k < st.2.len() implies fill_before(init, #[trigger] st.2[k], i, j) by {
            let (a, b) = choose|a: int, b: int|
                (a < i - 1 || (a == i - 1 && b < width)) && #[trigger] fill_at(init, st.2[k], a, b);
            assert(fill_at(init, st.2[k], a, b));
        }
    } else {
        lemma_scan_fills_ordered(init, i, j - 1, min);
        let prev = scan(init, i, j - 1, width, min)->Some_0;
        assert forall|k: int| 0 <= k < prev.2.len() implies fill_before(init, #[trigger] prev.2[k], i, j) by {
            let (a, b) = choose|a: int, b: int|
                (a < i || (a == i && b < j - 1)) && #[trigger] fill_at(init, prev.2[k], a, b);
            assert(fill_at(init, prev.2[k], a, b));
        }
        if eligible(prev.0[i], prev.1[j - 1], min) {
            crate::book::lemma_scan_keeps_orders(init, i, j - 1, min);
            let g = st.2.last();
            assert(st.2 == prev.2.push(g));
            assert(g.buy_id == init.0[i].order_id);
            assert(g.sell_id == init.1[j - 1].order_id);
            assert(fill_at(init, g, i, j - 1));
            assert forall|k: int| 0 <= k < prev.2.len() implies fill_precedes(#[trigger] prev.2[k], g) by {
                let (a, b) = choose|a: int, b: int|
                    (a < i || (a == i && b < j - 1)) && #[trigger] fill_at(init, prev.2[k], a, b);
                if a < i {
                    assert(init.0[a].order_id < init.0[i].order_id);
                } else {
                    assert(init.1[b].order_id < init.1[j - 1].order_id);
                }
            }
            assert forall|x: int, y: int| 0 <= x < y < st.2.len() implies fill_precedes(
                #[trigger] st.2[x],
                #[trigger] st.2[y],
            ) by {
                assert(st.2[x] == prev.2[x]);
                if y < prev.2.len() {
                    assert(st.2[y] == prev.2[y]);
                }
            }
            assert forall|k: int| 0 <= k < st.2.len() implies fill_before(init, #[trigger] st.2[k], i, j) by {
                if k < prev.2.len() {
                    assert(st.2[k] == prev.2[k]);
                }
            }
        }
    }
}

/// Matching goes in creation order throughout a pass: where both sides list
/// their orders by increasing id, as a book does, every match of a completed
/// pass is at an older buy order than the next match, or at the same buy
/// order and an older sell order.
pub proof fn lemma_matches_in_creation_order<A, B>(
    buys: Seq<BuyOrderInfo<A, B>>,
    sells: Seq<SellOrderInfo<A, B>>,
    min: u128,
)
    requires
        forall|a: int, b: int|
            0 <= a < b < buys.len() ==> (#[trigger] buys[a]).order_id < (#[trigger] buys[b]).order_id,
        forall|a: int, b: int|
            0 <= a < b < sells.len() ==> (#[trigger] sells[a]).order_id < (#[trigger] sells[b]).order_id,
        pass_spec(buys, sells, min) is Some,
    ensures
        fills_in_order(pass_spec(buys, sells, min)->Some_0.2),
{
    let init: PassState<A, B> = (buys, sells, Seq::<Fill<A>>::empty());
    lemma_scan_fills_ordered(init, buys.len() as int, 0, min);
}

/// A book in which no buy order meets any sell order eligibly, and which
/// holds no dust, goes through a tick unchanged: the same orders, no new
/// trade, no transfer.
pub proof fn lemma_quiet_tick<A: Copy, B: Copy>(
    before: PairBook<A, B>,
    after: PairBook<A, B>,
    pair: PairIndex,
    route: Settlement<A>,
    min: u128,
    now: B,
)
    requires
        ticked(before, after, pair, min, now),
        forall|a: int, b: int|
            0 <= a < before.buy_orders().len() && 0 <= b < before.sell_orders().len() ==> !eligible(
                #[trigger] before.buy_orders()[a],
                #[trigger] before.sell_orders()[b],
                min,
            ),
        forall|k: int|
            0 <= k < before.buy_orders().len() ==> (#[trigger] before.buy_orders()[k]).volume > min,
        forall|k: int|
            0 <= k < before.sell_orders().len() ==> (#[trigger] before.sell_orders()[k]).volume > min,
    ensures
        after.buy_orders() == before.buy_orders(),
        after.sell_orders() == before.sell_orders(),
        after.trade_records() == before.trade_records(),
        pair_transfers(before, route, min) == Seq::<crate::types::Transfer<A>>::empty(),
{
    let bs = before.buy_orders();
    let ss = before.sell_orders();
    let init: PassState<A, B> = (bs, ss, Seq::<Fill<A>>::empty());
    lemma_scan_idle(init, bs.len() as int, 0, min);
    lemma_filter_all(bs, buy_above(min));
    lemma_filter_all(ss, sell_above(min));
    assert(crate::settle::trades_of::<A, B>(Seq::empty(), pair, now) =~= Seq::empty());
}

/// Filtering by a predicate that every element meets changes nothing.
proof fn lemma_filter_all<T>(s: Seq<T>, p: spec_fn(T) -> bool)
    requires
        forall|k: int| 0 <= k < s.len() ==> p(#[trigger] s[k]),
    ensures
        s.filter(p) == s,
    decreases s.len(),
{
    reveal(Seq::filter);
    if s.len() > 0 {
        lemma_filter_all(s.drop_last(), p);
        assert(s.drop_last().push(s.last()) =~= s);
    }
}

} // verus!
