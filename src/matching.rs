//! One matching pass over a pair's open orders: every buy order, oldest first,
//! meets every sell order, oldest first, and each meeting re-reads both
//! orders as the earlier meetings of the pass left them.
use vstd::prelude::*;
use crate::fixed::{matched_volumes, matched_volumes_spec};
use crate::types::{BuyOrderInfo, SellOrderInfo};

verus! {

/// A match made during a pass: the two orders, their traders, the volumes
/// taken off each, and the execution price (always the buyer's ratio).
#[derive(Clone, Copy, Debug, PartialEq, Eq)]
pub struct Fill<AccountId> {
    pub buy_id: u128,
    pub sell_id: u128,
    pub buyer: AccountId,
    pub seller: AccountId,
    pub base_volume: u128,
    pub target_volume: u128,
    pub price: u128,
}

/// The buy orders, the sell orders and the fills so far of a pass.
pub type PassState<A, B> = (Seq<BuyOrderInfo<A, B>>, Seq<SellOrderInfo<A, B>>, Seq<Fill<A>>);

/// The match condition: the buyer's limit reaches the seller's, and neither
/// order has fallen below the minimum volume.
pub open spec fn eligible<A, B>(b: BuyOrderInfo<A, B>, s: SellOrderInfo<A, B>, min: u128) -> bool {
    b.ratio >= s.ratio && b.volume >= min && s.volume >= min
}

/// `b` with its remaining volume replaced.
pub open spec fn buy_with_volume<A, B>(b: BuyOrderInfo<A, B>, volume: u128) -> BuyOrderInfo<A, B> {
    BuyOrderInfo {
        order_id: b.order_id,
        pair: b.pair,
        buyer: b.buyer,
        volume,
        ratio: b.ratio,
        created: b.created,
    }
}

/// `s` with its remaining volume replaced.
pub open spec fn sell_with_volume<A, B>(s: SellOrderInfo<A, B>, volume: u128) -> SellOrderInfo<A, B> {
    SellOrderInfo {
        order_id: s.order_id,
        pair: s.pair,
        seller: s.seller,
        volume,
        ratio: s.ratio,
        created: s.created,
    }
}

/// The fill that buy order `b` and sell order `s` make with the given volumes.
pub open spec fn fill_of<A, B>(
    b: BuyOrderInfo<A, B>,
    s: SellOrderInfo<A, B>,
    base_volume: u128,
    target_volume: u128,
) -> Fill<A> {
    Fill {
        buy_id: b.order_id,
        sell_id: s.order_id,
        buyer: b.buyer,
        seller: s.seller,
        base_volume,
        target_volume,
        price: b.ratio,
    }
}

/// The meeting of buy order `i` and sell order `j`: nothing where they are
/// not eligible, otherwise both reduced and one fill recorded; `None` where
/// the arithmetic of the match leaves `u128`.
pub open spec fn match_step<A, B>(st: PassState<A, B>, i: int, j: int, min: u128) -> Option<
    PassState<A, B>,
> {
    let b = st.0[i];
    let s = st.1[j];
    if !eligible(b, s, min) {
        Some(st)
    } else {
        match matched_volumes_spec(b.volume, b.ratio, s.volume, s.ratio) {
            None => None,
            Some(m) => Some(
                (
                    st.0.update(i, buy_with_volume(b, (b.volume - m.base_volume) as u128)),
                    st.1.update(j, sell_with_volume(s, (s.volume - m.target_volume) as u128)),
                    st.2.push(fill_of(b, s, m.base_volume, m.target_volume)),
                ),
            ),
        }
    }
}

/// The state of a pass from `init` once rows `0..i` of the buy-by-sell scan
/// are done, and in row `i` the sell orders `0..j` (a row is `width` long).
pub open spec fn scan<A, B>(init: PassState<A, B>, i: int, j: int, width: int, min: u128) -> Option<
    PassState<A, B>,
>
    decreases i, j,
{
    if i <= 0 && j <= 0 {
        Some(init)
    } else if j <= 0 {
        scan(init, i - 1, width, width, min)
    } else {
        match scan(init, i, j - 1, width, min) {
            None => None,
            Some(st) => match_step(st, i, j - 1, min),
        }
    }
}

/// A whole pass over `buys` and `sells`: `None` where some match of it fails
/// its arithmetic.
pub open spec fn pass_spec<A, B>(
    buys: Seq<BuyOrderInfo<A, B>>,
    sells: Seq<SellOrderInfo<A, B>>,
    min: u128,
) -> Option<PassState<A, B>> {
    scan((buys, sells, Seq::empty()), buys.len() as int, 0, sells.len() as int, min)
}

/// Once a pass has failed, every later point of the scan has failed too.
pub proof fn lemma_scan_failure_persists<A, B>(
    init: PassState<A, B>,
    i: int,
    j: int,
    i2: int,
    j2: int,
    width: int,
    min: u128,
)
    requires
        scan(init, i, j, width, min) is None,
        0 <= i,
        0 <= j <= width,
        0 <= j2 <= width,
        i < i2 || (i == i2 && j <= j2),
    ensures
        scan(init, i2, j2, width, min) is None,
    decreases i2, j2,
{
    if i == i2 && j == j2 {
    } else if j2 == 0 {
        lemma_scan_failure_persists(init, i, j, i2 - 1, width, width, min);
    } else {
        lemma_scan_failure_persists(init, i, j, i2, j2 - 1, width, min);
    }
}

/// Runs a pass on `buys` and `sells` in place, returning its fills, or `None`
/// where some match fails its arithmetic.
pub fn run_pass<A: Copy, B: Copy>(
    buys: &mut Vec<BuyOrderInfo<A, B>>,
    sells: &mut Vec<SellOrderInfo<A, B>>,
    min: u128,
) -> (r: Option<Vec<Fill<A>>>)
    ensures
        r is Some <==> pass_spec(old(buys)@, old(sells)@, min) is Some,
        r is Some ==> pass_spec(old(buys)@, old(sells)@, min) == Some(
            (final(buys)@, final(sells)@, r->Some_0@),
        ),
{
    let ghost init: PassState<A, B> = (buys@, sells@, Seq::empty());
    let n_buys = buys.len();
    let n_sells = sells.len();
    let mut fills: Vec<Fill<A>> = Vec::new();
    let mut i: usize = 0;
    while i < n_buys
        invariant
            0 <= i <= n_buys,
            buys.len() == n_buys,
            sells.len() == n_sells,
            init == (old(buys)@, old(sells)@, Seq::<Fill<A>>::empty()),
            init.0.len() == n_buys,
            init.1.len() == n_sells,
            scan(init, i as int, 0, n_sells as int, min) == Some((buys@, sells@, fills@)),
        decreases n_buys - i,
    {
        let mut j: usize = 0;
        while j < n_sells
            invariant
                0 <= i < n_buys,
                0 <= j <= n_sells,
                buys.len() == n_buys,
                sells.len() == n_sells,
                init == (old(buys)@, old(sells)@, Seq::<Fill<A>>::empty()),
            init.0.len() == n_buys,
                init.1.len() == n_sells,
                scan(init, i as int, j as int, n_sells as int, min) == Some(
                    (buys@, sells@, fills@),
                ),
            decreases n_sells - j,
        {
            let b = buys[i];
            let s = sells[j];
            if b.ratio >= s.ratio && b.volume >= min && s.volume >= min {
                match matched_volumes(b.volume, b.ratio, s.volume, s.ratio) {
                    None => {
                        proof {
                            assert(scan(init, i as int, j + 1, n_sells as int, min) is None);
                            lemma_scan_failure_persists(
                                init,
                                i as int,
                                j + 1,
                                n_buys as int,
                                0,
                                n_sells as int,
                                min,
                            );
                        }
                        return None;
                    },
                    Some(m) => {
                        let new_buy = BuyOrderInfo {
                            order_id: b.order_id,
                            pair: b.pair,
                            buyer: b.buyer,
                            volume: b.volume - m.base_volume,
                            ratio: b.ratio,
                            created: b.created,
                        };
                        let new_sell = SellOrderInfo {
                            order_id: s.order_id,
                            pair: s.pair,
                            seller: s.seller,
                            volume: s.volume - m.target_volume,
                            ratio: s.ratio,
                            created: s.created,
                        };
                        buys.set(i, new_buy);
                        sells.set(j, new_sell);
                        fills.push(
                            Fill {
                                buy_id: b.order_id,
                                sell_id: s.order_id,
                                buyer: b.buyer,
                                seller: s.seller,
                                base_volume: m.base_volume,
                                target_volume: m.target_volume,
                                price: b.ratio,
                            },
                        );
                    },
                }
            }
            j += 1;
        }
        i += 1;
    }
    Some(fills)
}

} // verus!
