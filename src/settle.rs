//! Settlement of a match: each leg is paid out of the operating account, 99.9%
//! to the counterparty and the rest to the fee vault, and a trade is recorded.
use vstd::prelude::*;
use crate::fee::{fee_of, net_of, split_fee};
use crate::matching::Fill;
use crate::types::{Asset, PairIndex, TradeInfo, Transfer};

verus! {

/// Where the legs of a pair's matches settle: the assets of the two legs, the
/// operating account that holds the reserved volumes and the fee vault.
#[derive(Clone, Copy, Debug, PartialEq, Eq)]
pub struct Settlement<AccountId> {
    pub base_asset: Asset,
    pub target_asset: Asset,
    pub operation: AccountId,
    pub vault: AccountId,
}

/// The four transfers that settle fill `f`: the base leg to the seller and the
/// vault, then the target leg to the buyer and the vault.
pub open spec fn settlement_of<A>(f: Fill<A>, route: Settlement<A>) -> Seq<Transfer<A>> {
    seq![
        Transfer {
            asset: route.base_asset,
            from: route.operation,
            to: f.seller,
            amount: net_of(f.base_volume),
        },
        Transfer {
            asset: route.base_asset,
            from: route.operation,
            to: route.vault,
            amount: fee_of(f.base_volume),
        },
        Transfer {
            asset: route.target_asset,
            from: route.operation,
            to: f.buyer,
            amount: net_of(f.target_volume),
        },
        Transfer {
            asset: route.target_asset,
            from: route.operation,
            to: route.vault,
            amount: fee_of(f.target_volume),
        },
    ]
}

/// The transfers that settle `fills`, in their order.
pub open spec fn settlements_of<A>(fills: Seq<Fill<A>>, route: Settlement<A>) -> Seq<Transfer<A>>
    decreases fills.len(),
{
    if fills.len() == 0 {
        Seq::empty()
    } else {
        settlements_of(fills.drop_last(), route) + settlement_of(fills.last(), route)
    }
}

/// The trade record of fill `f` on `pair` at `now`: the target volume at the
/// execution price.
pub open spec fn trade_of<A, B>(f: Fill<A>, pair: PairIndex, now: B) -> TradeInfo<A, B> {
    TradeInfo {
        pair,
        seller: f.seller,
        buyer: f.buyer,
        volume: f.target_volume,
        ratio: f.price,
        created: now,
    }
}

/// The trade records of `fills`, in their order.
pub open spec fn trades_of<A, B>(fills: Seq<Fill<A>>, pair: PairIndex, now: B) -> Seq<
    TradeInfo<A, B>,
> {
    fills.map_values(|f: Fill<A>| trade_of(f, pair, now))
}

/// Settlement neither creates nor destroys value: on each leg the payout and
/// the fee add up to the matched volume, and both leave the operating account.
pub proof fn lemma_settlement_conserves<A>(f: Fill<A>, route: Settlement<A>)
    ensures
        settlement_of(f, route).len() == 4,
        forall|k: int| 0 <= k < 4 ==> #[trigger] settlement_of(f, route)[k].from == route.operation,
        settlement_of(f, route)[0].asset == route.base_asset,
        settlement_of(f, route)[1].asset == route.base_asset,
        settlement_of(f, route)[0].to == f.seller,
        settlement_of(f, route)[1].to == route.vault,
        settlement_of(f, route)[0].amount + settlement_of(f, route)[1].amount == f.base_volume,
        settlement_of(f, route)[2].asset == route.target_asset,
        settlement_of(f, route)[3].asset == route.target_asset,
        settlement_of(f, route)[2].to == f.buyer,
        settlement_of(f, route)[3].to == route.vault,
        settlement_of(f, route)[2].amount + settlement_of(f, route)[3].amount == f.target_volume,
{
    crate::fee::lemma_permill_of_bounded(crate::fee::FEE_KEPT_PARTS, f.base_volume);
    crate::fee::lemma_permill_of_bounded(crate::fee::FEE_KEPT_PARTS, f.target_volume);
}

/// Appends the transfers that settle `f` to `out`.
pub fn settle<A: Copy>(f: &Fill<A>, route: &Settlement<A>, out: &mut Vec<Transfer<A>>)
    ensures
        final(out)@ == old(out)@ + settlement_of(*f, *route),
{
    let (base_net, base_fee) = split_fee(f.base_volume);
    let (target_net, target_fee) = split_fee(f.target_volume);
    out.push(Transfer { asset: route.base_asset, from: route.operation, to: f.seller, amount: base_net });
    out.push(Transfer { asset: route.base_asset, from: route.operation, to: route.vault, amount: base_fee });
    out.push(
        Transfer { asset: route.target_asset, from: route.operation, to: f.buyer, amount: target_net },
    );
    out.push(
        Transfer { asset: route.target_asset, from: route.operation, to: route.vault, amount: target_fee },
    );
    proof {
        assert(final(out)@ =~= old(out)@ + settlement_of(*f, *route));
    }
}

/// Settles `fills` in their order: appends their trade records to `trades`
/// and returns the transfers that pay them out.
pub fn settle_all<A: Copy, B: Copy>(
    fills: &Vec<Fill<A>>,
    pair: PairIndex,
    route: &Settlement<A>,
    now: B,
    trades: &mut Vec<TradeInfo<A, B>>,
) -> (r: Vec<Transfer<A>>)
    ensures
        final(trades)@ == old(trades)@ + trades_of(fills@, pair, now),
        r@ == settlements_of(fills@, *route),
{
    let mut out: Vec<Transfer<A>> = Vec::new();
    let mut k: usize = 0;
    while k < fills.len()
        invariant
            k <= fills.len(),
            trades@ == old(trades)@ + trades_of(fills@.take(k as int), pair, now),
            out@ == settlements_of(fills@.take(k as int), *route),
        decreases fills.len() - k,
    {
        let f = fills[k];
        proof {
            assert(fills@.take(k + 1).drop_last() =~= fills@.take(k as int));
        }
        settle(&f, route, &mut out);
        trades.push(
            TradeInfo {
                pair,
                seller: f.seller,
                buyer: f.buyer,
                volume: f.target_volume,
                ratio: f.price,
                created: now,
            },
        );
        k += 1;
        proof {
            assert(trades_of(fills@.take(k as int), pair, now) =~= trades_of(
                fills@.take(k - 1),
                pair,
                now,
            ).push(trade_of(f, pair, now)));
        }
    }
    proof {
        assert(fills@.take(fills.len() as int) =~= fills@);
    }
    out
}

} // verus!
