//! Fixed-point volume conversion between the base and the target leg of a pair.
use vstd::prelude::*;

verus! {

/// Scale of a fixed-point ratio: `RATIONALISATION` stands for a ratio of one.
pub const RATIONALISATION: u128 = 1_000_000_000_000;

/// The volumes that one match takes off its two orders: `base_volume` from the
/// buy order, `target_volume` from the sell order.
#[derive(Clone, Copy, Debug, PartialEq, Eq)]
pub struct MatchedVolumes {
    pub base_volume: u128,
    pub target_volume: u128,
}

/// The base volume that a buy order's remaining volume is worth at its ratio:
/// multiplication first, then truncating division.
pub open spec fn buy_implied_spec(volume: u128, ratio: u128) -> Option<u128> {
    if volume * ratio > u128::MAX {
        None
    } else {
        Some(((volume * ratio) / (RATIONALISATION as int)) as u128)
    }
}

/// The target volume implied by a sell order: truncating division of the ratio
/// by the remaining volume first, then multiplication by the scale.
pub open spec fn sell_implied_spec(volume: u128, ratio: u128) -> Option<u128> {
    if volume == 0 || (ratio / volume) * RATIONALISATION > u128::MAX {
        None
    } else {
        Some(((ratio / volume) * RATIONALISATION) as u128)
    }
}

/// What a match between a buy order and a sell order takes off each of them,
/// or `None` where a step of the fixed-point arithmetic leaves the range of
/// `u128` (a division by zero, an overflow, or a reduction below zero).
pub open spec fn matched_volumes_spec(
    buy_volume: u128,
    buy_ratio: u128,
    sell_volume: u128,
    sell_ratio: u128,
) -> Option<MatchedVolumes> {
    match (buy_implied_spec(buy_volume, buy_ratio), sell_implied_spec(sell_volume, sell_ratio)) {
        (Some(buy_implied), Some(sell_implied)) => {
            let m = if sell_volume < buy_implied {
                MatchedVolumes { base_volume: sell_implied, target_volume: sell_volume }
            } else {
                MatchedVolumes { base_volume: buy_implied, target_volume: buy_volume }
            };
            if m.base_volume <= buy_volume && m.target_volume <= sell_volume {
                Some(m)
            } else {
                None
            }
        },
        _ => None,
    }
}

/// `volume * ratio / RATIONALISATION`, or `None` on overflow.
pub fn buy_implied_volume(volume: u128, ratio: u128) -> (r: Option<u128>)
    ensures
        r == buy_implied_spec(volume, ratio),
{
    match volume.checked_mul(ratio) {
        Some(product) => Some(product / RATIONALISATION),
        None => None,
    }
}

/// `(ratio / volume) * RATIONALISATION`, or `None` where `volume` is zero or
/// the product overflows.
pub fn sell_implied_volume(volume: u128, ratio: u128) -> (r: Option<u128>)
    ensures
        r == sell_implied_spec(volume, ratio),
{
    if volume == 0 {
        return None;
    }
    (ratio / volume).checked_mul(RATIONALISATION)
}

/// Sizes a match. Where the sell order's volume is below what the buy order
/// implies, the sell order is absorbed whole; otherwise the buy order is.
pub fn matched_volumes(
    buy_volume: u128,
    buy_ratio: u128,
    sell_volume: u128,
    sell_ratio: u128,
) -> (r: Option<MatchedVolumes>)
    ensures
        r == matched_volumes_spec(buy_volume, buy_ratio, sell_volume, sell_ratio),
{
    let buy_implied = match buy_implied_volume(buy_volume, buy_ratio) {
        Some(v) => v,
        None => return None,
    };
    let sell_implied = match sell_implied_volume(sell_volume, sell_ratio) {
        Some(v) => v,
        None => return None,
    };
    let m = if sell_volume < buy_implied {
        MatchedVolumes { base_volume: sell_implied, target_volume: sell_volume }
    } else {
        MatchedVolumes { base_volume: buy_implied, target_volume: buy_volume }
    };
    if m.base_volume <= buy_volume && m.target_volume <= sell_volume {
        Some(m)
    } else {
        None
    }
}

} // verus!
