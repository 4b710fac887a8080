//! A deterministic order-matching and settlement engine for two-asset markets.
//!
//! Once per tick the engine walks every pair of a market universe, matches its
//! open buy orders against its open sell orders in creation order, reduces the
//! matched orders in place, settles each match with a retained fee and prunes
//! the orders that fell to dust. Nothing here touches a ledger: order creation
//! and ticks hand back the transfers that the host must carry out.
pub mod book;
pub mod exchange;
pub mod fee;
pub mod fixed;
pub mod guarantees;
pub mod matching;
pub mod settle;
pub mod types;

pub use crate::book::PairBook;
pub use crate::exchange::{Exchange, ExchangeError, TickReport};
pub use crate::fee::split_fee;
pub use crate::fixed::{
    buy_implied_volume, matched_volumes, sell_implied_volume, MatchedVolumes, RATIONALISATION,
};
pub use crate::matching::Fill;
pub use crate::settle::Settlement;
pub use crate::types::{
    Asset, BuyOrderIndex, BuyOrderInfo, BuyOrderNativeInfo, PairIndex, PairInfo, PairNativeInfo,
    SellOrderIndex, SellOrderInfo, SellOrderNativeInfo, TokenIndex, TradeIndex, TradeInfo,
    TradeNativeInfo, Transfer,
};
