//! The records that a market keeps: pairs, open orders and trades.
use vstd::prelude::*;

verus! {

/// Index of a pair within its market universe.
pub type PairIndex = u128;

/// Index of a trade within its pair's trade ledger.
pub type TradeIndex = u128;

/// Identifier of a buy order within its pair.
pub type BuyOrderIndex = u128;

/// Identifier of a sell order within its pair.
pub type SellOrderIndex = u128;

/// Identifier of a ledger asset.
pub type TokenIndex = u32;

/// An asset that a transfer moves: the host's native currency or a ledger token.
#[derive(Clone, Copy, Debug, PartialEq, Eq, Structural)]
pub enum Asset {
    Native,
    Token(TokenIndex),
}

/// A market on two ledger tokens: `base` pays for `target`.
#[derive(Clone, Copy, Debug, PartialEq, Eq)]
pub struct PairInfo<AccountId, BlockNumber> {
    pub base: TokenIndex,
    pub target: TokenIndex,
    pub banker: AccountId,
    pub active: bool,
    pub created: BlockNumber,
}

/// A market where the native currency pays for the ledger token `target`.
#[derive(Clone, Copy, Debug, PartialEq, Eq)]
pub struct PairNativeInfo<AccountId, BlockNumber> {
    pub target: TokenIndex,
    pub banker: AccountId,
    pub active: bool,
    pub created: BlockNumber,
}

/// An open buy order. `volume` is what remains of it in the base leg and only
/// ever decreases; `ratio` is its fixed-point limit price.
#[derive(Clone, Copy, Debug, PartialEq, Eq)]
pub struct BuyOrderInfo<AccountId, BlockNumber> {
    pub order_id: BuyOrderIndex,
    pub pair: PairIndex,
    pub buyer: AccountId,
    pub volume: u128,
    pub ratio: u128,
    pub created: BlockNumber,
}

/// An open sell order. `volume` is what remains of it in the target leg and
/// only ever decreases; `ratio` is its fixed-point limit price.
#[derive(Clone, Copy, Debug, PartialEq, Eq)]
pub struct SellOrderInfo<AccountId, BlockNumber> {
    pub order_id: SellOrderIndex,
    pub pair: PairIndex,
    pub seller: AccountId,
    pub volume: u128,
    pub ratio: u128,
    pub created: BlockNumber,
}

/// An executed trade: `volume` is the target volume settled, `ratio` the
/// execution price.
#[derive(Clone, Copy, Debug, PartialEq, Eq)]
pub struct TradeInfo<AccountId, BlockNumber> {
    pub pair: PairIndex,
    pub seller: AccountId,
    pub buyer: AccountId,
    pub volume: u128,
    pub ratio: u128,
    pub created: BlockNumber,
}

/// Native markets keep buy orders of the same shape.
pub type BuyOrderNativeInfo<AccountId, BlockNumber> = BuyOrderInfo<AccountId, BlockNumber>;

/// Native markets keep sell orders of the same shape.
pub type SellOrderNativeInfo<AccountId, BlockNumber> = SellOrderInfo<AccountId, BlockNumber>;

/// Native markets keep trades of the same shape.
pub type TradeNativeInfo<AccountId, BlockNumber> = TradeInfo<AccountId, BlockNumber>;

/// A ledger transfer that the host must carry out.
#[derive(Clone, Copy, Debug, PartialEq, Eq)]
pub struct Transfer<AccountId> {
    pub asset: Asset,
    pub from: AccountId,
    pub to: AccountId,
    pub amount: u128,
}

} // verus!
