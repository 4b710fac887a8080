//! The exchange: the operating and vault accounts, the minimum volume, and
//! the pairs of both market universes with their books.
use vstd::prelude::*;
use crate::book::{opened_buy, opened_sell, pair_transfers, tick_spec, ticked, PairBook};
use crate::settle::Settlement;
use crate::types::{
    Asset, BuyOrderIndex, BuyOrderInfo, PairIndex, PairInfo, PairNativeInfo, SellOrderIndex,
    SellOrderInfo, TokenIndex, Transfer,
};

verus! {

/// Why a request was refused.
#[derive(Clone, Copy, Debug, PartialEq, Eq, Structural)]
pub enum ExchangeError {
    /// No pair has the given index.
    PairNotFound,
    /// The trader's balance does not cover the order's volume.
    InsufficientAmount,
    /// The pair has handed out every order id.
    Overflow,
}

/// What a tick of one market universe hands back: the ledger transfers that
/// settle its matches, in order, and the pairs whose pass failed its
/// arithmetic and was rolled back.
#[derive(Debug)]
pub struct TickReport<AccountId> {
    pub transfers: Vec<Transfer<AccountId>>,
    pub aborted: Vec<PairIndex>,
}

/// The transfers of a tick over the first `n` pairs of a universe.
pub open spec fn market_transfers<A: Copy, B: Copy>(
    books: Seq<PairBook<A, B>>,
    routes: Seq<Settlement<A>>,
    min: u128,
    n: int,
) -> Seq<Transfer<A>>
    decreases n,
{
    if n <= 0 {
        Seq::empty()
    } else {
        market_transfers(books, routes, min, n - 1) + pair_transfers(books[n - 1], routes[n - 1], min)
    }
}

/// The pairs among the first `n` of a universe whose tick fails, in order.
pub open spec fn market_aborted<A: Copy, B: Copy>(
    books: Seq<PairBook<A, B>>,
    min: u128,
    n: int,
) -> Seq<PairIndex>
    decreases n,
{
    if n <= 0 {
        Seq::empty()
    } else if tick_spec(books[n - 1].buy_orders(), books[n - 1].sell_orders(), min) is None {
        market_aborted(books, min, n - 1).push((n - 1) as PairIndex)
    } else {
        market_aborted(books, min, n - 1)
    }
}

/// Where the matches of a token pair settle.
pub open spec fn pair_route<A, B>(p: PairInfo<A, B>, operation: A, vault: A) -> Settlement<A> {
    Settlement {
        base_asset: Asset::Token(p.base),
        target_asset: Asset::Token(p.target),
        operation,
        vault,
    }
}

/// Where the matches of a native pair settle.
pub open spec fn native_route<A, B>(p: PairNativeInfo<A, B>, operation: A, vault: A) -> Settlement<
    A,
> {
    Settlement { base_asset: Asset::Native, target_asset: Asset::Token(p.target), operation, vault }
}

/// Ticks every book of a universe in pair order; a book whose pass fails is
/// left as it was.
fn tick_market<A: Copy, B: Copy>(
    books: &mut Vec<PairBook<A, B>>,
    routes: &Vec<Settlement<A>>,
    min: u128,
    now: B,
) -> (r: TickReport<A>)
    requires
        old(books).len() == routes.len(),
        forall|k: int| 0 <= k < old(books).len() ==> #[trigger] old(books)@[k].wf(),
    ensures
        final(books).len() == old(books).len(),
        forall|k: int|
            0 <= k < final(books).len() ==> (#[trigger] final(books)@[k]).wf() && ticked(
                old(books)@[k],
                final(books)@[k],
                k as PairIndex,
                min,
                now,
            ),
        r.transfers@ == market_transfers(old(books)@, routes@, min, old(books).len() as int),
        r.aborted@ == market_aborted(old(books)@, min, old(books).len() as int),
{
    let n = books.len();
    let mut transfers: Vec<Transfer<A>> = Vec::new();
    let mut aborted: Vec<PairIndex> = Vec::new();
    let mut k: usize = 0;
    while k < n
        invariant
            k <= n,
            books.len() == n,
            routes.len() == n,
            old(books).len() == n,
            forall|m: int| k <= m < n ==> #[trigger] books@[m] == old(books)@[m],
            forall|m: int| 0 <= m < n ==> #[trigger] old(books)@[m].wf(),
            forall|m: int|
                0 <= m < k ==> (#[trigger] books@[m]).wf() && ticked(
                    old(books)@[m],
                    books@[m],
                    m as PairIndex,
                    min,
                    now,
                ),
            transfers@ == market_transfers(old(books)@, routes@, min, k as int),
            aborted@ == market_aborted(old(books)@, min, k as int),
        decreases n - k,
    {
        let route = routes[k];
        let outcome = books[k].tick(k as PairIndex, &route, min, now);
        match outcome {
            Some(mut t) => {
                transfers.append(&mut t);
            },
            None => {
                aborted.push(k as PairIndex);
            },
        }
        k += 1;
    }
    TickReport { transfers, aborted }
}

/// Opens a buy order on book `pair` of `books` for a buyer whose balance of
/// `asset` is `balance`, and returns its id with the transfer that reserves
/// its volume on the operating account.
fn open_buy<A: Copy, B: Copy>(
    books: &mut Vec<PairBook<A, B>>,
    pair: PairIndex,
    buyer: A,
    volume: u128,
    ratio: u128,
    balance: u128,
    now: B,
    asset: Asset,
    operation: A,
) -> (r: Result<(BuyOrderIndex, Transfer<A>), ExchangeError>)
    requires
        pair < old(books).len(),
        forall|k: int| 0 <= k < old(books).len() ==> #[trigger] old(books)@[k].wf(),
    ensures
        forall|k: int| 0 <= k < final(books).len() ==> #[trigger] final(books)@[k].wf(),
        final(books).len() == old(books).len(),
        r is Err ==> *final(books) == *old(books),
        balance < volume ==> r == Err::<(BuyOrderIndex, Transfer<A>), ExchangeError>(
            ExchangeError::InsufficientAmount,
        ),
        balance >= volume && old(books)@[pair as int].next_buy_id() == u128::MAX ==> r == Err::<
            (BuyOrderIndex, Transfer<A>),
            ExchangeError,
        >(ExchangeError::Overflow),
        balance >= volume && old(books)@[pair as int].next_buy_id() < u128::MAX ==> r is Ok,
        r is Ok ==> {
            &&& r->Ok_0.0 == old(books)@[pair as int].next_buy_id()
            &&& r->Ok_0.1 == Transfer { asset, from: buyer, to: operation, amount: volume }
            &&& opened_buy(
                old(books)@[pair as int],
                final(books)@[pair as int],
                BuyOrderInfo { order_id: r->Ok_0.0, pair, buyer, volume, ratio, created: now },
            )
            &&& final(books)@ == old(books)@.update(pair as int, final(books)@[pair as int])
        },
{
    let idx = pair as usize;
    if balance < volume {
        return Err(ExchangeError::InsufficientAmount);
    }
    if books[idx].buy_order_count() == u128::MAX {
        return Err(ExchangeError::Overflow);
    }
    match books[idx].create_buy(pair, buyer, volume, ratio, now) {
        Some(id) => {
            proof {
                assert forall|k: int| 0 <= k < books.len() implies #[trigger] books@[k].wf() by {
                    if k != idx {
                        assert(books@[k] == old(books)@[k]);
                    }
                }
            }
            Ok((id, Transfer { asset, from: buyer, to: operation, amount: volume }))
        },
        None => Err(ExchangeError::Overflow),
    }
}

/// Opens a sell order on book `pair` of `books` for a seller whose balance of
/// `asset` is `balance`, and returns its id with the transfer that reserves
/// its volume on the operating account.
fn open_sell<A: Copy, B: Copy>(
    books: &mut Vec<PairBook<A, B>>,
    pair: PairIndex,
    seller: A,
    volume: u128,
    ratio: u128,
    balance: u128,
    now: B,
    asset: Asset,
    operation: A,
) -> (r: Result<(SellOrderIndex, Transfer<A>), ExchangeError>)
    requires
        pair < old(books).len(),
        forall|k: int| 0 <= k < old(books).len() ==> #[trigger] old(books)@[k].wf(),
    ensures
        forall|k: int| 0 <= k < final(books).len() ==> #[trigger] final(books)@[k].wf(),
        final(books).len() == old(books).len(),
        r is Err ==> *final(books) == *old(books),
        balance < volume ==> r == Err::<(SellOrderIndex, Transfer<A>), ExchangeError>(
            ExchangeError::InsufficientAmount,
        ),
        balance >= volume && old(books)@[pair as int].next_sell_id() == u128::MAX ==> r == Err::<
            (SellOrderIndex, Transfer<A>),
            ExchangeError,
        >(ExchangeError::Overflow),
        balance >= volume && old(books)@[pair as int].next_sell_id() < u128::MAX ==> r is Ok,
        r is Ok ==> {
            &&& r->Ok_0.0 == old(books)@[pair as int].next_sell_id()
            &&& r->Ok_0.1 == Transfer { asset, from: seller, to: operation, amount: volume }
            &&& opened_sell(
                old(books)@[pair as int],
                final(books)@[pair as int],
                SellOrderInfo { order_id: r->Ok_0.0, pair, seller, volume, ratio, created: now },
            )
            &&& final(books)@ == old(books)@.update(pair as int, final(books)@[pair as int])
        },
{
    let idx = pair as usize;
    if balance < volume {
        return Err(ExchangeError::InsufficientAmount);
    }
    if books[idx].sell_order_count() == u128::MAX {
        return Err(ExchangeError::Overflow);
    }
    match books[idx].create_sell(pair, seller, volume, ratio, now) {
        Some(id) => {
            proof {
                assert forall|k: int| 0 <= k < books.len() implies #[trigger] books@[k].wf() by {
                    if k != idx {
                        assert(books@[k] == old(books)@[k]);
                    }
                }
            }
            Ok((id, Transfer { asset, from: seller, to: operation, amount: volume }))
        },
        None => Err(ExchangeError::Overflow),
    }
}

/// The exchange's state: its two accounts, the minimum volume below which an
/// order is dust, and the pairs and books of both universes, indexed by pair.
pub struct Exchange<AccountId, BlockNumber> {
    account_operation: AccountId,
    account_vault: AccountId,
    minimum_volume: u128,
    pairs: Vec<PairInfo<AccountId, BlockNumber>>,
    books: Vec<PairBook<AccountId, BlockNumber>>,
    native_pairs: Vec<PairNativeInfo<AccountId, BlockNumber>>,
    native_books: Vec<PairBook<AccountId, BlockNumber>>,
}

impl<A: Copy, B: Copy> Exchange<A, B> {
    /// The account that holds the volumes of open orders.
    pub closed spec fn operation(&self) -> A {
        self.account_operation
    }

    /// The account that receives the fees.
    pub closed spec fn vault(&self) -> A {
        self.account_vault
    }

    /// The minimum volume.
    pub closed spec fn min_volume(&self) -> u128 {
        self.minimum_volume
    }

    /// The token pairs, by index.
    pub closed spec fn pair_list(&self) -> Seq<PairInfo<A, B>> {
        self.pairs@
    }

    /// The books of the token pairs, by index.
    pub closed spec fn book_list(&self) -> Seq<PairBook<A, B>> {
        self.books@
    }

    /// The native pairs, by index.
    pub closed spec fn native_pair_list(&self) -> Seq<PairNativeInfo<A, B>> {
        self.native_pairs@
    }

    /// The books of the native pairs, by index.
    pub closed spec fn native_book_list(&self) -> Seq<PairBook<A, B>> {
        self.native_books@
    }

    /// Each pair has one book and every book is well formed.
    pub open spec fn wf(&self) -> bool {
        &&& self.book_list().len() == self.pair_list().len()
        &&& self.native_book_list().len() == self.native_pair_list().len()
        &&& forall|k: int| 0 <= k < self.book_list().len() ==> #[trigger] self.book_list()[k].wf()
        &&& forall|k: int|
            0 <= k < self.native_book_list().len() ==> #[trigger] self.native_book_list()[k].wf()
    }

    /// Where the matches of token pair `k` settle.
    pub open spec fn route_of(&self, k: int) -> Settlement<A> {
        pair_route(self.pair_list()[k], self.operation(), self.vault())
    }

    /// Where the matches of native pair `k` settle.
    pub open spec fn native_route_of(&self, k: int) -> Settlement<A> {
        native_route(self.native_pair_list()[k], self.operation(), self.vault())
    }

    /// Everything but the token pairs' books is as in `other`.
    pub open spec fn only_books_differ(&self, other: Self) -> bool {
        &&& self.operation() == other.operation()
        &&& self.vault() == other.vault()
        &&& self.min_volume() == other.min_volume()
        &&& self.pair_list() == other.pair_list()
        &&& self.native_pair_list() == other.native_pair_list()
        &&& self.native_book_list() == other.native_book_list()
    }

    /// Everything but the native pairs' books is as in `other`.
    pub open spec fn only_native_books_differ(&self, other: Self) -> bool {
        &&& self.operation() == other.operation()
        &&& self.vault() == other.vault()
        &&& self.min_volume() == other.min_volume()
        &&& self.pair_list() == other.pair_list()
        &&& self.native_pair_list() == other.native_pair_list()
        &&& self.book_list() == other.book_list()
    }

    /// Where the matches of each token pair settle, by pair.
    pub open spec fn routes(&self) -> Seq<Settlement<A>> {
        self.pair_list().map_values(|p: PairInfo<A, B>| pair_route(p, self.operation(), self.vault()))
    }

    /// Where the matches of each native pair settle, by pair.
    pub open spec fn native_routes(&self) -> Seq<Settlement<A>> {
        self.native_pair_list().map_values(
            |p: PairNativeInfo<A, B>| native_route(p, self.operation(), self.vault()),
        )
    }

    /// The account that holds the volumes of open orders.
    pub fn account_operation(&self) -> (r: A)
        ensures
            r == self.operation(),
    {
        self.account_operation
    }

    /// The account that receives the fees.
    pub fn account_vault(&self) -> (r: A)
        ensures
            r == self.vault(),
    {
        self.account_vault
    }

    /// The minimum volume: an order at or below it is dust.
    pub fn minimum_volume(&self) -> (r: u128)
        ensures
            r == self.min_volume(),
    {
        self.minimum_volume
    }

    /// Replaces the operating account.
    pub fn set_account_operation(&mut self, account: A)
        requires
            old(self).wf(),
        ensures
            final(self).wf(),
            final(self).operation() == account,
            final(self).vault() == old(self).vault(),
            final(self).min_volume() == old(self).min_volume(),
            final(self).pair_list() == old(self).pair_list(),
            final(self).book_list() == old(self).book_list(),
            final(self).native_pair_list() == old(self).native_pair_list(),
            final(self).native_book_list() == old(self).native_book_list(),
    {
        self.account_operation = account;
    }

    /// Replaces the fee vault.
    pub fn set_account_vault(&mut self, account: A)
        requires
            old(self).wf(),
        ensures
            final(self).wf(),
            final(self).vault() == account,
            final(self).operation() == old(self).operation(),
            final(self).min_volume() == old(self).min_volume(),
            final(self).pair_list() == old(self).pair_list(),
            final(self).book_list() == old(self).book_list(),
            final(self).native_pair_list() == old(self).native_pair_list(),
            final(self).native_book_list() == old(self).native_book_list(),
    {
        self.account_vault = account;
    }

    /// Replaces the minimum volume.
    pub fn set_minimum_volume(&mut self, volume: u128)
        requires
            old(self).wf(),
        ensures
            final(self).wf(),
            final(self).min_volume() == volume,
            final(self).operation() == old(self).operation(),
            final(self).vault() == old(self).vault(),
            final(self).pair_list() == old(self).pair_list(),
            final(self).book_list() == old(self).book_list(),
            final(self).native_pair_list() == old(self).native_pair_list(),
            final(self).native_book_list() == old(self).native_book_list(),
    {
        self.minimum_volume = volume;
    }

    /// Registers an active token pair on which `base` pays for `target`, with
    /// an empty book; returns its index.
    pub fn create_pair(&mut self, base: TokenIndex, target: TokenIndex, banker: A, now: B) -> (r:
        PairIndex)
        requires
            old(self).wf(),
        ensures
            final(self).wf(),
            r == old(self).pair_list().len(),
            final(self).pair_list() == old(self).pair_list().push(
                PairInfo { base, target, banker, active: true, created: now },
            ),
            final(self).book_list() == old(self).book_list().push(final(self).book_list().last()),
            final(self).book_list().last().is_empty(),
            final(self).operation() == old(self).operation(),
            final(self).vault() == old(self).vault(),
            final(self).min_volume() == old(self).min_volume(),
            final(self).native_pair_list() == old(self).native_pair_list(),
            final(self).native_book_list() == old(self).native_book_list(),
    {
        let index = self.pairs.len() as PairIndex;
        self.pairs.push(PairInfo { base, target, banker, active: true, created: now });
        self.books.push(PairBook::new());
        proof {
            assert(self.books@.drop_last() =~= old(self).books@);
        }
        index
    }

    /// Registers an active native pair on which the native currency pays for
    /// `target`, with an empty book; returns its index.
    pub fn create_native_pair(&mut self, target: TokenIndex, banker: A, now: B) -> (r: PairIndex)
        requires
            old(self).wf(),
        ensures
            final(self).wf(),
            r == old(self).native_pair_list().len(),
            final(self).native_pair_list() == old(self).native_pair_list().push(
                PairNativeInfo { target, banker, active: true, created: now },
            ),
            final(self).native_book_list() == old(self).native_book_list().push(
                final(self).native_book_list().last(),
            ),
            final(self).native_book_list().last().is_empty(),
            final(self).operation() == old(self).operation(),
            final(self).vault() == old(self).vault(),
            final(self).min_volume() == old(self).min_volume(),
            final(self).pair_list() == old(self).pair_list(),
            final(self).book_list() == old(self).book_list(),
    {
        let index = self.native_pairs.len() as PairIndex;
        self.native_pairs.push(PairNativeInfo { target, banker, active: true, created: now });
        self.native_books.push(PairBook::new());
        proof {
            assert(self.native_books@.drop_last() =~= old(self).native_books@);
        }
        index
    }

    /// The number of token pairs.
    pub fn pair_count(&self) -> (r: usize)
        ensures
            r == self.pair_list().len(),
    {
        self.pairs.len()
    }

    /// The number of native pairs.
    pub fn native_pair_count(&self) -> (r: usize)
        ensures
            r == self.native_pair_list().len(),
    {
        self.native_pairs.len()
    }

    /// The token pair with index `pair`.
    pub fn pair(&self, pair: PairIndex) -> (r: Result<PairInfo<A, B>, ExchangeError>)
        ensures
            pair < self.pair_list().len() ==> r == Ok::<PairInfo<A, B>, ExchangeError>(
                self.pair_list()[pair as int],
            ),
            pair >= self.pair_list().len() ==> r == Err::<PairInfo<A, B>, ExchangeError>(
                ExchangeError::PairNotFound,
            ),
    {
        if pair < self.pairs.len() as PairIndex {
            Ok(self.pairs[pair as usize])
        } else {
            Err(ExchangeError::PairNotFound)
        }
    }

    /// The native pair with index `pair`.
    pub fn native_pair(&self, pair: PairIndex) -> (r: Result<PairNativeInfo<A, B>, ExchangeError>)
        ensures
            pair < self.native_pair_list().len() ==> r == Ok::<
                PairNativeInfo<A, B>,
                ExchangeError,
            >(self.native_pair_list()[pair as int]),
            pair >= self.native_pair_list().len() ==> r == Err::<
                PairNativeInfo<A, B>,
                ExchangeError,
            >(ExchangeError::PairNotFound),
    {
        if pair < self.native_pairs.len() as PairIndex {
            Ok(self.native_pairs[pair as usize])
        } else {
            Err(ExchangeError::PairNotFound)
        }
    }

    /// The book of token pair `pair`.
    pub fn pair_book(&self, pair: PairIndex) -> (r: Result<&PairBook<A, B>, ExchangeError>)
        ensures
            pair < self.book_list().len() ==> r is Ok && *r->Ok_0 == self.book_list()[pair as int],
            pair >= self.book_list().len() ==> r == Err::<&PairBook<A, B>, ExchangeError>(
                ExchangeError::PairNotFound,
            ),
    {
        if pair < self.books.len() as PairIndex {
            Ok(&self.books[pair as usize])
        } else {
            Err(ExchangeError::PairNotFound)
        }
    }

    /// The book of native pair `pair`.
    pub fn native_pair_book(&self, pair: PairIndex) -> (r: Result<&PairBook<A, B>, ExchangeError>)
        ensures
            pair < self.native_book_list().len() ==> r is Ok && *r->Ok_0
                == self.native_book_list()[pair as int],
            pair >= self.native_book_list().len() ==> r == Err::<&PairBook<A, B>, ExchangeError>(
                ExchangeError::PairNotFound,
            ),
    {
        if pair < self.native_books.len() as PairIndex {
            Ok(&self.native_books[pair as usize])
        } else {
            Err(ExchangeError::PairNotFound)
        }
    }

    /// Opens a buy order on token pair `pair` for `buyer`, whose balance of
    /// the pair's base token is `balance`. Returns the order's id and the
    /// transfer that reserves its volume on the operating account.
    pub fn create_buy_order(
        &mut self,
        pair: PairIndex,
        buyer: A,
        volume: u128,
        ratio: u128,
        balance: u128,
        now: B,
    ) -> (r: Result<(BuyOrderIndex, Transfer<A>), ExchangeError>)
        requires
            old(self).wf(),
        ensures
            final(self).wf(),
            r is Err ==> *final(self) == *old(self),
            pair >= old(self).pair_list().len() ==> r == Err::<(BuyOrderIndex, Transfer<A>), ExchangeError>(
                ExchangeError::PairNotFound,
            ),
            pair < old(self).pair_list().len() ==> {
                let next = old(self).book_list()[pair as int].next_buy_id();
                &&& balance < volume ==> r == Err::<(BuyOrderIndex, Transfer<A>), ExchangeError>(
                    ExchangeError::InsufficientAmount,
                )
                &&& balance >= volume && next == u128::MAX ==> r == Err::<
                    (BuyOrderIndex, Transfer<A>),
                    ExchangeError,
                >(ExchangeError::Overflow)
                &&& balance >= volume && next < u128::MAX ==> r is Ok
            },
            r is Ok ==> {
                &&& final(self).only_books_differ(*old(self))
                &&& r->Ok_0.0 == old(self).book_list()[pair as int].next_buy_id()
                &&& r->Ok_0.1 == Transfer {
                    asset: Asset::Token(old(self).pair_list()[pair as int].base),
                    from: buyer,
                    to: old(self).operation(),
                    amount: volume,
                }
                &&& opened_buy(
                    old(self).book_list()[pair as int],
                    final(self).book_list()[pair as int],
                    BuyOrderInfo { order_id: r->Ok_0.0, pair, buyer, volume, ratio, created: now },
                )
                &&& final(self).book_list() == old(self).book_list().update(
                    pair as int,
                    final(self).book_list()[pair as int],
                )
            },
    {
        if pair >= self.pairs.len() as PairIndex {
            return Err(ExchangeError::PairNotFound);
        }
        let idx = pair as usize;
        let asset = Asset::Token(self.pairs[idx].base);
        open_buy(
            &mut self.books,
            pair,
            buyer,
            volume,
            ratio,
            balance,
            now,
            asset,
            self.account_operation,
        )
    }

    /// Opens a sell order on token pair `pair` for `seller`, whose balance of
    /// the pair's target token is `balance`. Returns the order's id and the
    /// transfer that reserves its volume on the operating account.
    pub fn create_sell_order(
        &mut self,
        pair: PairIndex,
        seller: A,
        volume: u128,
        ratio: u128,
        balance: u128,
        now: B,
    ) -> (r: Result<(SellOrderIndex, Transfer<A>), ExchangeError>)
        requires
            old(self).wf(),
        ensures
            final(self).wf(),
            r is Err ==> *final(self) == *old(self),
            pair >= old(self).pair_list().len() ==> r == Err::<(SellOrderIndex, Transfer<A>), ExchangeError>(
                ExchangeError::PairNotFound,
            ),
            pair < old(self).pair_list().len() ==> {
                let next = old(self).book_list()[pair as int].next_sell_id();
                &&& balance < volume ==> r == Err::<(SellOrderIndex, Transfer<A>), ExchangeError>(
                    ExchangeError::InsufficientAmount,
                )
                &&& balance >= volume && next == u128::MAX ==> r == Err::<
                    (SellOrderIndex, Transfer<A>),
                    ExchangeError,
                >(ExchangeError::Overflow)
                &&& balance >= volume && next < u128::MAX ==> r is Ok
            },
            r is Ok ==> {
                &&& final(self).only_books_differ(*old(self))
                &&& r->Ok_0.0 == old(self).book_list()[pair as int].next_sell_id()
                &&& r->Ok_0.1 == Transfer {
                    asset: Asset::Token(old(self).pair_list()[pair as int].target),
                    from: seller,
                    to: old(self).operation(),
                    amount: volume,
                }
                &&& opened_sell(
                    old(self).book_list()[pair as int],
                    final(self).book_list()[pair as int],
                    SellOrderInfo { order_id: r->Ok_0.0, pair, seller, volume, ratio, created: now },
                )
                &&& final(self).book_list() == old(self).book_list().update(
                    pair as int,
                    final(self).book_list()[pair as int],
                )
            },
    {
        if pair >= self.pairs.len() as PairIndex {
            return Err(ExchangeError::PairNotFound);
        }
        let idx = pair as usize;
        let asset = Asset::Token(self.pairs[idx].target);
        open_sell(
            &mut self.books,
            pair,
            seller,
            volume,
            ratio,
            balance,
            now,
            asset,
            self.account_operation,
        )
    }

    /// Opens a buy order on native pair `pair` for `buyer`, whose balance of
    /// the native currency is `balance`. Returns the order's id and the
    /// transfer that reserves its volume on the operating account.
    pub fn create_native_buy_order(
        &mut self,
        pair: PairIndex,
        buyer: A,
        volume: u128,
        ratio: u128,
        balance: u128,
        now: B,
    ) -> (r: Result<(BuyOrderIndex, Transfer<A>), ExchangeError>)
        requires
            old(self).wf(),
        ensures
            final(self).wf(),
            r is Err ==> *final(self) == *old(self),
            pair >= old(self).native_pair_list().len() ==> r == Err::<(BuyOrderIndex, Transfer<A>), ExchangeError>(
                ExchangeError::PairNotFound,
            ),
            pair < old(self).native_pair_list().len() ==> {
                let next = old(self).native_book_list()[pair as int].next_buy_id();
                &&& balance < volume ==> r == Err::<(BuyOrderIndex, Transfer<A>), ExchangeError>(
                    ExchangeError::InsufficientAmount,
                )
                &&& balance >= volume && next == u128::MAX ==> r == Err::<
                    (BuyOrderIndex, Transfer<A>),
                    ExchangeError,
                >(ExchangeError::Overflow)
                &&& balance >= volume && next < u128::MAX ==> r is Ok
            },
            r is Ok ==> {
                &&& final(self).only_native_books_differ(*old(self))
                &&& r->Ok_0.0 == old(self).native_book_list()[pair as int].next_buy_id()
                &&& r->Ok_0.1 == Transfer {
                    asset: Asset::Native,
                    from: buyer,
                    to: old(self).operation(),
                    amount: volume,
                }
                &&& opened_buy(
                    old(self).native_book_list()[pair as int],
                    final(self).native_book_list()[pair as int],
                    BuyOrderInfo { order_id: r->Ok_0.0, pair, buyer, volume, ratio, created: now },
                )
                &&& final(self).native_book_list() == old(self).native_book_list().update(
                    pair as int,
                    final(self).native_book_list()[pair as int],
                )
            },
    {
        if pair >= self.native_pairs.len() as PairIndex {
            return Err(ExchangeError::PairNotFound);
        }
        open_buy(
            &mut self.native_books,
            pair,
            buyer,
            volume,
            ratio,
            balance,
            now,
            Asset::Native,
            self.account_operation,
        )
    }

    /// Opens a sell order on native pair `pair` for `seller`, whose balance of
    /// the pair's target token is `balance`. Returns the order's id and the
    /// transfer that reserves its volume on the operating account.
    pub fn create_native_sell_order(
        &mut self,
        pair: PairIndex,
        seller: A,
        volume: u128,
        ratio: u128,
        balance: u128,
        now: B,
    ) -> (r: Result<(SellOrderIndex, Transfer<A>), ExchangeError>)
        requires
            old(self).wf(),
        ensures
            final(self).wf(),
            r is Err ==> *final(self) == *old(self),
            pair >= old(self).native_pair_list().len() ==> r == Err::<(SellOrderIndex, Transfer<A>), ExchangeError>(
                ExchangeError::PairNotFound,
            ),
            pair < old(self).native_pair_list().len() ==> {
                let next = old(self).native_book_list()[pair as int].next_sell_id();
                &&& balance < volume ==> r == Err::<(SellOrderIndex, Transfer<A>), ExchangeError>(
                    ExchangeError::InsufficientAmount,
                )
                &&& balance >= volume && next == u128::MAX ==> r == Err::<
                    (SellOrderIndex, Transfer<A>),
                    ExchangeError,
                >(ExchangeError::Overflow)
                &&& balance >= volume && next < u128::MAX ==> r is Ok
            },
            r is Ok ==> {
                &&& final(self).only_native_books_differ(*old(self))
                &&& r->Ok_0.0 == old(self).native_book_list()[pair as int].next_sell_id()
                &&& r->Ok_0.1 == Transfer {
                    asset: Asset::Token(old(self).native_pair_list()[pair as int].target),
                    from: seller,
                    to: old(self).operation(),
                    amount: volume,
                }
                &&& opened_sell(
                    old(self).native_book_list()[pair as int],
                    final(self).native_book_list()[pair as int],
                    SellOrderInfo { order_id: r->Ok_0.0, pair, seller, volume, ratio, created: now },
                )
                &&& final(self).native_book_list() == old(self).native_book_list().update(
                    pair as int,
                    final(self).native_book_list()[pair as int],
                )
            },
    {
        if pair >= self.native_pairs.len() as PairIndex {
            return Err(ExchangeError::PairNotFound);
        }
        let idx = pair as usize;
        let asset = Asset::Token(self.native_pairs[idx].target);
        open_sell(
            &mut self.native_books,
            pair,
            seller,
            volume,
            ratio,
            balance,
            now,
            asset,
            self.account_operation,
        )
    }

    /// Runs the tick of the token pairs: each pair in index order, a book
    /// whose pass fails its arithmetic left as it was and reported.
    pub fn match_orders(&mut self, now: B) -> (r: TickReport<A>)
        requires
            old(self).wf(),
        ensures
            final(self).wf(),
            final(self).only_books_differ(*old(self)),
            final(self).book_list().len() == old(self).book_list().len(),
            forall|k: int|
                0 <= k < old(self).book_list().len() ==> ticked(
                    old(self).book_list()[k],
                    #[trigger] final(self).book_list()[k],
                    k as PairIndex,
                    old(self).min_volume(),
                    now,
                ),
            r.transfers@ == market_transfers(
                old(self).book_list(),
                old(self).routes(),
                old(self).min_volume(),
                old(self).book_list().len() as int,
            ),
            r.aborted@ == market_aborted(
                old(self).book_list(),
                old(self).min_volume(),
                old(self).book_list().len() as int,
            ),
    {
        let mut routes: Vec<Settlement<A>> = Vec::new();
        let mut k: usize = 0;
        while k < self.pairs.len()
            invariant
                k <= self.pairs.len(),
                routes.len() == k,
                forall|m: int| 0 <= m < k ==> #[trigger] routes@[m] == self.routes()[m],
            decreases self.pairs.len() - k,
        {
            let p = self.pairs[k];
            routes.push(
                Settlement {
                    base_asset: Asset::Token(p.base),
                    target_asset: Asset::Token(p.target),
                    operation: self.account_operation,
                    vault: self.account_vault,
                },
            );
            k += 1;
        }
        proof {
            assert(routes@ =~= self.routes());
        }
        tick_market(&mut self.books, &routes, self.minimum_volume, now)
    }

    /// Runs the tick of the native pairs: each pair in index order, a book
    /// whose pass fails its arithmetic left as it was and reported.
    pub fn match_native_orders(&mut self, now: B) -> (r: TickReport<A>)
        requires
            old(self).wf(),
        ensures
            final(self).wf(),
            final(self).only_native_books_differ(*old(self)),
            final(self).native_book_list().len() == old(self).native_book_list().len(),
            forall|k: int|
                0 <= k < old(self).native_book_list().len() ==> ticked(
                    old(self).native_book_list()[k],
                    #[trigger] final(self).native_book_list()[k],
                    k as PairIndex,
                    old(self).min_volume(),
                    now,
                ),
            r.transfers@ == market_transfers(
                old(self).native_book_list(),
                old(self).native_routes(),
                old(self).min_volume(),
                old(self).native_book_list().len() as int,
            ),
            r.aborted@ == market_aborted(
                old(self).native_book_list(),
                old(self).min_volume(),
                old(self).native_book_list().len() as int,
            ),
    {
        let mut routes: Vec<Settlement<A>> = Vec::new();
        let mut k: usize = 0;
        while k < self.native_pairs.len()
            invariant
                k <= self.native_pairs.len(),
                routes.len() == k,
                forall|m: int| 0 <= m < k ==> #[trigger] routes@[m] == self.native_routes()[m],
            decreases self.native_pairs.len() - k,
        {
            let p = self.native_pairs[k];
            routes.push(
                Settlement {
                    base_asset: Asset::Native,
                    target_asset: Asset::Token(p.target),
                    operation: self.account_operation,
                    vault: self.account_vault,
                },
            );
            k += 1;
        }
        proof {
            assert(routes@ =~= self.native_routes());
        }
        tick_market(&mut self.native_books, &routes, self.minimum_volume, now)
    }

    /// The end of a tick: the native pairs are matched first, then the token
    /// pairs; the two reports come back in that order.
    pub fn on_tick(&mut self, now: B) -> (r: (TickReport<A>, TickReport<A>))
        requires
            old(self).wf(),
        ensures
            final(self).wf(),
            final(self).operation() == old(self).operation(),
            final(self).vault() == old(self).vault(),
            final(self).min_volume() == old(self).min_volume(),
            final(self).pair_list() == old(self).pair_list(),
            final(self).native_pair_list() == old(self).native_pair_list(),
            final(self).book_list().len() == old(self).book_list().len(),
            final(self).native_book_list().len() == old(self).native_book_list().len(),
            forall|k: int|
                0 <= k < old(self).native_book_list().len() ==> ticked(
                    old(self).native_book_list()[k],
                    #[trigger] final(self).native_book_list()[k],
                    k as PairIndex,
                    old(self).min_volume(),
                    now,
                ),
            forall|k: int|
                0 <= k < old(self).book_list().len() ==> ticked(
                    old(self).book_list()[k],
                    #[trigger] final(self).book_list()[k],
                    k as PairIndex,
                    old(self).min_volume(),
                    now,
                ),
            r.0.transfers@ == market_transfers(
                old(self).native_book_list(),
                old(self).native_routes(),
                old(self).min_volume(),
                old(self).native_book_list().len() as int,
            ),
            r.0.aborted@ == market_aborted(
                old(self).native_book_list(),
                old(self).min_volume(),
                old(self).native_book_list().len() as int,
            ),
            r.1.transfers@ == market_transfers(
                old(self).book_list(),
                old(self).routes(),
                old(self).min_volume(),
                old(self).book_list().len() as int,
            ),
            r.1.aborted@ == market_aborted(
                old(self).book_list(),
                old(self).min_volume(),
                old(self).book_list().len() as int,
            ),
    {
        let native = self.match_native_orders(now);
        let pairs = self.match_orders(now);
        (native, pairs)
    }

    /// An exchange with no pairs.
    pub fn new(account_operation: A, account_vault: A, minimum_volume: u128) -> (r: Self)
        ensures
            r.wf(),
            r.operation() == account_operation,
            r.vault() == account_vault,
            r.min_volume() == minimum_volume,
            r.pair_list().len() == 0,
            r.native_pair_list().len() == 0,
    {
        Exchange {
            account_operation,
            account_vault,
            minimum_volume,
            pairs: Vec::new(),
            books: Vec::new(),
            native_pairs: Vec::new(),
            native_books: Vec::new(),
        }
    }
}

} // verus!
