//! Routes each message of a stream to the store and to the strategy.
//!
//! A message changes the store in one step or not at all: a message with a
//! number or a book level that cannot be read is skipped whole.

use vstd::prelude::*;
use crate::decimal::Decimal;
use crate::error::DecodeError;
use crate::rusty_bot_models::{
    balance_of_update,
    bucket_of_update,
    create_mark_price_bucket,
    decode_side,
    side_of,
    Balance,
    BalanceUpdate,
    BookLevel,
    DepthOrderBookSnapshot,
    MarkPriceBucket,
    Order,
    TradePriceBucketUpdate,
    WsMessage,
};
use crate::state_store::{
    lemma_upsert_balance_idempotent,
    lemma_upsert_bucket_idempotent,
    upsert_balance,
    upsert_bucket,
    StateStore,
    StoreView,
};
use crate::strategies::{execute_strategy, strategy_outcome, StrategyOutcome};
use crate::text::same_text;

verus! {

/// The one bucket period that is tracked; buckets of other periods are
/// discarded.
pub const TRACKED_PERIOD_SECONDS: u16 = 60;

/// The kinds of message, by the `type` tag of a frame.
#[derive(Clone, Copy, Debug, PartialEq, Eq, Structural)]
pub enum EventKind {
    BalanceUpdate,
    OpenOrdersUpdate,
    NewTradeBucket,
    OrderbookLvOneDepthOneSnapshot,
    OrderbookLvOneDepthTenSnapshot,
    Authenticated,
    Subscribed,
    Pong,
    Unsupported,
    /// A tag that names no kind of message.
    Unrecognized,
}

/// The kind of message that a tag names.
pub open spec fn kind_of(tag: Seq<char>) -> EventKind {
    if tag == "BALANCE_UPDATE"@ {
        EventKind::BalanceUpdate
    } else if tag == "OPEN_ORDERS_UPDATE"@ {
        EventKind::OpenOrdersUpdate
    } else if tag == "NEW_TRADE_BUCKET"@ {
        EventKind::NewTradeBucket
    } else if tag == "OB_L1_D1_SNAPSHOT"@ {
        EventKind::OrderbookLvOneDepthOneSnapshot
    } else if tag == "OB_L1_D10_SNAPSHOT"@ {
        EventKind::OrderbookLvOneDepthTenSnapshot
    } else if tag == "AUTHENTICATED"@ {
        EventKind::Authenticated
    } else if tag == "SUBSCRIBED"@ {
        EventKind::Subscribed
    } else if tag == "PONG"@ {
        EventKind::Pong
    } else if tag == "UNSUPPORTED"@ {
        EventKind::Unsupported
    } else {
        EventKind::Unrecognized
    }
}

/// Reads the kind of a message from the `type` tag of its frame. A tag that
/// names none is `Unrecognized`: such a frame is skipped.
pub fn event_kind(tag: &str) -> (kind: EventKind)
    ensures
        kind == kind_of(tag@),
{
    if same_text(tag, "BALANCE_UPDATE") {
        EventKind::BalanceUpdate
    } else if same_text(tag, "OPEN_ORDERS_UPDATE") {
        EventKind::OpenOrdersUpdate
    } else if same_text(tag, "NEW_TRADE_BUCKET") {
        EventKind::NewTradeBucket
    } else if same_text(tag, "OB_L1_D1_SNAPSHOT") {
        EventKind::OrderbookLvOneDepthOneSnapshot
    } else if same_text(tag, "OB_L1_D10_SNAPSHOT") {
        EventKind::OrderbookLvOneDepthTenSnapshot
    } else if same_text(tag, "AUTHENTICATED") {
        EventKind::Authenticated
    } else if same_text(tag, "SUBSCRIBED") {
        EventKind::Subscribed
    } else if same_text(tag, "PONG") {
        EventKind::Pong
    } else if same_text(tag, "UNSUPPORTED") {
        EventKind::Unsupported
    } else {
        EventKind::Unrecognized
    }
}

/// How a number moved against the one before it.
#[derive(Clone, Copy, Debug, PartialEq, Eq, Structural)]
pub enum Trend {
    Up,
    Down,
    Flat,
}

/// How the close, the high and the low of a new bucket moved against the
/// newest bucket stored before it.
#[derive(Clone, Copy, Debug, PartialEq, Eq, Structural)]
pub struct BucketTrend {
    pub close: Trend,
    pub high: Trend,
    pub low: Trend,
}

/// What a message led to.
#[derive(Debug, PartialEq, Eq)]
pub enum DispatchOutcome {
    /// A balance was stored.
    BalanceStored,
    /// The open orders of the account, handed on as they came.
    OpenOrders(Vec<Order>),
    /// A bucket of a period that is not tracked was discarded.
    BucketDiscarded,
    /// A bucket was stored and the strategy ran on the store that holds it.
    BucketApplied { trend: Option<BucketTrend>, decision: StrategyOutcome },
    /// Both sides of the book were replaced.
    BookReplaced,
    /// The exchange accepted the credentials.
    Authenticated,
    /// The exchange confirmed the subscriptions.
    Subscribed,
    /// The exchange answered a ping.
    Pong,
    /// The exchange refused a message as unsupported.
    Unsupported,
    /// The message could not be read and changed nothing.
    Skipped(DecodeError),
}

/// How `current` moved against `previous`.
pub open spec fn trend_of(previous: Decimal, current: Decimal) -> Trend {
    if previous@ < current@ {
        Trend::Up
    } else if previous@ > current@ {
        Trend::Down
    } else {
        Trend::Flat
    }
}

/// How `update` moved against the newest of `buckets`, if there is one.
pub open spec fn bucket_trend(buckets: Seq<MarkPriceBucket>, update: TradePriceBucketUpdate) -> Option<
    BucketTrend,
> {
    if buckets.len() == 0 {
        None
    } else {
        Some(
            BucketTrend {
                close: trend_of(buckets.last().close, update.close),
                high: trend_of(buckets.last().high, update.high),
                low: trend_of(buckets.last().low, update.low),
            },
        )
    }
}

/// The two sides that a snapshot denotes, or the error of its asks, or
/// failing that of its bids.
pub open spec fn book_of(snapshot: DepthOrderBookSnapshot) -> Result<
    (Seq<BookLevel>, Seq<BookLevel>),
    DecodeError,
> {
    match side_of(snapshot.asks@, snapshot.asks@.len() as int) {
        Err(e) => Err(e),
        Ok(asks) => match side_of(snapshot.bids@, snapshot.bids@.len() as int) {
            Err(e) => Err(e),
            Ok(bids) => Ok((asks, bids)),
        },
    }
}

/// The store after a snapshot of the book: both sides new, or nothing
/// changed.
pub open spec fn store_after_book(store: StoreView, snapshot: DepthOrderBookSnapshot) -> StoreView {
    match book_of(snapshot) {
        Ok(book) => StoreView { asks: book.0, bids: book.1, ..store },
        Err(_) => store,
    }
}

/// The store after an update of a balance: the balance upserted, or
/// nothing changed if an amount cannot be read.
pub open spec fn store_after_balance(store: StoreView, update: BalanceUpdate) -> StoreView {
    match balance_of_update(update) {
        Ok(balance) => StoreView { balances: upsert_balance(store.balances, balance), ..store },
        Err(_) => store,
    }
}

/// What an update of a balance leads to.
pub open spec fn outcome_of_balance(update: BalanceUpdate) -> DispatchOutcome {
    match balance_of_update(update) {
        Ok(_) => DispatchOutcome::BalanceStored,
        Err(e) => DispatchOutcome::Skipped(e),
    }
}

/// The store after a new bucket: the bucket upserted if it is of the tracked
/// period, else nothing changed.
pub open spec fn store_after_bucket(store: StoreView, update: TradePriceBucketUpdate) -> StoreView {
    if update.bucket_period_in_seconds == TRACKED_PERIOD_SECONDS {
        StoreView { buckets: upsert_bucket(store.buckets, bucket_of_update(update)), ..store }
    } else {
        store
    }
}

/// What a new bucket leads to: the strategy runs on the store that already
/// holds the bucket.
pub open spec fn outcome_of_bucket(
    store: StoreView,
    update: TradePriceBucketUpdate,
    strategy: Seq<char>,
) -> DispatchOutcome {
    if update.bucket_period_in_seconds == TRACKED_PERIOD_SECONDS {
        let after = store_after_bucket(store, update);
        DispatchOutcome::BucketApplied {
            trend: bucket_trend(store.buckets, update),
            decision: strategy_outcome(strategy, after.buckets, after.asks, after.bids),
        }
    } else {
        DispatchOutcome::BucketDiscarded
    }
}

/// What a snapshot of the book leads to.
pub open spec fn outcome_of_book(snapshot: DepthOrderBookSnapshot) -> DispatchOutcome {
    match book_of(snapshot) {
        Ok(_) => DispatchOutcome::BookReplaced,
        Err(e) => DispatchOutcome::Skipped(e),
    }
}

/// The store after a message.
pub open spec fn store_after(store: StoreView, message: WsMessage) -> StoreView {
    match message {
        WsMessage::BalanceUpdate(update) => store_after_balance(store, *update),
        WsMessage::NewTradeBucket(update) => store_after_bucket(store, *update),
        WsMessage::OrderbookLvOneDepthOneSnapshot(snapshot) => store_after_book(store, *snapshot),
        WsMessage::OrderbookLvOneDepthTenSnapshot(snapshot) => store_after_book(store, *snapshot),
        _ => store,
    }
}

/// What a message leads to on a store, with the strategy of that name.
pub open spec fn outcome_of(store: StoreView, message: WsMessage, strategy: Seq<char>) -> DispatchOutcome {
    match message {
        WsMessage::BalanceUpdate(update) => outcome_of_balance(*update),
        WsMessage::OpenOrdersUpdate(orders) => DispatchOutcome::OpenOrders(orders),
        WsMessage::NewTradeBucket(update) => outcome_of_bucket(store, *update, strategy),
        WsMessage::OrderbookLvOneDepthOneSnapshot(snapshot) => outcome_of_book(*snapshot),
        WsMessage::OrderbookLvOneDepthTenSnapshot(snapshot) => outcome_of_book(*snapshot),
        WsMessage::Authenticated => DispatchOutcome::Authenticated,
        WsMessage::Subscribed => DispatchOutcome::Subscribed,
        WsMessage::Pong => DispatchOutcome::Pong,
        WsMessage::Unsupported => DispatchOutcome::Unsupported,
    }
}

/// No message changes one side of the book alone: after a message both
/// sides are as before, or both are the sides of one snapshot.
pub proof fn lemma_book_changes_whole(store: StoreView, message: WsMessage)
    ensures
        ({
            let after = store_after(store, message);
            ||| after.asks == store.asks && after.bids == store.bids
            ||| exists|snapshot: DepthOrderBookSnapshot| #[trigger]
                book_of(snapshot) == Ok::<(Seq<BookLevel>, Seq<BookLevel>), DecodeError>(
                    (after.asks, after.bids),
                )
        }),
{
    // Where the book changes, the snapshot of the message is the one.
    let after = store_after(store, message);
    match message {
        WsMessage::OrderbookLvOneDepthOneSnapshot(snapshot) => {
            assert(book_of(*snapshot) is Ok ==> book_of(*snapshot) == Ok::<
                (Seq<BookLevel>, Seq<BookLevel>),
                DecodeError,
            >((after.asks, after.bids)));
        },
        WsMessage::OrderbookLvOneDepthTenSnapshot(snapshot) => {
            assert(book_of(*snapshot) is Ok ==> book_of(*snapshot) == Ok::<
                (Seq<BookLevel>, Seq<BookLevel>),
                DecodeError,
            >((after.asks, after.bids)));
        },
        _ => {},
    }
}

/// Handling the same message a second time leaves the store as the first
/// time left it.
pub proof fn lemma_replay_changes_nothing(store: StoreView, message: WsMessage)
    ensures
        store_after(store_after(store, message), message) == store_after(store, message),
{
    match message {
        WsMessage::BalanceUpdate(update) => {
            match balance_of_update(*update) {
                Ok(balance) => {
                    lemma_upsert_balance_idempotent(store.balances, balance);
                },
                Err(_) => {},
            }
        },
        WsMessage::NewTradeBucket(update) => {
            lemma_upsert_bucket_idempotent(store.buckets, bucket_of_update(*update));
        },
        _ => {},
    }
}

/// How `current` moved against `previous`.
pub fn trend(previous: Decimal, current: Decimal) -> (r: Trend)
    ensures
        r == trend_of(previous, current),
{
    if previous.units < current.units {
        Trend::Up
    } else if previous.units > current.units {
        Trend::Down
    } else {
        Trend::Flat
    }
}

/// Stores a balance that the account stream announced.
pub fn handle_balance_update(store: &mut StateStore, balance_update: &BalanceUpdate) -> (outcome:
    DispatchOutcome)
    ensures
        final(store)@ == store_after_balance(old(store)@, *balance_update),
        outcome == outcome_of_balance(*balance_update),
{
    match Balance::from_update(balance_update) {
        Ok(balance) => {
            store.upsert_balance(balance);
            DispatchOutcome::BalanceStored
        },
        Err(e) => DispatchOutcome::Skipped(e),
    }
}

/// Replaces both sides of the book by a snapshot, if both can be read.
pub fn handle_depth_snapshot(store: &mut StateStore, orderbook_data: &DepthOrderBookSnapshot) -> (outcome:
    DispatchOutcome)
    ensures
        final(store)@ == store_after_book(old(store)@, *orderbook_data),
        outcome == outcome_of_book(*orderbook_data),
{
    let asks = match decode_side(&orderbook_data.asks) {
        Ok(side) => side,
        Err(e) => {
            return DispatchOutcome::Skipped(e);
        },
    };
    let bids = match decode_side(&orderbook_data.bids) {
        Ok(side) => side,
        Err(e) => {
            return DispatchOutcome::Skipped(e);
        },
    };
    store.replace_orderbook(asks, bids);
    DispatchOutcome::BookReplaced
}

/// Stores a bucket of the tracked period and runs the strategy on the store
/// that holds it; discards a bucket of any other period.
pub fn handle_trade_price_bucket_update(
    store: &mut StateStore,
    trade_price_bucket_update: TradePriceBucketUpdate,
    strategy: &str,
) -> (outcome: DispatchOutcome)
    ensures
        final(store)@ == store_after_bucket(old(store)@, trade_price_bucket_update),
        outcome == outcome_of_bucket(old(store)@, trade_price_bucket_update, strategy@),
{
    if trade_price_bucket_update.bucket_period_in_seconds != TRACKED_PERIOD_SECONDS {
        return DispatchOutcome::BucketDiscarded;
    }
    let held = store.buckets();
    let n = held.len();
    let moved = if n == 0 {
        None
    } else {
        let last = &held[n - 1];
        Some(
            BucketTrend {
                close: trend(last.close, trade_price_bucket_update.close),
                high: trend(last.high, trade_price_bucket_update.high),
                low: trend(last.low, trade_price_bucket_update.low),
            },
        )
    };
    store.upsert_bucket(create_mark_price_bucket(trade_price_bucket_update));
    let decision = execute_strategy(
        strategy,
        store.buckets().as_slice(),
        store.asks().as_slice(),
        store.bids().as_slice(),
    );
    DispatchOutcome::BucketApplied { trend: moved, decision }
}

/// Routes one message: changes the store as `store_after` says and reports
/// what `outcome_of` says.
pub fn dispatch(store: &mut StateStore, message: WsMessage, strategy: &str) -> (outcome:
    DispatchOutcome)
    ensures
        final(store)@ == store_after(old(store)@, message),
        outcome == outcome_of(old(store)@, message, strategy@),
{
    match message {
        WsMessage::BalanceUpdate(update) => handle_balance_update(store, &*update),
        WsMessage::OpenOrdersUpdate(orders) => DispatchOutcome::OpenOrders(orders),
        WsMessage::NewTradeBucket(update) => handle_trade_price_bucket_update(
            store,
            *update,
            strategy,
        ),
        WsMessage::OrderbookLvOneDepthOneSnapshot(snapshot) => handle_depth_snapshot(
            store,
            &*snapshot,
        ),
        WsMessage::OrderbookLvOneDepthTenSnapshot(snapshot) => handle_depth_snapshot(
            store,
            &*snapshot,
        ),
        WsMessage::Authenticated => DispatchOutcome::Authenticated,
        WsMessage::Subscribed => DispatchOutcome::Subscribed,
        WsMessage::Pong => DispatchOutcome::Pong,
        WsMessage::Unsupported => DispatchOutcome::Unsupported,
    }
}

} // verus!
