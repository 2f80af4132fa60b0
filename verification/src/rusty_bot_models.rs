//! The records that the exchange sends and the typed values made from them.

use vstd::prelude::*;
use crate::decimal::{decimal_of, Decimal};
use crate::error::DecodeError;
use crate::text::same_text;

verus! {

/// An open/high/low/close aggregate of one trading pair over one period.
#[derive(Debug, PartialEq, Eq)]
pub struct MarkPriceBucket {
    pub currency_pair_symbol: String,
    pub bucket_period_in_seconds: u16,
    pub start_time: String,
    pub open: Decimal,
    pub high: Decimal,
    pub low: Decimal,
    pub close: Decimal,
}

impl Clone for MarkPriceBucket {
    fn clone(&self) -> (r: Self)
        ensures
            r == *self,
    {
        MarkPriceBucket {
            currency_pair_symbol: self.currency_pair_symbol.clone(),
            bucket_period_in_seconds: self.bucket_period_in_seconds,
            start_time: self.start_time.clone(),
            open: self.open,
            high: self.high,
            low: self.low,
            close: self.close,
        }
    }
}

/// The bucket that the four price texts and the other fields make, or the
/// error if one of the texts is no decimal.
pub open spec fn bucket_of_texts(
    currency_pair_symbol: String,
    bucket_period_in_seconds: u16,
    start_time: String,
    open: Seq<char>,
    high: Seq<char>,
    low: Seq<char>,
    close: Seq<char>,
) -> Result<MarkPriceBucket, DecodeError> {
    match (decimal_of(open), decimal_of(high), decimal_of(low), decimal_of(close)) {
        (Some(open), Some(high), Some(low), Some(close)) => Ok(
            MarkPriceBucket {
                currency_pair_symbol,
                bucket_period_in_seconds,
                start_time,
                open,
                high,
                low,
                close,
            },
        ),
        _ => Err(DecodeError::InvalidDecimal),
    }
}

impl MarkPriceBucket {
    /// Makes a bucket from the fields as the exchange sends them, the prices
    /// as text.
    pub fn decode(
        currency_pair_symbol: String,
        bucket_period_in_seconds: u16,
        start_time: String,
        open: &str,
        high: &str,
        low: &str,
        close: &str,
    ) -> (r: Result<MarkPriceBucket, DecodeError>)
        ensures
            r == bucket_of_texts(
                currency_pair_symbol,
                bucket_period_in_seconds,
                start_time,
                open@,
                high@,
                low@,
                close@,
            ),
    {
        let open = match Decimal::parse(open) {
            Ok(d) => d,
            Err(e) => {
                return Err(e);
            },
        };
        let high = match Decimal::parse(high) {
            Ok(d) => d,
            Err(e) => {
                return Err(e);
            },
        };
        let low = match Decimal::parse(low) {
            Ok(d) => d,
            Err(e) => {
                return Err(e);
            },
        };
        let close = match Decimal::parse(close) {
            Ok(d) => d,
            Err(e) => {
                return Err(e);
            },
        };
        Ok(
            MarkPriceBucket {
                currency_pair_symbol,
                bucket_period_in_seconds,
                start_time,
                open,
                high,
                low,
                close,
            },
        )
    }
}

/// A price bucket as the trade stream announces it.
#[derive(Debug, PartialEq, Eq)]
pub struct TradePriceBucketUpdate {
    pub currency_pair_symbol: String,
    pub bucket_period_in_seconds: u16,
    pub start_time: String,
    pub open: Decimal,
    pub high: Decimal,
    pub low: Decimal,
    pub close: Decimal,
    pub volume: Decimal,
    pub quote_volume: Decimal,
}

/// The update that the six number texts and the other fields make, or the
/// error if one of the texts is no decimal.
pub open spec fn update_of_texts(
    currency_pair_symbol: String,
    bucket_period_in_seconds: u16,
    start_time: String,
    prices: (Seq<char>, Seq<char>, Seq<char>, Seq<char>),
    volume: Seq<char>,
    quote_volume: Seq<char>,
) -> Result<TradePriceBucketUpdate, DecodeError> {
    match (
        decimal_of(prices.0),
        decimal_of(prices.1),
        decimal_of(prices.2),
        decimal_of(prices.3),
        decimal_of(volume),
        decimal_of(quote_volume),
    ) {
        (Some(open), Some(high), Some(low), Some(close), Some(volume), Some(quote_volume)) => Ok(
            TradePriceBucketUpdate {
                currency_pair_symbol,
                bucket_period_in_seconds,
                start_time,
                open,
                high,
                low,
                close,
                volume,
                quote_volume,
            },
        ),
        _ => Err(DecodeError::InvalidDecimal),
    }
}

impl TradePriceBucketUpdate {
    /// Makes an update from the fields as the exchange sends them, the
    /// numbers as text, in the order open, high, low, close, volume, quote
    /// volume.
    pub fn decode(
        currency_pair_symbol: String,
        bucket_period_in_seconds: u16,
        start_time: String,
        open: &str,
        high: &str,
        low: &str,
        close: &str,
        volume: &str,
        quote_volume: &str,
    ) -> (r: Result<TradePriceBucketUpdate, DecodeError>)
        ensures
            r == update_of_texts(
                currency_pair_symbol,
                bucket_period_in_seconds,
                start_time,
                (open@, high@, low@, close@),
                volume@,
                quote_volume@,
            ),
    {
        let open = match Decimal::parse(open) {
            Ok(d) => d,
            Err(e) => {
                return Err(e);
            },
        };
        let high = match Decimal::parse(high) {
            Ok(d) => d,
            Err(e) => {
                return Err(e);
            },
        };
        let low = match Decimal::parse(low) {
            Ok(d) => d,
            Err(e) => {
                return Err(e);
            },
        };
        let close = match Decimal::parse(close) {
            Ok(d) => d,
            Err(e) => {
                return Err(e);
            },
        };
        let volume = match Decimal::parse(volume) {
            Ok(d) => d,
            Err(e) => {
                return Err(e);
            },
        };
        let quote_volume = match Decimal::parse(quote_volume) {
            Ok(d) => d,
            Err(e) => {
                return Err(e);
            },
        };
        Ok(
            TradePriceBucketUpdate {
                currency_pair_symbol,
                bucket_period_in_seconds,
                start_time,
                open,
                high,
                low,
                close,
                volume,
                quote_volume,
            },
        )
    }
}

/// The bucket that an update announces: the update without its volumes.
pub open spec fn bucket_of_update(update: TradePriceBucketUpdate) -> MarkPriceBucket {
    MarkPriceBucket {
        currency_pair_symbol: update.currency_pair_symbol,
        bucket_period_in_seconds: update.bucket_period_in_seconds,
        start_time: update.start_time,
        open: update.open,
        high: update.high,
        low: update.low,
        close: update.close,
    }
}

/// Turns an update of the trade stream into the bucket to store.
pub fn create_mark_price_bucket(trade_price_bucket_update: TradePriceBucketUpdate) -> (bucket:
    MarkPriceBucket)
    ensures
        bucket == bucket_of_update(trade_price_bucket_update),
{
    MarkPriceBucket {
        currency_pair_symbol: trade_price_bucket_update.currency_pair_symbol,
        bucket_period_in_seconds: trade_price_bucket_update.bucket_period_in_seconds,
        start_time: trade_price_bucket_update.start_time,
        open: trade_price_bucket_update.open,
        high: trade_price_bucket_update.high,
        low: trade_price_bucket_update.low,
        close: trade_price_bucket_update.close,
    }
}

/// One level of one side of the order book.
#[derive(Clone, Copy, Debug, PartialEq, Eq, Structural)]
pub struct BookLevel {
    pub price: Decimal,
    pub quantity: Decimal,
}

/// A snapshot of the top of the book as the exchange sends it: each level a
/// list of texts that starts with the price and the quantity.
#[derive(Clone, Debug, PartialEq, Eq)]
pub struct DepthOrderBookSnapshot {
    pub asks: Vec<Vec<String>>,
    pub bids: Vec<Vec<String>>,
    pub last_change: i64,
}

/// The level that a list of texts denotes.
///
/// A list of fewer than two texts is `ShortBookLevel`. Otherwise the first
/// two texts are the price and the quantity, and a text that is no decimal
/// is `InvalidDecimal`.
pub open spec fn level_of(entry: Seq<String>) -> Result<BookLevel, DecodeError> {
    if entry.len() < 2 {
        Err(DecodeError::ShortBookLevel)
    } else {
        match (decimal_of(entry[0]@), decimal_of(entry[1]@)) {
            (Some(price), Some(quantity)) => Ok(BookLevel { price, quantity }),
            _ => Err(DecodeError::InvalidDecimal),
        }
    }
}

/// The first `count` levels of `levels`, or the error of the first level
/// among them that denotes none.
pub open spec fn side_of(levels: Seq<Vec<String>>, count: int) -> Result<
    Seq<BookLevel>,
    DecodeError,
>
    decreases count,
{
    if count <= 0 {
        Ok(Seq::empty())
    } else {
        match side_of(levels, count - 1) {
            Err(e) => Err(e),
            Ok(done) => match level_of(levels[count - 1]@) {
                Ok(level) => Ok(done.push(level)),
                Err(e) => Err(e),
            },
        }
    }
}

/// Reads one level of the book from the texts that the exchange sends.
pub fn decode_level(entry: &Vec<String>) -> (r: Result<BookLevel, DecodeError>)
    ensures
        r == level_of(entry@),
{
    if entry.len() < 2 {
        return Err(DecodeError::ShortBookLevel);
    }
    let price = match Decimal::parse(entry[0].as_str()) {
        Ok(d) => d,
        Err(e) => {
            return Err(e);
        },
    };
    let quantity = match Decimal::parse(entry[1].as_str()) {
        Ok(d) => d,
        Err(e) => {
            return Err(e);
        },
    };
    Ok(BookLevel { price, quantity })
}

/// Reads one side of the book, best price first.
pub fn decode_side(levels: &Vec<Vec<String>>) -> (r: Result<Vec<BookLevel>, DecodeError>)
    ensures
        match r {
            Ok(side) => side_of(levels@, levels@.len() as int) == Ok::<Seq<BookLevel>, DecodeError>(
                side@,
            ),
            Err(e) => side_of(levels@, levels@.len() as int) == Err::<Seq<BookLevel>, DecodeError>(
                e,
            ),
        },
{
    let mut side: Vec<BookLevel> = Vec::new();
    let mut i: usize = 0;
    while i < levels.len()
        invariant
            i <= levels.len(),
            side_of(levels@, i as int) == Ok::<Seq<BookLevel>, DecodeError>(side@),
        decreases levels.len() - i,
    {
        match decode_level(&levels[i]) {
            Ok(level) => {
                side.push(level);
            },
            Err(e) => {
                proof {
                    lemma_side_error_stays(levels@, i + 1, levels@.len() as int);
                }
                return Err(e);
            },
        }
        i = i + 1;
    }
    Ok(side)
}

/// Once a level in the first `count` levels denotes none, no longer prefix
/// of the side denotes one either, and the error stays the same.
proof fn lemma_side_error_stays(levels: Seq<Vec<String>>, count: int, more: int)
    requires
        count <= more,
        side_of(levels, count) is Err,
    ensures
        side_of(levels, more) == side_of(levels, count),
    decreases more - count,
{
    if count < more {
        lemma_side_error_stays(levels, count, more - 1);
    }
}


/// A currency as the exchange describes it.
#[derive(Clone, Debug, PartialEq, Eq)]
pub struct Currency {
    pub symbol: String,
    pub decimal_places: u8,
    pub is_active: bool,
    pub short_name: String,
    pub long_name: String,
    pub supported_withdraw_decimal_places: u8,
    pub collateral: bool,
    pub collateral_weight: String,
}

/// A trading pair as the exchange describes it.
#[derive(Clone, Debug, PartialEq, Eq)]
pub struct CurrencyPair {
    pub symbol: String,
    pub base_currency: String,
    pub quote_currency: String,
    pub short_name: String,
    pub active: bool,
    pub min_base_amount: String,
    pub max_base_amount: String,
    pub min_quote_amount: String,
    pub max_quote_amount: String,
    pub tick_size: String,
    pub base_decimal_places: String,
    pub margin_trading_allowed: bool,
    pub currency_pair_type: String,
    pub initial_margin_fraction: Option<String>,
    pub maintenance_margin_fraction: Option<String>,
    pub auto_close_margin_fraction: Option<String>,
}

/// A change of one balance as the account stream announces it, the amounts
/// as text.
#[derive(Clone, Debug, PartialEq, Eq)]
pub struct BalanceUpdate {
    pub currency: Currency,
    pub available: String,
    pub reserved: String,
    pub total: String,
    pub updated_at: String,
    pub lend_reserved: String,
    pub borrow_reserved: Option<String>,
    pub borrowed_amount: String,
    pub total_in_reference: String,
    pub total_in_reference_weighted: String,
    pub reference_currency: String,
}

/// One aggregated entry of the order book.
#[derive(Clone, Debug, PartialEq, Eq)]
pub struct OrderBookEntry {
    pub currency_pair: String,
    pub order_count: i16,
    pub price: String,
    pub quantity: String,
    pub side: String,
}

/// An aggregated view of both sides of the order book.
#[derive(Clone, Debug, PartialEq, Eq)]
pub struct AggregatedOrderBookUpdate {
    pub asks: Vec<OrderBookEntry>,
    pub bids: Vec<OrderBookEntry>,
}

/// One order at one price level of the full order book.
#[derive(Clone, Debug, PartialEq, Eq)]
pub struct OrderLevelOrder {
    pub order_id: String,
    pub quantity: String,
}

/// One price level of the full order book.
#[derive(Clone, Debug, PartialEq, Eq)]
pub struct OrderLevel {
    pub price: String,
    pub orders: Vec<OrderLevelOrder>,
}

/// Both sides of the full order book.
#[derive(Clone, Debug, PartialEq, Eq)]
pub struct OrderBookData {
    pub last_change: u64,
    pub asks: Vec<OrderLevel>,
    pub bids: Vec<OrderLevel>,
    pub sn: u64,
    pub checksum: u64,
}

/// The full order book of one pair.
#[derive(Clone, Debug, PartialEq, Eq)]
pub struct OrderBookUpdate {
    pub pair: String,
    pub data: OrderBookData,
}

/// An order of the account.
#[derive(Debug, PartialEq, Eq)]
pub struct Order {
    pub order_id: String,
    pub side: String,
    pub remaining_quantity: Option<String>,
    pub price: String,
    pub currency_pair: String,
    pub created_at: String,
    pub original_quantity: String,
    pub filled_percentage: String,
    pub updated_at: String,
    pub status: String,
    pub order_type: String,
    pub time_in_force: String,
    pub allow_margin: bool,
}

impl Clone for Order {
    fn clone(&self) -> (r: Self)
        ensures
            r == *self,
    {
        Order {
            order_id: self.order_id.clone(),
            side: self.side.clone(),
            remaining_quantity: match &self.remaining_quantity {
                Some(quantity) => Some(quantity.clone()),
                None => None,
            },
            price: self.price.clone(),
            currency_pair: self.currency_pair.clone(),
            created_at: self.created_at.clone(),
            original_quantity: self.original_quantity.clone(),
            filled_percentage: self.filled_percentage.clone(),
            updated_at: self.updated_at.clone(),
            status: self.status.clone(),
            order_type: self.order_type.clone(),
            time_in_force: self.time_in_force.clone(),
            allow_margin: self.allow_margin,
        }
    }
}

/// The first `count` orders of `orders` that are of the pair `pair`, in
/// their order.
pub open spec fn orders_of_pair(orders: Seq<Order>, pair: Seq<char>, count: int) -> Seq<Order>
    decreases count,
{
    if count <= 0 {
        Seq::empty()
    } else if orders[count - 1].currency_pair@ == pair {
        orders_of_pair(orders, pair, count - 1).push(orders[count - 1])
    } else {
        orders_of_pair(orders, pair, count - 1)
    }
}

/// The orders of the pair `pair` among `orders`, in their order.
pub fn orders_for_pair(orders: &[Order], pair: &str) -> (r: Vec<Order>)
    ensures
        r@ == orders_of_pair(orders@, pair@, orders@.len() as int),
{
    let mut kept: Vec<Order> = Vec::new();
    let mut i: usize = 0;
    while i < orders.len()
        invariant
            i <= orders.len(),
            kept@ == orders_of_pair(orders@, pair@, i as int),
        decreases orders.len() - i,
    {
        if same_text(orders[i].currency_pair.as_str(), pair) {
            kept.push(orders[i].clone());
        }
        i = i + 1;
    }
    kept
}

/// The answer to a request for a new sub-account.
#[derive(Clone, Debug, PartialEq, Eq)]
pub struct SubAccountResponse {
    pub id: String,
}

/// What the account holds of one currency.
#[derive(Debug, PartialEq, Eq)]
pub struct Balance {
    pub currency_symbol: String,
    pub available: Decimal,
    pub reserved: Decimal,
    pub total: Decimal,
}

impl Clone for Balance {
    fn clone(&self) -> (r: Self)
        ensures
            r == *self,
    {
        Balance {
            currency_symbol: self.currency_symbol.clone(),
            available: self.available,
            reserved: self.reserved,
            total: self.total,
        }
    }
}

/// The balance that an update announces, or the error if one of the three
/// amounts is no decimal.
pub open spec fn balance_of_update(update: BalanceUpdate) -> Result<Balance, DecodeError> {
    match (decimal_of(update.available@), decimal_of(update.reserved@), decimal_of(update.total@)) {
        (Some(available), Some(reserved), Some(total)) => Ok(
            Balance { currency_symbol: update.currency.symbol, available, reserved, total },
        ),
        _ => Err(DecodeError::InvalidDecimal),
    }
}

impl Balance {
    /// Reads the balance that `update` announces.
    pub fn from_update(update: &BalanceUpdate) -> (r: Result<Balance, DecodeError>)
        ensures
            r == balance_of_update(*update),
    {
        let available = match Decimal::parse(update.available.as_str()) {
            Ok(d) => d,
            Err(e) => {
                return Err(e);
            },
        };
        let reserved = match Decimal::parse(update.reserved.as_str()) {
            Ok(d) => d,
            Err(e) => {
                return Err(e);
            },
        };
        let total = match Decimal::parse(update.total.as_str()) {
            Ok(d) => d,
            Err(e) => {
                return Err(e);
            },
        };
        Ok(
            Balance {
                currency_symbol: update.currency.symbol.clone(),
                available,
                reserved,
                total,
            },
        )
    }
}

/// A message of one of the two streams, by its `type` tag.
#[derive(Debug, PartialEq, Eq)]
pub enum WsMessage {
    /// `BALANCE_UPDATE`
    BalanceUpdate(Box<BalanceUpdate>),
    /// `OPEN_ORDERS_UPDATE`
    OpenOrdersUpdate(Vec<Order>),
    /// `NEW_TRADE_BUCKET`
    NewTradeBucket(Box<TradePriceBucketUpdate>),
    /// `OB_L1_D1_SNAPSHOT`
    OrderbookLvOneDepthOneSnapshot(Box<DepthOrderBookSnapshot>),
    /// `OB_L1_D10_SNAPSHOT`
    OrderbookLvOneDepthTenSnapshot(Box<DepthOrderBookSnapshot>),
    /// `AUTHENTICATED`
    Authenticated,
    /// `SUBSCRIBED`
    Subscribed,
    /// `PONG`
    Pong,
    /// `UNSUPPORTED`
    Unsupported,
}

} // verus!
