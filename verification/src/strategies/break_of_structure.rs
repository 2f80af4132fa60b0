//! Break of structure: a swing high or low in the recent buckets that the
//! market has since moved through.
//!
//! With a half-width `w`, the window of `2w + 1` buckets that ends at the
//! newest bucket has its centre at index `len - w - 1`. For each offset `i`
//! from `1` up to but excluding `w`, the bucket at index `i`, counted from
//! the oldest bucket, is held against the buckets `i` places to the left and
//! to the right of the centre.

use vstd::prelude::*;
use crate::decimal::Decimal;
use crate::rusty_bot_models::{BookLevel, MarkPriceBucket};

verus! {

/// The half-width used where none is configured.
pub const DEFAULT_WIDTH: usize = 3;

/// What the strategy decides.
#[derive(Clone, Copy, Debug, PartialEq, Eq, Structural)]
pub enum Signal {
    /// Buy at the best ask.
    Buy { price: Decimal, quantity: Decimal },
    /// Sell at the best bid.
    Sell { price: Decimal, quantity: Decimal },
    /// Do nothing.
    Hold,
}

/// A high swing: the high is above the left neighbour's and not below the
/// right neighbour's.
pub open spec fn is_high_swing(
    current: MarkPriceBucket,
    left: MarkPriceBucket,
    right: MarkPriceBucket,
) -> bool {
    current.high@ > left.high@ && current.high@ >= right.high@
}

/// A low swing: the low is below the left neighbour's and not above the
/// right neighbour's.
pub open spec fn is_low_swing(
    current: MarkPriceBucket,
    left: MarkPriceBucket,
    right: MarkPriceBucket,
) -> bool {
    current.low@ < left.low@ && current.low@ <= right.low@
}

/// Whether `len` buckets hold a window with `width` buckets on each side of
/// its centre.
pub open spec fn window_formed(len: int, width: int) -> bool {
    len >= 2 * width + 1
}

/// The centre of the newest full window.
pub open spec fn center_index(len: int, width: int) -> int {
    len - width - 1
}

/// The high of the swing high at the greatest offset below `upto`, if there
/// is one at any offset from `1` on.
pub open spec fn swing_high_below(buckets: Seq<MarkPriceBucket>, width: int, upto: int) -> Option<
    Decimal,
>
    decreases upto,
{
    if upto <= 1 {
        None
    } else {
        let i = upto - 1;
        let center = center_index(buckets.len() as int, width);
        if is_high_swing(buckets[i], buckets[center - i], buckets[center + i]) {
            Some(buckets[i].high)
        } else {
            swing_high_below(buckets, width, i)
        }
    }
}

/// The low of the swing low at the greatest offset below `upto`, if there is
/// one at any offset from `1` on.
pub open spec fn swing_low_below(buckets: Seq<MarkPriceBucket>, width: int, upto: int) -> Option<
    Decimal,
>
    decreases upto,
{
    if upto <= 1 {
        None
    } else {
        let i = upto - 1;
        let center = center_index(buckets.len() as int, width);
        if is_low_swing(buckets[i], buckets[center - i], buckets[center + i]) {
            Some(buckets[i].low)
        } else {
            swing_low_below(buckets, width, i)
        }
    }
}

/// The decision for a bucket history, oldest first, and the two sides of
/// the book, best price first.
///
/// Without buckets, without a level on either side of the book or without a
/// full window the decision is `Hold`. A swing high that both the best bid
/// and the newest close lie above gives `Buy` at the best ask. Failing that,
/// a swing low that both the best ask and the newest close lie below gives
/// `Sell` at the best bid.
pub open spec fn signal_for(
    buckets: Seq<MarkPriceBucket>,
    asks: Seq<BookLevel>,
    bids: Seq<BookLevel>,
    width: int,
) -> Signal {
    if buckets.len() == 0 || asks.len() == 0 || bids.len() == 0 || !window_formed(
        buckets.len() as int,
        width,
    ) {
        Signal::Hold
    } else {
        let close = buckets.last().close@;
        let high = swing_high_below(buckets, width, width);
        let low = swing_low_below(buckets, width, width);
        if high is Some && bids[0].price@ > high->0@ && close > high->0@ {
            Signal::Buy { price: asks[0].price, quantity: asks[0].quantity }
        } else if low is Some && asks[0].price@ < low->0@ && close < low->0@ {
            Signal::Sell { price: bids[0].price, quantity: bids[0].quantity }
        } else {
            Signal::Hold
        }
    }
}

/// Whether `current` makes a high swing between `left` and `right`.
pub fn high_swing(current: &MarkPriceBucket, left: &MarkPriceBucket, right: &MarkPriceBucket) -> (r:
    bool)
    ensures
        r == is_high_swing(*current, *left, *right),
{
    current.high.units > left.high.units && current.high.units >= right.high.units
}

/// Whether `current` makes a low swing between `left` and `right`.
pub fn low_swing(current: &MarkPriceBucket, left: &MarkPriceBucket, right: &MarkPriceBucket) -> (r:
    bool)
    ensures
        r == is_low_swing(*current, *left, *right),
{
    current.low.units < left.low.units && current.low.units <= right.low.units
}

/// Looks for a break of structure in `bucket_prices`, oldest first, and
/// decides against the best ask and the best bid.
pub fn test_for_break_of_structure(
    bucket_prices: &[MarkPriceBucket],
    asks: &[BookLevel],
    bids: &[BookLevel],
    width: usize,
) -> (signal: Signal)
    ensures
        signal == signal_for(bucket_prices@, asks@, bids@, width as int),
{
    let len = bucket_prices.len();
    if len == 0 || asks.len() == 0 || bids.len() == 0 {
        return Signal::Hold;
    }
    if width >= len || len - width <= width {
        return Signal::Hold;
    }
    let center = len - width - 1;
    let previous_close = bucket_prices[len - 1].close;
    let mut swing_high: Option<Decimal> = None;
    let mut swing_low: Option<Decimal> = None;
    let mut i: usize = 1;
    while i < width
        invariant
            len == bucket_prices@.len(),
            len >= 2 * width + 1,
            center == center_index(len as int, width as int),
            1 <= i,
            i <= width || i == 1,
            swing_high == swing_high_below(bucket_prices@, width as int, i as int),
            swing_low == swing_low_below(bucket_prices@, width as int, i as int),
        decreases width - i,
    {
        let current = &bucket_prices[i];
        let left = &bucket_prices[center - i];
        let right = &bucket_prices[center + i];
        if high_swing(current, left, right) {
            swing_high = Some(current.high);
        }
        if low_swing(current, left, right) {
            swing_low = Some(current.low);
        }
        i = i + 1;
    }
    let best_ask = asks[0];
    let best_bid = bids[0];
    match swing_high {
        Some(high) => {
            if best_bid.price.units > high.units && previous_close.units > high.units {
                return Signal::Buy { price: best_ask.price, quantity: best_ask.quantity };
            }
        },
        None => {},
    }
    match swing_low {
        Some(low) => {
            if best_ask.price.units < low.units && previous_close.units < low.units {
                return Signal::Sell { price: best_bid.price, quantity: best_bid.quantity };
            }
        },
        None => {},
    }
    Signal::Hold
}

} // verus!
