//! Trading strategies that read the snapshot and decide.

use vstd::prelude::*;
use crate::rusty_bot_models::{BookLevel, MarkPriceBucket};
use crate::strategies::break_of_structure::{
    signal_for,
    test_for_break_of_structure,
    Signal,
    DEFAULT_WIDTH,
};
use crate::text::same_text;

pub mod break_of_structure;

verus! {

/// What came of running a strategy by its name.
#[derive(Clone, Copy, Debug, PartialEq, Eq, Structural)]
pub enum StrategyOutcome {
    /// No strategy has that name.
    Unsupported,
    /// The strategy ran and decided.
    Decided(Signal),
}

/// The outcome of the strategy named `strategy` on a snapshot. The one
/// strategy is `break_of_structure`, run at the default half-width.
pub open spec fn strategy_outcome(
    strategy: Seq<char>,
    buckets: Seq<MarkPriceBucket>,
    asks: Seq<BookLevel>,
    bids: Seq<BookLevel>,
) -> StrategyOutcome {
    if strategy == "break_of_structure"@ {
        StrategyOutcome::Decided(signal_for(buckets, asks, bids, DEFAULT_WIDTH as int))
    } else {
        StrategyOutcome::Unsupported
    }
}

/// Runs the strategy named `strategy` on the bucket history, oldest first,
/// and the two sides of the book, best price first.
pub fn execute_strategy(
    strategy: &str,
    bucket_prices: &[MarkPriceBucket],
    asks: &[BookLevel],
    bids: &[BookLevel],
) -> (outcome: StrategyOutcome)
    ensures
        outcome == strategy_outcome(strategy@, bucket_prices@, asks@, bids@),
{
    if same_text(strategy, "break_of_structure") {
        StrategyOutcome::Decided(
            test_for_break_of_structure(bucket_prices, asks, bids, DEFAULT_WIDTH),
        )
    } else {
        StrategyOutcome::Unsupported
    }
}

} // verus!
