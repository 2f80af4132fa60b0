use rusty_bot::decimal::Decimal;
use rusty_bot::rusty_bot_models::{BookLevel, MarkPriceBucket};
use rusty_bot::strategies::break_of_structure::{
    high_swing, low_swing, test_for_break_of_structure, Signal, DEFAULT_WIDTH,
};
use rusty_bot::strategies::{execute_strategy, StrategyOutcome};

fn number(text: &str) -> Decimal {
    Decimal::parse(text).unwrap()
}

fn bucket(index: usize, high: &str, low: &str, close: &str) -> MarkPriceBucket {
    MarkPriceBucket {
        currency_pair_symbol: String::from("BTCZAR"),
        bucket_period_in_seconds: 60,
        start_time: format!("2024-01-01T10:{:02}:00Z", index),
        open: number(close),
        high: number(high),
        low: number(low),
        close: number(close),
    }
}

fn level(price: &str, quantity: &str) -> BookLevel {
    BookLevel { price: number(price), quantity: number(quantity) }
}

fn with_highs(highs: [&str; 7], last_close: &str) -> Vec<MarkPriceBucket> {
    let mut buckets = Vec::new();
    for (index, high) in highs.iter().enumerate() {
        let close = if index == 6 { last_close } else { "0" };
        buckets.push(bucket(index, high, "0", close));
    }
    buckets
}

fn with_lows(lows: [&str; 7], last_close: &str) -> Vec<MarkPriceBucket> {
    let mut buckets = Vec::new();
    for (index, low) in lows.iter().enumerate() {
        let close = if index == 6 { last_close } else { "100" };
        buckets.push(bucket(index, "100", low, close));
    }
    buckets
}

#[test]
fn default_width_is_three() {
    assert_eq!(DEFAULT_WIDTH, 3);
}

#[test]
fn high_swing_is_strict_on_the_left_and_not_on_the_right() {
    let current = bucket(0, "3", "0", "0");
    assert!(high_swing(&current, &bucket(1, "1", "0", "0"), &bucket(2, "1", "0", "0")));
    assert!(high_swing(&current, &bucket(1, "2.999", "0", "0"), &bucket(2, "3", "0", "0")));
    assert!(!high_swing(&current, &bucket(1, "3", "0", "0"), &bucket(2, "1", "0", "0")));
    assert!(!high_swing(&current, &bucket(1, "4", "0", "0"), &bucket(2, "1", "0", "0")));
    assert!(!high_swing(&current, &bucket(1, "1", "0", "0"), &bucket(2, "3.001", "0", "0")));
}

#[test]
fn low_swing_is_strict_on_the_left_and_not_on_the_right() {
    let current = bucket(0, "9", "3", "0");
    assert!(low_swing(&current, &bucket(1, "9", "5", "0"), &bucket(2, "9", "5", "0")));
    assert!(low_swing(&current, &bucket(1, "9", "3.001", "0"), &bucket(2, "9", "3", "0")));
    assert!(!low_swing(&current, &bucket(1, "9", "3", "0"), &bucket(2, "9", "5", "0")));
    assert!(!low_swing(&current, &bucket(1, "9", "2", "0"), &bucket(2, "9", "5", "0")));
    assert!(!low_swing(&current, &bucket(1, "9", "5", "0"), &bucket(2, "9", "2.999", "0")));
}

#[test]
fn swing_high_in_seven_buckets_gives_buy_at_best_ask() {
    // Offset 2 holds bucket 2 (high 3) against bucket 1 (high 1) and bucket 5 (high 1).
    let buckets = with_highs(["5", "1", "3", "2", "3", "1", "9"], "8");
    let asks = [level("4.5", "0.25"), level("4.6", "1")];
    let bids = [level("4", "0.5"), level("3.9", "2")];
    assert_eq!(
        test_for_break_of_structure(&buckets, &asks, &bids, 3),
        Signal::Buy { price: number("4.5"), quantity: number("0.25") }
    );
}

#[test]
fn swing_high_needs_a_strictly_lower_left_neighbour() {
    // Bucket 1 now has the same high as bucket 2: no swing at offset 2.
    let buckets = with_highs(["5", "3", "3", "2", "3", "1", "9"], "8");
    let asks = [level("4.5", "0.25")];
    let bids = [level("4", "0.5")];
    assert_eq!(test_for_break_of_structure(&buckets, &asks, &bids, 3), Signal::Hold);
}

#[test]
fn swing_high_allows_an_equal_right_neighbour() {
    // Bucket 5 now has the same high as bucket 2: still a swing at offset 2.
    let buckets = with_highs(["5", "1", "3", "2", "3", "3", "9"], "8");
    let asks = [level("4.5", "0.25")];
    let bids = [level("4", "0.5")];
    assert_eq!(
        test_for_break_of_structure(&buckets, &asks, &bids, 3),
        Signal::Buy { price: number("4.5"), quantity: number("0.25") }
    );
}

#[test]
fn swing_high_fails_on_a_higher_right_neighbour() {
    let buckets = with_highs(["5", "1", "3", "2", "3", "3.5", "9"], "8");
    let asks = [level("4.5", "0.25")];
    let bids = [level("4", "0.5")];
    assert_eq!(test_for_break_of_structure(&buckets, &asks, &bids, 3), Signal::Hold);
}

#[test]
fn buy_needs_bid_and_close_above_the_swing_high() {
    let asks = [level("4.5", "0.25")];
    // The best bid is at the swing high, not above it.
    let buckets = with_highs(["5", "1", "3", "2", "3", "1", "9"], "8");
    assert_eq!(
        test_for_break_of_structure(&buckets, &asks, &[level("3", "0.5")], 3),
        Signal::Hold
    );
    // The newest close is at the swing high, not above it.
    let buckets = with_highs(["5", "1", "3", "2", "3", "1", "9"], "3");
    assert_eq!(
        test_for_break_of_structure(&buckets, &asks, &[level("4", "0.5")], 3),
        Signal::Hold
    );
}

#[test]
fn swing_low_in_seven_buckets_gives_sell_at_best_bid() {
    // Offset 2 holds bucket 2 (low 3) against bucket 1 (low 9) and bucket 5 (low 9).
    let buckets = with_lows(["5", "9", "3", "4", "3", "9", "1"], "2");
    let asks = [level("2.5", "0.25")];
    let bids = [level("2.4", "0.75")];
    assert_eq!(
        test_for_break_of_structure(&buckets, &asks, &bids, 3),
        Signal::Sell { price: number("2.4"), quantity: number("0.75") }
    );
}

#[test]
fn swing_low_boundaries() {
    let asks = [level("2.5", "0.25")];
    let bids = [level("2.4", "0.75")];
    // Equal left neighbour: no swing.
    let buckets = with_lows(["5", "3", "3", "4", "3", "9", "1"], "2");
    assert_eq!(test_for_break_of_structure(&buckets, &asks, &bids, 3), Signal::Hold);
    // Equal right neighbour: still a swing.
    let buckets = with_lows(["5", "9", "3", "4", "3", "3", "1"], "2");
    assert_eq!(
        test_for_break_of_structure(&buckets, &asks, &bids, 3),
        Signal::Sell { price: number("2.4"), quantity: number("0.75") }
    );
    // The best ask is at the swing low, not below it.
    let buckets = with_lows(["5", "9", "3", "4", "3", "9", "1"], "2");
    assert_eq!(
        test_for_break_of_structure(&buckets, &[level("3", "1")], &bids, 3),
        Signal::Hold
    );
    // The newest close is at the swing low, not below it.
    let buckets = with_lows(["5", "9", "3", "4", "3", "9", "1"], "3");
    assert_eq!(test_for_break_of_structure(&buckets, &asks, &bids, 3), Signal::Hold);
}

#[test]
fn buy_goes_before_sell() {
    // A swing high of 3 and a swing low of 3 at the same offset; the bid and
    // the close are above 3 and the ask is not below it.
    let mut buckets = Vec::new();
    let highs = ["5", "1", "3", "2", "3", "1", "9"];
    let lows = ["5", "9", "3", "4", "3", "9", "1"];
    for index in 0..7 {
        let close = if index == 6 { "8" } else { "0" };
        buckets.push(bucket(index, highs[index], lows[index], close));
    }
    assert_eq!(
        test_for_break_of_structure(&buckets, &[level("4.5", "1")], &[level("4", "2")], 3),
        Signal::Buy { price: number("4.5"), quantity: number("1") }
    );
}

#[test]
fn a_swing_at_the_first_offset_counts_when_the_second_has_none() {
    // Offset 1: bucket 1 (high 7) against bucket 2 (high 3) and bucket 4 (high 3).
    // Offset 2: bucket 2 (high 3) against bucket 1 (high 7): no swing.
    let buckets = with_highs(["5", "7", "3", "2", "3", "1", "9"], "8");
    let asks = [level("9", "1")];
    assert_eq!(
        test_for_break_of_structure(&buckets, &asks, &[level("7.5", "1")], 3),
        Signal::Buy { price: number("9"), quantity: number("1") }
    );
    assert_eq!(
        test_for_break_of_structure(&buckets, &asks, &[level("7", "1")], 3),
        Signal::Hold
    );
}

#[test]
fn the_widest_offset_with_a_swing_gives_the_level() {
    // Nine buckets, width 3, centre 5.
    // Offset 1: bucket 1 (high 5) against bucket 4 (high 1) and bucket 6 (high 1).
    // Offset 2: bucket 2 (high 6) against bucket 3 (high 1) and bucket 7 (high 1).
    let mut buckets = Vec::new();
    for (index, high) in ["0", "5", "6", "1", "1", "0", "1", "1", "0"].iter().enumerate() {
        let close = if index == 8 { "8" } else { "0" };
        buckets.push(bucket(index, high, "0", close));
    }
    let asks = [level("9", "1")];
    assert_eq!(
        test_for_break_of_structure(&buckets, &asks, &[level("5.5", "1")], 3),
        Signal::Hold
    );
    assert_eq!(
        test_for_break_of_structure(&buckets, &asks, &[level("6.5", "1")], 3),
        Signal::Buy { price: number("9"), quantity: number("1") }
    );
}

#[test]
fn no_book_or_no_buckets_gives_hold() {
    let buckets = with_highs(["5", "1", "3", "2", "3", "1", "9"], "8");
    let asks = [level("4.5", "0.25")];
    let bids = [level("4", "0.5")];
    assert_eq!(test_for_break_of_structure(&buckets, &[], &bids, 3), Signal::Hold);
    assert_eq!(test_for_break_of_structure(&buckets, &asks, &[], 3), Signal::Hold);
    assert_eq!(test_for_break_of_structure(&buckets, &[], &[], 3), Signal::Hold);
    assert_eq!(test_for_break_of_structure(&[], &asks, &bids, 3), Signal::Hold);
}

#[test]
fn a_history_shorter_than_the_window_gives_hold() {
    let buckets = with_highs(["5", "1", "3", "2", "3", "1", "9"], "8");
    let asks = [level("4.5", "0.25")];
    let bids = [level("4", "0.5")];
    for len in 0..7 {
        assert_eq!(test_for_break_of_structure(&buckets[..len], &asks, &bids, 3), Signal::Hold);
    }
    assert_eq!(test_for_break_of_structure(&buckets, &asks, &bids, 4), Signal::Hold);
    assert_eq!(test_for_break_of_structure(&buckets, &asks, &bids, usize::MAX), Signal::Hold);
}

#[test]
fn a_width_without_offsets_gives_hold() {
    let buckets = with_highs(["5", "1", "3", "2", "3", "1", "9"], "8");
    let asks = [level("4.5", "0.25")];
    let bids = [level("4", "0.5")];
    assert_eq!(test_for_break_of_structure(&buckets, &asks, &bids, 0), Signal::Hold);
    assert_eq!(test_for_break_of_structure(&buckets, &asks, &bids, 1), Signal::Hold);
}

#[test]
fn execute_strategy_runs_break_of_structure_by_name() {
    let buckets = with_highs(["5", "1", "3", "2", "3", "1", "9"], "8");
    let asks = [level("4.5", "0.25")];
    let bids = [level("4", "0.5")];
    assert_eq!(
        execute_strategy("break_of_structure", &buckets, &asks, &bids),
        StrategyOutcome::Decided(Signal::Buy { price: number("4.5"), quantity: number("0.25") })
    );
    assert_eq!(
        execute_strategy("break_of_structure", &buckets, &[], &bids),
        StrategyOutcome::Decided(Signal::Hold)
    );
}

#[test]
fn execute_strategy_refuses_other_names() {
    let buckets = with_highs(["5", "1", "3", "2", "3", "1", "9"], "8");
    let asks = [level("4.5", "0.25")];
    let bids = [level("4", "0.5")];
    assert_eq!(execute_strategy("", &buckets, &asks, &bids), StrategyOutcome::Unsupported);
    assert_eq!(
        execute_strategy("Break_Of_Structure", &buckets, &asks, &bids),
        StrategyOutcome::Unsupported
    );
    assert_eq!(execute_strategy("momentum", &buckets, &asks, &bids), StrategyOutcome::Unsupported);
}
