use rusty_bot::decimal::Decimal;
use rusty_bot::rusty_bot_models::{Balance, BookLevel, MarkPriceBucket};
use rusty_bot::state_store::StateStore;

fn number(text: &str) -> Decimal {
    Decimal::parse(text).unwrap()
}

fn bucket(start_time: &str, close: &str) -> MarkPriceBucket {
    MarkPriceBucket {
        currency_pair_symbol: String::from("BTCZAR"),
        bucket_period_in_seconds: 60,
        start_time: String::from(start_time),
        open: number("1"),
        high: number("2"),
        low: number("0.5"),
        close: number(close),
    }
}

fn level(price: &str, quantity: &str) -> BookLevel {
    BookLevel { price: number(price), quantity: number(quantity) }
}

fn balance(symbol: &str, total: &str) -> Balance {
    Balance {
        currency_symbol: String::from(symbol),
        available: number(total),
        reserved: number("0"),
        total: number(total),
    }
}

#[test]
fn new_store_is_empty() {
    let store = StateStore::new();
    assert!(store.buckets().is_empty());
    assert!(store.asks().is_empty());
    assert!(store.bids().is_empty());
    assert!(store.balances().is_empty());
    assert_eq!(store.best_ask(), None);
    assert_eq!(store.best_bid(), None);
    assert_eq!(store.last_close(), None);
    assert_eq!(store.balance_of("ZAR"), None);
}

#[test]
fn upsert_bucket_appends_a_new_start_time() {
    let mut store = StateStore::new();
    store.upsert_bucket(bucket("10:00", "1"));
    store.upsert_bucket(bucket("10:01", "2"));
    store.upsert_bucket(bucket("09:59", "3"));
    assert_eq!(
        store.buckets(),
        &vec![bucket("10:00", "1"), bucket("10:01", "2"), bucket("09:59", "3")]
    );
    assert_eq!(store.last_close(), Some(number("3")));
}

#[test]
fn upsert_bucket_replaces_in_place() {
    let mut store = StateStore::new();
    store.upsert_bucket(bucket("10:00", "1"));
    store.upsert_bucket(bucket("10:01", "2"));
    store.upsert_bucket(bucket("10:02", "3"));
    store.upsert_bucket(bucket("10:01", "7"));
    assert_eq!(
        store.buckets(),
        &vec![bucket("10:00", "1"), bucket("10:01", "7"), bucket("10:02", "3")]
    );
    store.upsert_bucket(bucket("10:00", "8"));
    store.upsert_bucket(bucket("10:02", "9"));
    assert_eq!(
        store.buckets(),
        &vec![bucket("10:00", "8"), bucket("10:01", "7"), bucket("10:02", "9")]
    );
}

#[test]
fn upsert_bucket_goes_by_start_time_alone() {
    let mut store = StateStore::new();
    store.upsert_bucket(bucket("10:00", "1"));
    let mut other = bucket("10:00", "5");
    other.currency_pair_symbol = String::from("ETHZAR");
    other.bucket_period_in_seconds = 300;
    store.upsert_bucket(other.clone());
    assert_eq!(store.buckets(), &vec![other]);
}

#[test]
fn upsert_bucket_twice_is_as_once() {
    let mut once = StateStore::new();
    once.upsert_bucket(bucket("10:00", "1"));
    once.upsert_bucket(bucket("10:01", "2"));
    let mut twice = StateStore::new();
    twice.upsert_bucket(bucket("10:00", "1"));
    twice.upsert_bucket(bucket("10:01", "2"));
    twice.upsert_bucket(bucket("10:01", "2"));
    assert_eq!(once.buckets(), twice.buckets());
    twice.upsert_bucket(bucket("10:00", "1"));
    assert_eq!(once.buckets(), twice.buckets());
}

#[test]
fn upsert_bucket_leaves_book_and_balances() {
    let mut store = StateStore::new();
    store.replace_orderbook(vec![level("10", "1")], vec![level("9", "2")]);
    store.upsert_balance(balance("ZAR", "100"));
    store.upsert_bucket(bucket("10:00", "1"));
    assert_eq!(store.asks(), &vec![level("10", "1")]);
    assert_eq!(store.bids(), &vec![level("9", "2")]);
    assert_eq!(store.balances(), &vec![balance("ZAR", "100")]);
}

#[test]
fn backfill_upserts_in_order() {
    let mut store = StateStore::new();
    store.upsert_bucket(bucket("10:01", "0"));
    store.backfill(&[
        bucket("10:00", "1"),
        bucket("10:01", "2"),
        bucket("10:02", "3"),
        bucket("10:00", "4"),
    ]);
    assert_eq!(
        store.buckets(),
        &vec![bucket("10:01", "2"), bucket("10:00", "4"), bucket("10:02", "3")]
    );
    store.backfill(&[]);
    assert_eq!(store.buckets().len(), 3);
}

#[test]
fn replace_orderbook_replaces_both_sides() {
    let mut store = StateStore::new();
    store.replace_orderbook(
        vec![level("10", "1"), level("11", "1")],
        vec![level("9", "2"), level("8", "2")],
    );
    assert_eq!(store.best_ask(), Some(level("10", "1")));
    assert_eq!(store.best_bid(), Some(level("9", "2")));
    store.replace_orderbook(vec![level("20", "3")], vec![level("19", "4")]);
    assert_eq!(store.asks(), &vec![level("20", "3")]);
    assert_eq!(store.bids(), &vec![level("19", "4")]);
    store.replace_orderbook(vec![], vec![]);
    assert_eq!(store.best_ask(), None);
    assert_eq!(store.best_bid(), None);
}

#[test]
fn replace_orderbook_leaves_buckets_and_balances() {
    let mut store = StateStore::new();
    store.upsert_bucket(bucket("10:00", "1"));
    store.upsert_balance(balance("ZAR", "100"));
    store.replace_orderbook(vec![level("10", "1")], vec![level("9", "2")]);
    assert_eq!(store.buckets(), &vec![bucket("10:00", "1")]);
    assert_eq!(store.balances(), &vec![balance("ZAR", "100")]);
}

#[test]
fn upsert_balance_keeps_the_latest_of_each_currency() {
    let mut store = StateStore::new();
    store.upsert_balance(balance("ZAR", "100"));
    store.upsert_balance(balance("BTC", "0.5"));
    store.upsert_balance(balance("ZAR", "250"));
    assert_eq!(store.balances(), &vec![balance("ZAR", "250"), balance("BTC", "0.5")]);
    assert_eq!(store.balance_of("ZAR"), Some(&balance("ZAR", "250")));
    assert_eq!(store.balance_of("BTC"), Some(&balance("BTC", "0.5")));
    assert_eq!(store.balance_of("ETH"), None);
    assert_eq!(store.balance_of("zar"), None);
}
