//! The snapshot that the streams write and the strategy reads: recent price
//! buckets, the top of the order book and the account's balances.
//!
//! A `StateStore` is changed only through `&mut self`, so no reader sees a
//! change half made. No two buckets of a store start at the same time and no
//! two balances are of the same currency.

use vstd::prelude::*;
use crate::decimal::Decimal;
use crate::rusty_bot_models::{Balance, BookLevel, MarkPriceBucket};
use crate::text::same_text;

verus! {

/// What a `StateStore` holds, as mathematical sequences.
#[verifier::ext_equal]
pub struct StoreView {
    /// The price buckets, in the order in which their start times first came.
    pub buckets: Seq<MarkPriceBucket>,
    /// The asks, best price first.
    pub asks: Seq<BookLevel>,
    /// The bids, best price first.
    pub bids: Seq<BookLevel>,
    /// The balances, in the order in which their currencies first came.
    pub balances: Seq<Balance>,
}

/// Index of the first bucket that starts at `start_time`, or the length of
/// `buckets` if none does.
pub open spec fn bucket_position(buckets: Seq<MarkPriceBucket>, start_time: Seq<char>) -> int
    decreases buckets.len(),
{
    if buckets.len() == 0 || buckets[0].start_time@ == start_time {
        0
    } else {
        1 + bucket_position(buckets.drop_first(), start_time)
    }
}

/// `buckets` with `bucket` in the place of the first bucket of the same
/// start time, or at the end if there is none.
pub open spec fn upsert_bucket(buckets: Seq<MarkPriceBucket>, bucket: MarkPriceBucket) -> Seq<
    MarkPriceBucket,
> {
    let at = bucket_position(buckets, bucket.start_time@);
    if at < buckets.len() {
        buckets.update(at, bucket)
    } else {
        buckets.push(bucket)
    }
}

/// `buckets` after the first `count` buckets of `incoming` were upserted in
/// order.
pub open spec fn upsert_buckets(
    buckets: Seq<MarkPriceBucket>,
    incoming: Seq<MarkPriceBucket>,
    count: int,
) -> Seq<MarkPriceBucket>
    decreases count,
{
    if count <= 0 {
        buckets
    } else {
        upsert_bucket(upsert_buckets(buckets, incoming, count - 1), incoming[count - 1])
    }
}

/// Index of the first balance of the currency `symbol`, or the length of
/// `balances` if there is none.
pub open spec fn balance_position(balances: Seq<Balance>, symbol: Seq<char>) -> int
    decreases balances.len(),
{
    if balances.len() == 0 || balances[0].currency_symbol@ == symbol {
        0
    } else {
        1 + balance_position(balances.drop_first(), symbol)
    }
}

/// `balances` with `balance` in the place of the first balance of the same
/// currency, or at the end if there is none.
pub open spec fn upsert_balance(balances: Seq<Balance>, balance: Balance) -> Seq<Balance> {
    let at = balance_position(balances, balance.currency_symbol@);
    if at < balances.len() {
        balances.update(at, balance)
    } else {
        balances.push(balance)
    }
}

/// No two buckets start at the same time.
pub open spec fn distinct_start_times(buckets: Seq<MarkPriceBucket>) -> bool {
    forall|i: int, j: int|
        0 <= i < j < buckets.len() ==> (#[trigger] buckets[i]).start_time@ != (
        #[trigger] buckets[j]).start_time@
}

/// No two balances are of the same currency.
pub open spec fn distinct_currencies(balances: Seq<Balance>) -> bool {
    forall|i: int, j: int|
        0 <= i < j < balances.len() ==> (#[trigger] balances[i]).currency_symbol@ != (
        #[trigger] balances[j]).currency_symbol@
}

impl StoreView {
    /// What every store keeps: one bucket per start time, one balance per
    /// currency.
    pub open spec fn well_formed(self) -> bool {
        distinct_start_times(self.buckets) && distinct_currencies(self.balances)
    }
}

/// `bucket_position` is within bounds, names a bucket of that start time
/// unless it is the length, and no earlier bucket has that start time.
pub proof fn lemma_bucket_position(buckets: Seq<MarkPriceBucket>, start_time: Seq<char>)
    ensures
        0 <= bucket_position(buckets, start_time) <= buckets.len(),
        bucket_position(buckets, start_time) < buckets.len() ==> buckets[bucket_position(
            buckets,
            start_time,
        )].start_time@ == start_time,
        forall|j: int|
            0 <= j < bucket_position(buckets, start_time) ==> (#[trigger] buckets[j]).start_time@
                != start_time,
    decreases buckets.len(),
{
    if buckets.len() == 0 || buckets[0].start_time@ == start_time {
    } else {
        let rest = buckets.drop_first();
        lemma_bucket_position(rest, start_time);
        assert forall|j: int| 0 <= j < bucket_position(buckets, start_time) implies (
        #[trigger] buckets[j]).start_time@ != start_time by {
            if j > 0 {
                assert(buckets[j] == rest[j - 1]);
            }
        }
    }
}

/// `balance_position` is within bounds, names a balance of that currency
/// unless it is the length, and no earlier balance is of that currency.
pub proof fn lemma_balance_position(balances: Seq<Balance>, symbol: Seq<char>)
    ensures
        0 <= balance_position(balances, symbol) <= balances.len(),
        balance_position(balances, symbol) < balances.len() ==> balances[balance_position(
            balances,
            symbol,
        )].currency_symbol@ == symbol,
        forall|j: int|
            0 <= j < balance_position(balances, symbol) ==> (
            #[trigger] balances[j]).currency_symbol@ != symbol,
    decreases balances.len(),
{
    if balances.len() == 0 || balances[0].currency_symbol@ == symbol {
    } else {
        let rest = balances.drop_first();
        lemma_balance_position(rest, symbol);
        assert forall|j: int| 0 <= j < balance_position(balances, symbol) implies (
        #[trigger] balances[j]).currency_symbol@ != symbol by {
            if j > 0 {
                assert(balances[j] == rest[j - 1]);
            }
        }
    }
}

/// A bucket with a start time that the store does not hold is appended. One
/// with a start time that it holds takes the place of the bucket of that
/// start time: the length stays, and so does every other bucket, in its
/// place.
pub proof fn lemma_upsert_appends_or_replaces(
    buckets: Seq<MarkPriceBucket>,
    bucket: MarkPriceBucket,
)
    ensures
        (forall|i: int|
            0 <= i < buckets.len() ==> (#[trigger] buckets[i]).start_time@ != bucket.start_time@)
            ==> upsert_bucket(buckets, bucket) == buckets.push(bucket),
        (exists|i: int|
            0 <= i < buckets.len() && (#[trigger] buckets[i]).start_time@ == bucket.start_time@)
            ==> {
            let at = bucket_position(buckets, bucket.start_time@);
            &&& 0 <= at < buckets.len()
            &&& buckets[at].start_time@ == bucket.start_time@
            &&& upsert_bucket(buckets, bucket).len() == buckets.len()
            &&& upsert_bucket(buckets, bucket)[at] == bucket
            &&& forall|j: int|
                0 <= j < buckets.len() && j != at ==> #[trigger] upsert_bucket(buckets, bucket)[j]
                    == buckets[j]
        },
{
    lemma_bucket_position(buckets, bucket.start_time@);
}

/// Upserting the same bucket a second time changes nothing.
pub proof fn lemma_upsert_bucket_idempotent(buckets: Seq<MarkPriceBucket>, bucket: MarkPriceBucket)
    ensures
        upsert_bucket(upsert_bucket(buckets, bucket), bucket) == upsert_bucket(buckets, bucket),
{
    let once = upsert_bucket(buckets, bucket);
    lemma_bucket_position(buckets, bucket.start_time@);
    lemma_bucket_position(once, bucket.start_time@);
    assert(once[bucket_position(buckets, bucket.start_time@)] == bucket);
}

/// Upserting keeps the start times distinct.
pub proof fn lemma_upsert_bucket_keeps_distinct(
    buckets: Seq<MarkPriceBucket>,
    bucket: MarkPriceBucket,
)
    requires
        distinct_start_times(buckets),
    ensures
        distinct_start_times(upsert_bucket(buckets, bucket)),
{
    lemma_bucket_position(buckets, bucket.start_time@);
}

/// Upserting a balance a second time changes nothing.
pub proof fn lemma_upsert_balance_idempotent(balances: Seq<Balance>, balance: Balance)
    ensures
        upsert_balance(upsert_balance(balances, balance), balance) == upsert_balance(
            balances,
            balance,
        ),
{
    let once = upsert_balance(balances, balance);
    lemma_balance_position(balances, balance.currency_symbol@);
    lemma_balance_position(once, balance.currency_symbol@);
    assert(once[balance_position(balances, balance.currency_symbol@)] == balance);
}

/// Upserting keeps the currencies distinct.
pub proof fn lemma_upsert_balance_keeps_distinct(balances: Seq<Balance>, balance: Balance)
    requires
        distinct_currencies(balances),
    ensures
        distinct_currencies(upsert_balance(balances, balance)),
{
    lemma_balance_position(balances, balance.currency_symbol@);
}

/// The shared snapshot of price history, top of book and balances.
pub struct StateStore {
    buckets: Vec<MarkPriceBucket>,
    asks: Vec<BookLevel>,
    bids: Vec<BookLevel>,
    balances: Vec<Balance>,
}

impl View for StateStore {
    type V = StoreView;

    closed spec fn view(&self) -> StoreView {
        StoreView {
            buckets: self.buckets@,
            asks: self.asks@,
            bids: self.bids@,
            balances: self.balances@,
        }
    }
}

impl StateStore {
    #[verifier::type_invariant]
    spec fn keeps_keys_distinct(self) -> bool {
        distinct_start_times(self.buckets@) && distinct_currencies(self.balances@)
    }

    /// A store that holds nothing.
    pub fn new() -> (store: StateStore)
        ensures
            store@.buckets.len() == 0,
            store@.asks.len() == 0,
            store@.bids.len() == 0,
            store@.balances.len() == 0,
            store@.well_formed(),
    {
        StateStore { buckets: Vec::new(), asks: Vec::new(), bids: Vec::new(), balances: Vec::new() }
    }

    /// Puts `bucket` in the place of the bucket of the same start time, or at
    /// the end if the store holds none of that start time.
    pub fn upsert_bucket(&mut self, bucket: MarkPriceBucket)
        ensures
            final(self)@.buckets == upsert_bucket(old(self)@.buckets, bucket),
            final(self)@.asks == old(self)@.asks,
            final(self)@.bids == old(self)@.bids,
            final(self)@.balances == old(self)@.balances,
            final(self)@.well_formed(),
    {
        proof {
            use_type_invariant(&*self);
            lemma_bucket_position(self.buckets@, bucket.start_time@);
        }
        // The vector is taken out while it changes and put back whole.
        let mut buckets: Vec<MarkPriceBucket> = Vec::new();
        core::mem::swap(&mut self.buckets, &mut buckets);
        let mut at: usize = 0;
        while at < buckets.len() && buckets[at].start_time != bucket.start_time
            invariant
                at <= buckets.len(),
                forall|j: int|
                    0 <= j < at ==> (#[trigger] buckets@[j]).start_time@ != bucket.start_time@,
            decreases buckets.len() - at,
        {
            at = at + 1;
        }
        if at < buckets.len() {
            buckets.set(at, bucket);
        } else {
            buckets.push(bucket);
        }
        core::mem::swap(&mut self.buckets, &mut buckets);
    }

    /// Upserts every bucket of `incoming`, in order: the history that is
    /// fetched once, before the streams start.
    pub fn backfill(&mut self, incoming: &[MarkPriceBucket])
        ensures
            final(self)@.buckets == upsert_buckets(
                old(self)@.buckets,
                incoming@,
                incoming@.len() as int,
            ),
            final(self)@.asks == old(self)@.asks,
            final(self)@.bids == old(self)@.bids,
            final(self)@.balances == old(self)@.balances,
            final(self)@.well_formed(),
    {
        proof {
            use_type_invariant(&*self);
        }
        let mut i: usize = 0;
        while i < incoming.len()
            invariant
                i <= incoming.len(),
                self@.buckets == upsert_buckets(old(self)@.buckets, incoming@, i as int),
                self@.asks == old(self)@.asks,
                self@.bids == old(self)@.bids,
                self@.balances == old(self)@.balances,
                self@.well_formed(),
            decreases incoming.len() - i,
        {
            self.upsert_bucket(incoming[i].clone());
            i = i + 1;
        }
    }

    /// Puts both sides of a new snapshot of the book in the place of the old
    /// ones, in one step.
    pub fn replace_orderbook(&mut self, asks: Vec<BookLevel>, bids: Vec<BookLevel>)
        ensures
            final(self)@.asks == asks@,
            final(self)@.bids == bids@,
            final(self)@.buckets == old(self)@.buckets,
            final(self)@.balances == old(self)@.balances,
            final(self)@.well_formed(),
    {
        proof {
            use_type_invariant(&*self);
        }
        self.asks = asks;
        self.bids = bids;
    }

    /// Puts `balance` in the place of the balance of the same currency, or at
    /// the end if the store holds none of that currency.
    pub fn upsert_balance(&mut self, balance: Balance)
        ensures
            final(self)@.balances == upsert_balance(old(self)@.balances, balance),
            final(self)@.buckets == old(self)@.buckets,
            final(self)@.asks == old(self)@.asks,
            final(self)@.bids == old(self)@.bids,
            final(self)@.well_formed(),
    {
        proof {
            use_type_invariant(&*self);
            lemma_balance_position(self.balances@, balance.currency_symbol@);
        }
        // The vector is taken out while it changes and put back whole.
        let mut balances: Vec<Balance> = Vec::new();
        core::mem::swap(&mut self.balances, &mut balances);
        let mut at: usize = 0;
        while at < balances.len() && balances[at].currency_symbol != balance.currency_symbol
            invariant
                at <= balances.len(),
                forall|j: int|
                    0 <= j < at ==> (#[trigger] balances@[j]).currency_symbol@
                        != balance.currency_symbol@,
            decreases balances.len() - at,
        {
            at = at + 1;
        }
        if at < balances.len() {
            balances.set(at, balance);
        } else {
            balances.push(balance);
        }
        core::mem::swap(&mut self.balances, &mut balances);
    }

    /// The price buckets, in the order in which their start times first came.
    pub fn buckets(&self) -> (r: &Vec<MarkPriceBucket>)
        ensures
            r@ == self@.buckets,
            self@.well_formed(),
    {
        proof {
            use_type_invariant(self);
        }
        &self.buckets
    }

    /// The asks, best price first.
    pub fn asks(&self) -> (r: &Vec<BookLevel>)
        ensures
            r@ == self@.asks,
    {
        &self.asks
    }

    /// The bids, best price first.
    pub fn bids(&self) -> (r: &Vec<BookLevel>)
        ensures
            r@ == self@.bids,
    {
        &self.bids
    }

    /// The balances, in the order in which their currencies first came.
    pub fn balances(&self) -> (r: &Vec<Balance>)
        ensures
            r@ == self@.balances,
            self@.well_formed(),
    {
        proof {
            use_type_invariant(self);
        }
        &self.balances
    }

    /// The best ask, if the book has one.
    pub fn best_ask(&self) -> (r: Option<BookLevel>)
        ensures
            r == (if self@.asks.len() > 0 {
                Some(self@.asks[0])
            } else {
                None
            }),
    {
        if self.asks.len() > 0 {
            Some(self.asks[0])
        } else {
            None
        }
    }

    /// The best bid, if the book has one.
    pub fn best_bid(&self) -> (r: Option<BookLevel>)
        ensures
            r == (if self@.bids.len() > 0 {
                Some(self@.bids[0])
            } else {
                None
            }),
    {
        if self.bids.len() > 0 {
            Some(self.bids[0])
        } else {
            None
        }
    }

    /// The close of the newest bucket, if the store holds a bucket.
    pub fn last_close(&self) -> (r: Option<Decimal>)
        ensures
            r == (if self@.buckets.len() > 0 {
                Some(self@.buckets.last().close)
            } else {
                None
            }),
    {
        let n = self.buckets.len();
        if n > 0 {
            Some(self.buckets[n - 1].close)
        } else {
            None
        }
    }

    /// The balance of the currency `symbol`, if the store holds one.
    pub fn balance_of(&self, symbol: &str) -> (r: Option<&Balance>)
        ensures
            match r {
                Some(balance) => {
                    &&& balance_position(self@.balances, symbol@) < self@.balances.len()
                    &&& *balance == self@.balances[balance_position(self@.balances, symbol@)]
                },
                None => balance_position(self@.balances, symbol@) == self@.balances.len(),
            },
    {
        proof {
            lemma_balance_position(self.balances@, symbol@);
        }
        let mut at: usize = 0;
        while at < self.balances.len()
            invariant
                at <= self.balances.len(),
                forall|j: int|
                    0 <= j < at ==> (#[trigger] self.balances@[j]).currency_symbol@ != symbol@,
            decreases self.balances.len() - at,
        {
            if same_text(self.balances[at].currency_symbol.as_str(), symbol) {
                proof {
                    lemma_balance_position(self.balances@, symbol@);
                }
                return Some(&self.balances[at]);
            }
            at = at + 1;
        }
        None
    }
}

} // verus!
