//! The lifecycle of one streaming session and what it subscribes to.
//!
//! A session goes from `Connecting` through `Authenticated` and
//! `Subscribing` to `Streaming`, and ends as `Closed` or, on a transport
//! error, as `Failed`. The session itself does no I/O: the task that owns
//! the transport reports what happened and is told what to do next.

use vstd::prelude::*;

verus! {

/// The two streams of the exchange.
#[derive(Clone, Copy, Debug, PartialEq, Eq, Structural)]
pub enum Feed {
    /// Price buckets and the order book of a pair.
    Trade,
    /// Balances and orders of the account.
    Account,
}

/// Where a session stands.
#[derive(Clone, Copy, Debug, PartialEq, Eq, Structural)]
pub enum SessionState {
    /// The signed handshake is under way.
    Connecting,
    /// The exchange accepted the handshake; nothing is subscribed yet.
    Authenticated,
    /// The subscriptions are being sent.
    Subscribing,
    /// The heartbeat and the dispatcher run.
    Streaming,
    /// The session was closed in good order.
    Closed,
    /// The transport failed; the session is not connected again.
    Failed,
}

/// What the owner of the transport reports.
#[derive(Clone, Copy, Debug, PartialEq, Eq, Structural)]
pub enum SessionEvent {
    /// The exchange accepted the handshake.
    HandshakeAccepted,
    /// The sending of the subscriptions began.
    SubscribeStarted,
    /// The subscriptions were sent.
    SubscribeSent,
    /// The session is to end, or the exchange closed it.
    CloseRequested,
    /// The transport failed for good.
    TransportError,
}

/// What the owner of the transport is to do.
#[derive(Clone, Copy, Debug, PartialEq, Eq, Structural)]
pub enum SessionAction {
    /// Nothing.
    Nothing,
    /// Send the subscriptions of the feed, once.
    SendSubscriptions,
    /// Start the heartbeat on the writing half and the dispatcher on the
    /// reading half.
    StartTasks,
    /// Stop the heartbeat and the dispatcher and close the transport.
    Shutdown,
}

/// Whether a session in `state` has ended.
pub open spec fn is_terminal(state: SessionState) -> bool {
    state == SessionState::Closed || state == SessionState::Failed
}

/// The state that follows `state` on `event`.
///
/// A session that has ended stays as it is. A transport error fails every
/// other session and a request to close closes it. The three steps of the
/// start follow each other in order; an event out of order changes nothing.
pub open spec fn next_state(state: SessionState, event: SessionEvent) -> SessionState {
    if is_terminal(state) {
        state
    } else {
        match (state, event) {
            (_, SessionEvent::TransportError) => SessionState::Failed,
            (_, SessionEvent::CloseRequested) => SessionState::Closed,
            (SessionState::Connecting, SessionEvent::HandshakeAccepted) => SessionState::Authenticated,
            (SessionState::Authenticated, SessionEvent::SubscribeStarted) => SessionState::Subscribing,
            (SessionState::Subscribing, SessionEvent::SubscribeSent) => SessionState::Streaming,
            _ => state,
        }
    }
}

/// What is to be done when `event` comes in `state`.
///
/// The subscriptions are sent when the handshake is accepted, the tasks are
/// started when the session enters `Streaming`, and everything is shut down
/// when a session that has not ended fails or closes.
pub open spec fn action_on(state: SessionState, event: SessionEvent) -> SessionAction {
    if is_terminal(state) {
        SessionAction::Nothing
    } else {
        match (state, event) {
            (_, SessionEvent::TransportError) => SessionAction::Shutdown,
            (_, SessionEvent::CloseRequested) => SessionAction::Shutdown,
            (SessionState::Connecting, SessionEvent::HandshakeAccepted) => SessionAction::SendSubscriptions,
            (SessionState::Subscribing, SessionEvent::SubscribeSent) => SessionAction::StartTasks,
            _ => SessionAction::Nothing,
        }
    }
}

/// A session that has ended never leaves its state and asks for nothing
/// more.
pub proof fn lemma_ended_sessions_stay(state: SessionState, event: SessionEvent)
    requires
        is_terminal(state),
    ensures
        next_state(state, event) == state,
        action_on(state, event) == SessionAction::Nothing,
{
}

/// A transport error fails every session that has not ended.
pub proof fn lemma_transport_error_fails(state: SessionState)
    requires
        !is_terminal(state),
    ensures
        next_state(state, SessionEvent::TransportError) == SessionState::Failed,
{
}

/// The tasks are started on entering `Streaming` and at no other time.
pub proof fn lemma_tasks_start_with_streaming(state: SessionState, event: SessionEvent)
    ensures
        action_on(state, event) == SessionAction::StartTasks <==> (state != SessionState::Streaming
            && next_state(state, event) == SessionState::Streaming),
{
}

/// A session of one feed.
#[derive(Clone, Copy, Debug, PartialEq, Eq, Structural)]
pub struct StreamSession {
    pub feed: Feed,
    pub state: SessionState,
}

impl StreamSession {
    /// A session of `feed` whose handshake is under way.
    pub fn new(feed: Feed) -> (session: StreamSession)
        ensures
            session == (StreamSession { feed, state: SessionState::Connecting }),
    {
        StreamSession { feed, state: SessionState::Connecting }
    }

    /// Takes an event: moves to `next_state` and says what `action_on` asks
    /// for.
    pub fn on_event(&mut self, event: SessionEvent) -> (action: SessionAction)
        ensures
            final(self).feed == old(self).feed,
            final(self).state == next_state(old(self).state, event),
            action == action_on(old(self).state, event),
    {
        let state = self.state;
        let ended = match state {
            SessionState::Closed => true,
            SessionState::Failed => true,
            _ => false,
        };
        if ended {
            return SessionAction::Nothing;
        }
        match event {
            SessionEvent::TransportError => {
                self.state = SessionState::Failed;
                SessionAction::Shutdown
            },
            SessionEvent::CloseRequested => {
                self.state = SessionState::Closed;
                SessionAction::Shutdown
            },
            SessionEvent::HandshakeAccepted => match state {
                SessionState::Connecting => {
                    self.state = SessionState::Authenticated;
                    SessionAction::SendSubscriptions
                },
                _ => SessionAction::Nothing,
            },
            SessionEvent::SubscribeStarted => match state {
                SessionState::Authenticated => {
                    self.state = SessionState::Subscribing;
                    SessionAction::Nothing
                },
                _ => SessionAction::Nothing,
            },
            SessionEvent::SubscribeSent => match state {
                SessionState::Subscribing => {
                    self.state = SessionState::Streaming;
                    SessionAction::StartTasks
                },
                _ => SessionAction::Nothing,
            },
        }
    }
}

/// The address of a feed.
pub open spec fn feed_url(feed: Feed) -> Seq<char> {
    match feed {
        Feed::Trade => "wss://api.valr.com/ws/trade"@,
        Feed::Account => "wss://api.valr.com/ws/account"@,
    }
}

/// The path of a feed, which is what the handshake signs.
pub open spec fn feed_path(feed: Feed) -> Seq<char> {
    match feed {
        Feed::Trade => "/ws/trade"@,
        Feed::Account => "/ws/account"@,
    }
}

impl Feed {
    /// The address of the feed.
    pub fn url(self) -> (url: &'static str)
        ensures
            url@ == feed_url(self),
    {
        match self {
            Feed::Trade => "wss://api.valr.com/ws/trade",
            Feed::Account => "wss://api.valr.com/ws/account",
        }
    }

    /// The path of the feed, which is what the handshake signs.
    pub fn path(self) -> (path: &'static str)
        ensures
            path@ == feed_path(self),
    {
        match self {
            Feed::Trade => "/ws/trade",
            Feed::Account => "/ws/account",
        }
    }
}

/// The events that a session can subscribe to.
#[derive(Clone, Copy, Debug, PartialEq, Eq, Structural)]
pub enum SubscriptionEvent {
    NewTradeBucket,
    OrderbookSnapshot,
    NewTrade,
    OrderStatusUpdate,
    BalanceUpdate,
    OpenOrdersUpdate,
}

/// The name of an event in a subscription.
pub open spec fn event_name(event: SubscriptionEvent) -> Seq<char> {
    match event {
        SubscriptionEvent::NewTradeBucket => "NEW_TRADE_BUCKET"@,
        SubscriptionEvent::OrderbookSnapshot => "OB_L1_D10_SNAPSHOT"@,
        SubscriptionEvent::NewTrade => "NEW_TRADE"@,
        SubscriptionEvent::OrderStatusUpdate => "ORDER_STATUS_UPDATE"@,
        SubscriptionEvent::BalanceUpdate => "BALANCE_UPDATE"@,
        SubscriptionEvent::OpenOrdersUpdate => "OPEN_ORDERS_UPDATE"@,
    }
}

impl SubscriptionEvent {
    /// The name of the event in a subscription.
    pub fn name(self) -> (name: &'static str)
        ensures
            name@ == event_name(self),
    {
        match self {
            SubscriptionEvent::NewTradeBucket => "NEW_TRADE_BUCKET",
            SubscriptionEvent::OrderbookSnapshot => "OB_L1_D10_SNAPSHOT",
            SubscriptionEvent::NewTrade => "NEW_TRADE",
            SubscriptionEvent::OrderStatusUpdate => "ORDER_STATUS_UPDATE",
            SubscriptionEvent::BalanceUpdate => "BALANCE_UPDATE",
            SubscriptionEvent::OpenOrdersUpdate => "OPEN_ORDERS_UPDATE",
        }
    }
}

/// One entry of a subscribe frame: an event and, where the event is of
/// pairs, the pairs of interest.
#[derive(Debug, PartialEq, Eq)]
pub struct Subscription {
    pub event: SubscriptionEvent,
    pub pairs: Vec<String>,
}

/// What a subscription holds.
pub struct SubscriptionView {
    pub event: SubscriptionEvent,
    pub pairs: Seq<Seq<char>>,
}

impl View for Subscription {
    type V = SubscriptionView;

    open spec fn view(&self) -> SubscriptionView {
        SubscriptionView { event: self.event, pairs: self.pairs@.map_values(|pair: String| pair@) }
    }
}

/// What a session of `feed` subscribes to for the pair `pair`.
///
/// The trade feed: new buckets and snapshots of the book of the pair, then
/// new trades and changes of order status. The account feed sends balances
/// and open orders unasked and is subscribed to nothing.
pub open spec fn subscriptions_of(feed: Feed, pair: Seq<char>) -> Seq<SubscriptionView> {
    match feed {
        Feed::Trade => seq![
            SubscriptionView { event: SubscriptionEvent::NewTradeBucket, pairs: seq![pair] },
            SubscriptionView { event: SubscriptionEvent::OrderbookSnapshot, pairs: seq![pair] },
            SubscriptionView { event: SubscriptionEvent::NewTrade, pairs: Seq::empty() },
            SubscriptionView { event: SubscriptionEvent::OrderStatusUpdate, pairs: Seq::empty() },
        ],
        Feed::Account => Seq::empty(),
    }
}

/// The subscriptions that a session of `feed` sends for the pair
/// `pair_symbol`, in the order of the frame.
pub fn subscriptions_for(feed: Feed, pair_symbol: &str) -> (r: Vec<Subscription>)
    ensures
        r@.map_values(|s: Subscription| s@) == subscriptions_of(feed, pair_symbol@),
{
    let mut subscriptions: Vec<Subscription> = Vec::new();
    match feed {
        Feed::Trade => {
            let mut bucket_pairs: Vec<String> = Vec::new();
            bucket_pairs.push(pair_symbol.to_owned());
            let mut book_pairs: Vec<String> = Vec::new();
            book_pairs.push(pair_symbol.to_owned());
            subscriptions.push(
                Subscription { event: SubscriptionEvent::NewTradeBucket, pairs: bucket_pairs },
            );
            subscriptions.push(
                Subscription { event: SubscriptionEvent::OrderbookSnapshot, pairs: book_pairs },
            );
            subscriptions.push(
                Subscription { event: SubscriptionEvent::NewTrade, pairs: Vec::new() },
            );
            subscriptions.push(
                Subscription { event: SubscriptionEvent::OrderStatusUpdate, pairs: Vec::new() },
            );
            proof {
                let views = subscriptions@.map_values(|s: Subscription| s@);
                assert(views[0].pairs =~= seq![pair_symbol@]);
                assert(views[1].pairs =~= seq![pair_symbol@]);
                assert(views[2].pairs =~= Seq::<Seq<char>>::empty());
                assert(views[3].pairs =~= Seq::<Seq<char>>::empty());
            }
        },
        Feed::Account => {},
    }
    subscriptions
}

} // verus!
