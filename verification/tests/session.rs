use rusty_bot::heartbeat::{ping_frame, Heartbeat, HeartbeatAction, HEARTBEAT_INTERVAL_MS};
use rusty_bot::session::{
    subscriptions_for, Feed, SessionAction, SessionEvent, SessionState, StreamSession,
    Subscription, SubscriptionEvent,
};

const EVENTS: [SessionEvent; 5] = [
    SessionEvent::HandshakeAccepted,
    SessionEvent::SubscribeStarted,
    SessionEvent::SubscribeSent,
    SessionEvent::CloseRequested,
    SessionEvent::TransportError,
];

fn session_in(state: SessionState) -> StreamSession {
    StreamSession { feed: Feed::Trade, state }
}

#[test]
fn session_starts_connecting() {
    let session = StreamSession::new(Feed::Account);
    assert_eq!(session.feed, Feed::Account);
    assert_eq!(session.state, SessionState::Connecting);
}

#[test]
fn session_goes_through_the_start_in_order() {
    let mut session = StreamSession::new(Feed::Trade);
    assert_eq!(session.on_event(SessionEvent::HandshakeAccepted), SessionAction::SendSubscriptions);
    assert_eq!(session.state, SessionState::Authenticated);
    assert_eq!(session.on_event(SessionEvent::SubscribeStarted), SessionAction::Nothing);
    assert_eq!(session.state, SessionState::Subscribing);
    assert_eq!(session.on_event(SessionEvent::SubscribeSent), SessionAction::StartTasks);
    assert_eq!(session.state, SessionState::Streaming);
    assert_eq!(session.on_event(SessionEvent::CloseRequested), SessionAction::Shutdown);
    assert_eq!(session.state, SessionState::Closed);
    assert_eq!(session.feed, Feed::Trade);
}

#[test]
fn session_ignores_events_out_of_order() {
    let mut session = session_in(SessionState::Connecting);
    assert_eq!(session.on_event(SessionEvent::SubscribeSent), SessionAction::Nothing);
    assert_eq!(session.on_event(SessionEvent::SubscribeStarted), SessionAction::Nothing);
    assert_eq!(session.state, SessionState::Connecting);
    let mut session = session_in(SessionState::Authenticated);
    assert_eq!(session.on_event(SessionEvent::HandshakeAccepted), SessionAction::Nothing);
    assert_eq!(session.on_event(SessionEvent::SubscribeSent), SessionAction::Nothing);
    assert_eq!(session.state, SessionState::Authenticated);
    let mut session = session_in(SessionState::Streaming);
    assert_eq!(session.on_event(SessionEvent::HandshakeAccepted), SessionAction::Nothing);
    assert_eq!(session.on_event(SessionEvent::SubscribeStarted), SessionAction::Nothing);
    assert_eq!(session.on_event(SessionEvent::SubscribeSent), SessionAction::Nothing);
    assert_eq!(session.state, SessionState::Streaming);
}

#[test]
fn transport_error_fails_every_running_session() {
    for state in [
        SessionState::Connecting,
        SessionState::Authenticated,
        SessionState::Subscribing,
        SessionState::Streaming,
    ] {
        let mut session = session_in(state);
        assert_eq!(session.on_event(SessionEvent::TransportError), SessionAction::Shutdown);
        assert_eq!(session.state, SessionState::Failed);
        let mut session = session_in(state);
        assert_eq!(session.on_event(SessionEvent::CloseRequested), SessionAction::Shutdown);
        assert_eq!(session.state, SessionState::Closed);
    }
}

#[test]
fn ended_sessions_stay_ended() {
    for state in [SessionState::Closed, SessionState::Failed] {
        for event in EVENTS {
            let mut session = session_in(state);
            assert_eq!(session.on_event(event), SessionAction::Nothing);
            assert_eq!(session.state, state);
        }
    }
}

#[test]
fn feeds_have_their_addresses() {
    assert_eq!(Feed::Trade.url(), "wss://api.valr.com/ws/trade");
    assert_eq!(Feed::Trade.path(), "/ws/trade");
    assert_eq!(Feed::Account.url(), "wss://api.valr.com/ws/account");
    assert_eq!(Feed::Account.path(), "/ws/account");
}

#[test]
fn subscription_events_have_their_names() {
    assert_eq!(SubscriptionEvent::NewTradeBucket.name(), "NEW_TRADE_BUCKET");
    assert_eq!(SubscriptionEvent::OrderbookSnapshot.name(), "OB_L1_D10_SNAPSHOT");
    assert_eq!(SubscriptionEvent::NewTrade.name(), "NEW_TRADE");
    assert_eq!(SubscriptionEvent::OrderStatusUpdate.name(), "ORDER_STATUS_UPDATE");
    assert_eq!(SubscriptionEvent::BalanceUpdate.name(), "BALANCE_UPDATE");
    assert_eq!(SubscriptionEvent::OpenOrdersUpdate.name(), "OPEN_ORDERS_UPDATE");
}

#[test]
fn trade_feed_subscribes_to_four_events() {
    assert_eq!(
        subscriptions_for(Feed::Trade, "BTCZAR"),
        vec![
            Subscription {
                event: SubscriptionEvent::NewTradeBucket,
                pairs: vec![String::from("BTCZAR")]
            },
            Subscription {
                event: SubscriptionEvent::OrderbookSnapshot,
                pairs: vec![String::from("BTCZAR")]
            },
            Subscription { event: SubscriptionEvent::NewTrade, pairs: vec![] },
            Subscription { event: SubscriptionEvent::OrderStatusUpdate, pairs: vec![] },
        ]
    );
}

#[test]
fn account_feed_subscribes_to_nothing() {
    assert_eq!(subscriptions_for(Feed::Account, "BTCZAR"), vec![]);
}

#[test]
fn heartbeat_interval_is_ten_seconds() {
    assert_eq!(HEARTBEAT_INTERVAL_MS, 10_000);
    assert_eq!(ping_frame(), "{\"type\":\"PING\"}");
}

#[test]
fn heartbeat_sleeps_until_the_interval_has_passed() {
    let mut heartbeat = Heartbeat::new(1_000_000);
    assert_eq!(heartbeat.poll(1_000_000), HeartbeatAction::Sleep { millis: 10_000 });
    assert_eq!(heartbeat.poll(1_004_000), HeartbeatAction::Sleep { millis: 6_000 });
    assert_eq!(heartbeat.poll(1_009_999), HeartbeatAction::Sleep { millis: 1 });
    assert_eq!(heartbeat.last_ping_ms, 1_000_000);
    assert_eq!(heartbeat.poll(1_010_000), HeartbeatAction::SendPing);
    assert_eq!(heartbeat.last_ping_ms, 1_010_000);
    assert_eq!(heartbeat.poll(1_010_001), HeartbeatAction::Sleep { millis: 9_999 });
    assert_eq!(heartbeat.poll(1_055_000), HeartbeatAction::SendPing);
    assert_eq!(heartbeat.last_ping_ms, 1_055_000);
}

#[test]
fn heartbeat_waits_a_whole_interval_when_the_clock_went_back() {
    let mut heartbeat = Heartbeat::new(1_000_000);
    assert_eq!(heartbeat.poll(999_000), HeartbeatAction::Sleep { millis: 10_000 });
    assert_eq!(heartbeat.poll(0), HeartbeatAction::Sleep { millis: 10_000 });
    assert_eq!(heartbeat.last_ping_ms, 1_000_000);
    assert_eq!(heartbeat.poll(u128::MAX), HeartbeatAction::SendPing);
}

#[test]
fn heartbeat_sends_after_the_sleep_it_asked_for() {
    let mut heartbeat = Heartbeat::new(5_000);
    let mut now: u128 = 5_000;
    let mut pings = Vec::new();
    for _ in 0..6 {
        match heartbeat.poll(now) {
            HeartbeatAction::SendPing => pings.push(now),
            HeartbeatAction::Sleep { millis } => now += u128::from(millis),
        }
    }
    assert_eq!(pings, vec![15_000, 25_000, 35_000]);
}
