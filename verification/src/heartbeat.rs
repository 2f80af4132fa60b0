//! The keepalive of a streaming session: one ping every ten seconds.
//!
//! The heartbeat does not wait by itself. Asked at a time, it says whether
//! a ping is due or for how long to sleep; the task that owns the writing
//! half of the stream sends and sleeps. A ping that could not be sent is not
//! sent again: the next one is due an interval later.

use vstd::prelude::*;

verus! {

/// The time between two pings, in milliseconds.
pub const HEARTBEAT_INTERVAL_MS: u64 = 10_000;

/// What the heartbeat task does next.
#[derive(Clone, Copy, Debug, PartialEq, Eq, Structural)]
pub enum HeartbeatAction {
    /// Send the ping frame now.
    SendPing,
    /// Sleep for so many milliseconds, then ask again.
    Sleep { millis: u64 },
}

/// The time of the last ping, or of the start if none was sent yet.
#[derive(Clone, Copy, Debug, PartialEq, Eq, Structural)]
pub struct Heartbeat {
    /// Milliseconds since the Unix epoch.
    pub last_ping_ms: u128,
}

/// The milliseconds from `since` to `now`, none if the clock went back.
pub open spec fn elapsed_ms(since: u128, now: u128) -> int {
    if now >= since {
        now - since
    } else {
        0
    }
}

/// Whether a ping is due at `now`.
pub open spec fn ping_due(heartbeat: Heartbeat, now: u128) -> bool {
    elapsed_ms(heartbeat.last_ping_ms, now) >= HEARTBEAT_INTERVAL_MS
}

/// What is done at `now`: a ping if one is due, else sleep for the rest of
/// the interval.
pub open spec fn action_at(heartbeat: Heartbeat, now: u128) -> HeartbeatAction {
    if ping_due(heartbeat, now) {
        HeartbeatAction::SendPing
    } else {
        HeartbeatAction::Sleep {
            millis: (HEARTBEAT_INTERVAL_MS - elapsed_ms(heartbeat.last_ping_ms, now)) as u64,
        }
    }
}

/// The heartbeat after it was asked at `now`: a ping that is due is counted
/// as sent at `now`.
pub open spec fn heartbeat_after(heartbeat: Heartbeat, now: u128) -> Heartbeat {
    if ping_due(heartbeat, now) {
        Heartbeat { last_ping_ms: now }
    } else {
        heartbeat
    }
}

/// After a ping at `now` no other ping is due before an interval has
/// passed.
pub proof fn lemma_pings_are_an_interval_apart(heartbeat: Heartbeat, now: u128, later: u128)
    requires
        ping_due(heartbeat, now),
        ping_due(heartbeat_after(heartbeat, now), later),
    ensures
        later - now >= HEARTBEAT_INTERVAL_MS,
{
}

/// Asked again after the sleep that it asked for, the heartbeat asks for a
/// ping, unless the clock went back in between.
pub proof fn lemma_ping_follows_sleep(heartbeat: Heartbeat, now: u128, millis: u64)
    requires
        heartbeat.last_ping_ms <= now,
        now + millis <= u128::MAX,
        action_at(heartbeat, now) == (HeartbeatAction::Sleep { millis }),
    ensures
        action_at(heartbeat_after(heartbeat, now), (now + millis) as u128)
            == HeartbeatAction::SendPing,
{
}

impl Heartbeat {
    /// A heartbeat started at `now_ms`: the first ping is due an interval
    /// later.
    pub fn new(now_ms: u128) -> (heartbeat: Heartbeat)
        ensures
            heartbeat.last_ping_ms == now_ms,
    {
        Heartbeat { last_ping_ms: now_ms }
    }

    /// Decides at `now_ms`. If an interval or more has passed since the last
    /// ping, a ping is due and `now_ms` becomes the time of the last ping.
    /// Otherwise nothing changes and the answer is to sleep for the rest of
    /// the interval.
    pub fn poll(&mut self, now_ms: u128) -> (action: HeartbeatAction)
        ensures
            action == action_at(*old(self), now_ms),
            *final(self) == heartbeat_after(*old(self), now_ms),
    {
        let elapsed: u128 = if now_ms >= self.last_ping_ms {
            now_ms - self.last_ping_ms
        } else {
            0
        };
        if elapsed >= HEARTBEAT_INTERVAL_MS as u128 {
            self.last_ping_ms = now_ms;
            HeartbeatAction::SendPing
        } else {
            HeartbeatAction::Sleep { millis: HEARTBEAT_INTERVAL_MS - elapsed as u64 }
        }
    }
}

/// The frame that is sent as a ping.
pub fn ping_frame() -> (frame: &'static str)
    ensures
        frame@ == "{\"type\":\"PING\"}"@,
{
    "{\"type\":\"PING\"}"
}

} // verus!
