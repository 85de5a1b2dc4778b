//! The health of channels over time: what clients are told, and when a channel
//! is restarted.

use crate::gateway::protocol::{EventFrame, EventType};
use crate::gateway::rate_limit::elapsed;
use crate::json::{JsonObject, JsonValue, JsonView};
use crate::message::HealthStatus;
use crate::text::str_eq;
use crate::types::ChannelId;
use vstd::prelude::*;

verus! {

/// The time between two checks where the configuration names none, in seconds.
pub const DEFAULT_CHECK_INTERVAL_SECS: u64 = 300;

/// The time after the start before the first check, in seconds.
pub const STARTUP_GRACE_SECS: u64 = 60;

/// The shortest time between two restarts of a channel, in seconds.
pub const RESTART_COOLDOWN_SECS: u64 = 600;

/// The restarts of a channel within an hour.
pub const MAX_RESTARTS_PER_HOUR: usize = 6;

/// What is known of a channel. Times are nanoseconds on one monotonic clock.
#[derive(Debug)]
pub struct ChannelHealth {
    pub last_status: Option<HealthStatus>,
    pub last_restart_at: Option<u64>,
    pub restart_history: Vec<u64>,
}

/// The restarts within the last hour, in order.
pub open spec fn recent(history: Seq<u64>, now: u64) -> Seq<u64>
    decreases history.len(),
{
    if history.len() == 0 {
        Seq::empty()
    } else if history.last() > now - 3_600_000_000_000 {
        recent(history.drop_last(), now).push(history.last())
    } else {
        recent(history.drop_last(), now)
    }
}

/// True when a channel may not be restarted again so soon.
pub open spec fn cooling(last_restart_at: Option<u64>, now: u64) -> bool {
    last_restart_at is Some && elapsed(last_restart_at->0, now) < 600_000_000_000
}

/// True of two statuses that a client would see as one.
pub open spec fn same_status(a: HealthStatus, b: HealthStatus) -> bool {
    match (a, b) {
        (HealthStatus::Connected, HealthStatus::Connected) => true,
        (HealthStatus::NotConfigured, HealthStatus::NotConfigured) => true,
        (HealthStatus::Degraded { reason: x }, HealthStatus::Degraded { reason: y }) => x@ == y@,
        (HealthStatus::Disconnected { reason: x }, HealthStatus::Disconnected { reason: y }) => x@
            == y@,
        _ => false,
    }
}

/// True when the status differs from the last one that was seen.
pub open spec fn changed(last: Option<HealthStatus>, status: HealthStatus) -> bool {
    match last {
        None => true,
        Some(old_status) => !same_status(old_status, status),
    }
}

/// True of a channel that needs attention.
pub fn is_unhealthy(status: &HealthStatus) -> (r: bool)
    ensures
        r == (status is Disconnected),
{
    matches!(status, HealthStatus::Disconnected { .. })
}

/// What to do after a check.
#[derive(Clone, Copy, Debug, PartialEq, Eq, Structural)]
pub struct HealthStep {
    /// Clients are told of the new status.
    pub announce: bool,
    /// The channel is restarted.
    pub restart: bool,
}

impl ChannelHealth {
    /// A channel that was not checked yet.
    pub fn new() -> (r: ChannelHealth)
        ensures
            r.last_status is None,
            r.last_restart_at is None,
            r.restart_history@.len() == 0,
    {
        ChannelHealth { last_status: None, last_restart_at: None, restart_history: Vec::new() }
    }

    /// True when a restart is granted at `now`: not within ten minutes of the
    /// last one, and not more than six within an hour.
    pub open spec fn may_restart(&self, now: u64) -> bool {
        !cooling(self.last_restart_at, now) && recent(self.restart_history@, now).len()
            < MAX_RESTARTS_PER_HOUR
    }

    /// The restarts that are remembered after one was asked for at `now`.
    pub open spec fn history_after(&self, now: u64) -> Seq<u64> {
        if cooling(self.last_restart_at, now) {
            self.restart_history@
        } else if self.may_restart(now) {
            recent(self.restart_history@, now).push(now)
        } else {
            recent(self.restart_history@, now)
        }
    }

    /// Notes a restart at `now`, where it is granted.
    pub fn try_restart(&mut self, now: u64) -> (r: bool)
        ensures
            r == old(self).may_restart(now),
            final(self).last_status == old(self).last_status,
            final(self).last_restart_at == if r {
                Some(now)
            } else {
                old(self).last_restart_at
            },
            final(self).restart_history@ == old(self).history_after(now),
    {
        if let Some(last) = self.last_restart_at {
            let gone: u64 = if now >= last {
                now - last
            } else {
                0
            };
            if gone < 600_000_000_000 {
                return false;
            }
        }
        let ghost history = self.restart_history@;
        let mut kept: Vec<u64> = Vec::new();
        let mut i: usize = 0;
        assert(kept@ =~= recent(history.take(0), now));
        while i < self.restart_history.len()
            invariant
                *self == *old(self),
                history == self.restart_history@,
                i <= history.len(),
                kept@ == recent(history.take(i as int), now),
            decreases history.len() - i,
        {
            let t: u64 = self.restart_history[i];
            proof {
                let front = history.take(i + 1);
                assert(front.last() == t);
                assert(front.drop_last() =~= history.take(i as int));
            }
            if t as i128 > now as i128 - 3_600_000_000_000 {
                kept.push(t);
            }
            i = i + 1;
        }
        assert(history.take(i as int) =~= history);
        self.restart_history = kept;
        if self.restart_history.len() >= MAX_RESTARTS_PER_HOUR {
            return false;
        }
        self.last_restart_at = Some(now);
        self.restart_history.push(now);
        true
    }

    /// True when the status differs from the last one that was seen.
    pub fn status_changed(&self, new_status: &HealthStatus) -> (r: bool)
        ensures
            r == changed(self.last_status, *new_status),
    {
        match (&self.last_status, new_status) {
            (None, _) => true,
            (Some(HealthStatus::Connected), HealthStatus::Connected) => false,
            (Some(HealthStatus::NotConfigured), HealthStatus::NotConfigured) => false,
            (Some(HealthStatus::Degraded { reason: x }), HealthStatus::Degraded { reason: y }) =>
            !str_eq(x.as_str(), y.as_str()),
            (
                Some(HealthStatus::Disconnected { reason: x }),
                HealthStatus::Disconnected { reason: y },
            ) => !str_eq(x.as_str(), y.as_str()),
            _ => true,
        }
    }

    /// Takes the outcome of a check at `now`.
    pub fn check(&mut self, status: HealthStatus, now: u64) -> (r: HealthStep)
        ensures
            r.announce == changed(old(self).last_status, status),
            r.restart == (status is Disconnected && old(self).may_restart(now)),
            final(self).last_status == Some(status),
            final(self).restart_history@ == if status is Disconnected {
                old(self).history_after(now)
            } else {
                old(self).restart_history@
            },
            final(self).last_restart_at == if r.restart {
                Some(now)
            } else {
                old(self).last_restart_at
            },
    {
        let announce = self.status_changed(&status);
        let restart = if is_unhealthy(&status) {
            self.try_restart(now)
        } else {
            false
        };
        self.last_status = Some(status);
        HealthStep { announce, restart }
    }
}

/// The time between two checks in seconds; none where they are turned off.
pub fn check_interval(configured: Option<u64>) -> (r: Option<u64>)
    ensures
        r == match configured {
            None => Some(300u64),
            Some(0) => None,
            Some(n) => Some(n),
        },
{
    match configured {
        None => Some(DEFAULT_CHECK_INTERVAL_SECS),
        Some(n) => if n == 0 {
            None
        } else {
            Some(n)
        },
    }
}

/// The event that tells of a channel's status, given its JSON form.
pub fn broadcast_health_event(channel_id: &ChannelId, status: JsonValue) -> (r: EventFrame)
    ensures
        r.event == EventType::ChannelHealth,
        r.payload@ == JsonView::Object(
            map!["channel"@ => JsonView::Text(channel_id@), "status"@ => status@],
        ),
{
    let mut o = JsonObject::new();
    o.put_text("channel", channel_id.as_str());
    o.put("status", status);
    EventFrame { event: EventType::ChannelHealth, payload: o.finish() }
}

proof fn lemma_recent_all(history: Seq<u64>, now: u64)
    ensures
        forall|i: int|
            0 <= i < recent(history, now).len() ==> #[trigger] recent(history, now)[i] > now
                - 3_600_000_000_000,
        recent(history, now).len() <= history.len(),
    decreases history.len(),
{
    if history.len() > 0 {
        lemma_recent_all(history.drop_last(), now);
    }
}

/// After a restart that was granted, the next one is refused for ten minutes;
/// and no more than six restarts lie within the hour before.
pub proof fn law_restarts_are_limited(before: ChannelHealth, after: ChannelHealth, at: u64, now: u64)
    requires
        before.may_restart(at),
        after.last_restart_at == Some(at),
        after.restart_history@ == recent(before.restart_history@, at).push(at),
        now - at < 600_000_000_000,
    ensures
        !after.may_restart(now),
        after.restart_history@.len() <= MAX_RESTARTS_PER_HOUR,
        forall|i: int|
            0 <= i < after.restart_history@.len() ==> #[trigger] after.restart_history@[i] > at
                - 3_600_000_000_000,
{
    lemma_recent_all(before.restart_history@, at);
}

} // verus!
