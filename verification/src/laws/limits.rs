//! Limits: who is locked out after failed logins and for how long, and how often
//! a channel is restarted.

use crate::config::RateLimitConfig;
use crate::gateway::health_monitor::{
    broadcast_health_event, check_interval, is_unhealthy, recent as recent_restarts, ChannelHealth,
    HealthStep,
};
use crate::gateway::protocol::{EventFrame, EventType};
use crate::gateway::rate_limit::{
    after_cleanup, law_cleanup_forgets, law_cleanup_frees_nobody, orderly, recent, AuthRateLimiter,
};
use crate::json::JsonValue;
use crate::laws::terms::{inner, said};
use crate::message::HealthStatus;
use crate::types::ChannelId;
use vstd::prelude::*;

verus! {

/// The failed logins that a limiter knows of an address.
pub open spec fn known(limiter: AuthRateLimiter, ip: Seq<char>) -> Seq<u64> {
    if limiter.attempts@.dom().contains(ip) {
        limiter.attempts@[ip].failures@
    } else {
        Seq::empty()
    }
}

proof fn lemma_all_kept(times: Seq<u64>, window_secs: u64, now: u64)
    requires
        forall|i: int|
            0 <= i < times.len() ==> now - #[trigger] times[i] <= window_secs * 1_000_000_000,
    ensures
        recent(times, window_secs, now) == times,
    decreases times.len(),
{
    reveal(Seq::filter);
    if times.len() > 0 {
        let front = times.drop_last();
        assert forall|i: int| 0 <= i < front.len() implies now - #[trigger] front[i]
            <= window_secs * 1_000_000_000 by {
            assert(front[i] == times[i]);
        }
        lemma_all_kept(front, window_secs, now);
        assert(now - times[times.len() - 1] <= window_secs * 1_000_000_000);
        assert(front.push(times.last()) =~= times);
    } else {
        assert(recent(times, window_secs, now) =~= times);
    }
}

proof fn lemma_only_recent(times: Seq<u64>, window_secs: u64, now: u64)
    ensures
        forall|i: int|
            0 <= i < recent(times, window_secs, now).len() ==> now - #[trigger] recent(
                times,
                window_secs,
                now,
            )[i] <= window_secs * 1_000_000_000,
        recent(times, window_secs, now).len() <= times.len(),
    decreases times.len(),
{
    reveal(Seq::filter);
    if times.len() > 0 {
        lemma_only_recent(times.drop_last(), window_secs, now);
    }
}

/// A failure is noted for its address: it comes last, behind those before it
/// that lie in the window and no others. Nothing is noted for anybody else.
pub proof fn law_failure_is_noted(
    limiter: &mut AuthRateLimiter,
    ip: &str,
    now: u64,
    other: Seq<char>,
)
    requires
        call_ensures(AuthRateLimiter::record_failure, (limiter, ip, now), ()),
    ensures
        final(limiter).config == old(limiter).config,
        known(*final(limiter), ip@).len() > 0,
        known(*final(limiter), ip@).last() == now,
        known(*final(limiter), ip@).len() <= known(*old(limiter), ip@).len() + 1,
        forall|i: int|
            0 <= i < known(*final(limiter), ip@).len() ==> now - #[trigger] known(
                *final(limiter),
                ip@,
            )[i] <= old(limiter).config.window_secs * 1_000_000_000,
        (forall|i: int|
            0 <= i < known(*old(limiter), ip@).len() ==> now - #[trigger] known(
                *old(limiter),
                ip@,
            )[i] <= old(limiter).config.window_secs * 1_000_000_000) ==> known(
            *final(limiter),
            ip@,
        ) == known(*old(limiter), ip@).push(now),
        other != ip@ ==> known(*final(limiter), other) == known(*old(limiter), other),
{
    let before = known(*old(limiter), ip@);
    let after = known(*final(limiter), ip@);
    let window = old(limiter).config.window_secs;
    assert(final(limiter).failures().dom().contains(ip@));
    assert(final(limiter).failures()[ip@] == after);
    if old(limiter).failures().dom().contains(ip@) {
        assert(old(limiter).failures()[ip@] == before);
    }
    assert(after == recent(before, window, now).push(now));
    lemma_only_recent(before, window, now);
    if forall|i: int|
        0 <= i < before.len() ==> now - #[trigger] before[i] <= window * 1_000_000_000 {
        lemma_all_kept(before, window, now);
    }
    if other != ip@ {
        assert(final(limiter).failures().dom().contains(other) == old(limiter).failures().dom().contains(
            other,
        ));
        if old(limiter).failures().dom().contains(other) {
            assert(final(limiter).failures()[other] == old(limiter).failures()[other]);
        }
    }
}

/// An address is locked exactly while it has as many failures as the limit and
/// the lockout after the last of them is not over; and it is told how long.
pub proof fn law_who_is_locked(limiter: &AuthRateLimiter, ip: &str, now: u64, r: Option<u128>)
    requires
        call_ensures(AuthRateLimiter::is_locked, (limiter, ip, now), r),
    ensures
        ({
            let times = known(*limiter, ip@);
            let until = times.last() + limiter.config.lockout_secs * 1_000_000_000;
            &&& r is Some <==> times.len() > 0 && times.len() >= limiter.config.max_attempts && now
                < until
            &&& r is Some ==> r->0 == until - now
        }),
{
    assert(limiter.failures().dom().contains(ip@) == limiter.attempts@.dom().contains(ip@));
}

/// A login clears its address, which is then not locked, and no other.
pub proof fn law_login_clears(
    limiter: &mut AuthRateLimiter,
    ip: &str,
    after: &AuthRateLimiter,
    now: u64,
    locked: Option<u128>,
    other: Seq<char>,
)
    requires
        call_ensures(AuthRateLimiter::record_success, (limiter, ip), ()),
        *after == *final(limiter),
        call_ensures(AuthRateLimiter::is_locked, (after, ip, now), locked),
    ensures
        locked is None,
        known(*after, ip@).len() == 0,
        other != ip@ ==> known(*after, other) == known(*old(limiter), other),
        after.config == old(limiter).config,
{
    let start = old(limiter).failures();
    let end = final(limiter).failures();
    assert(end == start.remove(ip@));
    assert(end.dom().contains(ip@) == final(limiter).attempts@.dom().contains(ip@));
    if other != ip@ {
        assert(end.dom().contains(other) == start.dom().contains(other));
        if start.dom().contains(other) {
            assert(end[other] == start[other]);
        }
    }
}

/// A new limiter locks nobody.
pub proof fn law_new_limiter(
    config: RateLimitConfig,
    limiter: &AuthRateLimiter,
    ip: &str,
    now: u64,
    r: Option<u128>,
)
    requires
        call_ensures(AuthRateLimiter::new, (config,), *limiter),
        call_ensures(AuthRateLimiter::is_locked, (limiter, ip, now), r),
    ensures
        r is None,
        limiter.config == config,
{
}

/// Cleaning up changes nobody's lock, and keeps nothing whose first failure is
/// as long ago as the window and the lockout together.
pub proof fn law_clean_up(
    limiter: &mut AuthRateLimiter,
    now: u64,
    ip: &str,
    later: u64,
    after: &AuthRateLimiter,
    before_lock: Option<u128>,
    after_lock: Option<u128>,
)
    requires
        known(*old(limiter), ip@).len() > 0 ==> orderly(
            old(limiter).config,
            known(*old(limiter), ip@),
            now,
        ),
        now <= later,
        call_ensures(AuthRateLimiter::is_locked, (&*old(limiter), ip, later), before_lock),
        call_ensures(AuthRateLimiter::cleanup, (limiter, now), ()),
        *after == *final(limiter),
        call_ensures(AuthRateLimiter::is_locked, (after, ip, later), after_lock),
    ensures
        before_lock == after_lock,
        known(*after, ip@).len() > 0 ==> now - known(*after, ip@)[0] < (
        old(limiter).config.window_secs + old(limiter).config.lockout_secs) * 1_000_000_000,
{
    let config = old(limiter).config;
    let failures = old(limiter).failures();
    if failures.dom().contains(ip@) && failures[ip@].len() > 0 {
        assert(failures[ip@] == known(*old(limiter), ip@));
        law_cleanup_frees_nobody(config, failures, ip@, now, later);
    }
    if failures.dom().contains(ip@) && failures[ip@].len() == 0 {
        reveal(Seq::filter);
        assert(after_cleanup(config, failures[ip@], now).len() == 0);
    }
    law_cleanup_forgets(config, failures, ip@, now);
    assert(final(limiter).failures().dom().contains(ip@) == final(limiter).attempts@.dom().contains(
        ip@,
    ));
}

proof fn lemma_restarts(history: Seq<u64>, now: u64)
    ensures
        recent_restarts(history, now).len() <= history.len(),
        forall|i: int|
            0 <= i < recent_restarts(history, now).len() ==> #[trigger] recent_restarts(
                history,
                now,
            )[i] > now - 3_600_000_000_000,
        (forall|i: int|
            0 <= i < history.len() ==> #[trigger] history[i] > now - 3_600_000_000_000)
            ==> recent_restarts(history, now) == history,
    decreases history.len(),
{
    if history.len() > 0 {
        let front = history.drop_last();
        lemma_restarts(front, now);
        if forall|i: int|
            0 <= i < history.len() ==> #[trigger] history[i] > now - 3_600_000_000_000 {
            assert forall|i: int| 0 <= i < front.len() implies #[trigger] front[i] > now
                - 3_600_000_000_000 by {
                assert(front[i] == history[i]);
            }
            assert(history[history.len() - 1] > now - 3_600_000_000_000);
            assert(front.push(history.last()) =~= history);
        }
    }
}

/// A channel is restarted only where it is disconnected, not within ten minutes
/// of its last restart, and never for the seventh time within an hour. Clients
/// hear of a status exactly if it is not the one they heard of last.
pub proof fn law_channel_is_watched(
    health: &mut ChannelHealth,
    status: HealthStatus,
    now: u64,
    differs: bool,
    r: HealthStep,
)
    requires
        call_ensures(ChannelHealth::check, (health, status, now), r),
        call_ensures(ChannelHealth::status_changed, (&*old(health), &status), differs),
    ensures
        r.announce == differs,
        final(health).last_status == Some(status),
        r.restart ==> status is Disconnected,
        r.restart && old(health).last_restart_at is Some ==> now - old(health).last_restart_at->0
            >= 600_000_000_000,
        r.restart ==> final(health).last_restart_at == Some(now)
            && final(health).restart_history@.len() > 0 && final(health).restart_history@.last()
            == now && final(health).restart_history@.len() <= 6,
        !r.restart ==> final(health).last_restart_at == old(health).last_restart_at,
        !(status is Disconnected) ==> final(health).restart_history@
            == old(health).restart_history@,
        status is Disconnected && (old(health).last_restart_at is None || now
            - old(health).last_restart_at->0 >= 600_000_000_000)
            && old(health).restart_history@.len() < 6 ==> r.restart,
        old(health).restart_history@.len() >= 6 && (forall|i: int|
            0 <= i < old(health).restart_history@.len() ==> #[trigger] old(health).restart_history@[i]
                > now - 3_600_000_000_000) ==> !r.restart,
{
    lemma_restarts(old(health).restart_history@, now);
}

/// A status is news where there was none, where it is of another kind, or where
/// its reason is another one.
pub proof fn law_news(health: &ChannelHealth, status: &HealthStatus, r: bool, bad: bool)
    requires
        call_ensures(ChannelHealth::status_changed, (health, status), r),
        call_ensures(is_unhealthy, (status,), bad),
    ensures
        health.last_status is None ==> r,
        health.last_status == Some(*status) ==> !r,
        health.last_status is Some && !r ==> (health.last_status->0 is Connected <==> status
            is Connected) && (health.last_status->0 is Disconnected <==> status is Disconnected) && (
        health.last_status->0 is Degraded <==> status is Degraded),
        health.last_status is Some && health.last_status->0 is Disconnected && status is Disconnected
            ==> r == (health.last_status->0->Disconnected_reason@ != status->Disconnected_reason@),
        health.last_status is Some && health.last_status->0 is Degraded && status is Degraded ==> r
            == (health.last_status->0->Degraded_reason@ != status->Degraded_reason@),
        bad <==> status is Disconnected,
{
}

/// Checks come at the interval that is configured, every five minutes where none
/// is, and never where it is zero.
pub proof fn law_interval(configured: Option<u64>, r: Option<u64>)
    requires
        call_ensures(check_interval, (configured,), r),
    ensures
        r is None <==> configured == Some(0u64),
        configured is None ==> r == Some(300u64),
        configured is Some && configured->0 > 0 ==> r == configured,
{
}

/// The news of a channel names the channel and its status.
pub proof fn law_news_name_the_channel(channel: &ChannelId, status: JsonValue, r: EventFrame)
    requires
        call_ensures(broadcast_health_event, (channel, status), r),
    ensures
        r.event == EventType::ChannelHealth,
        said(r.payload@, "channel"@) == Some(channel@),
        inner(r.payload@, "status"@) == Some(status@),
{
    reveal_strlit("channel");
    reveal_strlit("status");
    assert("channel"@.len() == 7);
    assert("status"@.len() == 6);
}

} // verus!
