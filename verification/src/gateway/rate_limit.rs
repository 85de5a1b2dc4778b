//! Rate limiting of failed logins, per address.

use crate::config::RateLimitConfig;
use crate::text_map::{
    distinct_keys, lemma_entries_dom, lemma_entries_push, lemma_entries_value, TextMap,
};
use vstd::prelude::*;

verus! {

/// The failed logins of one address that lay in the window at the last of them,
/// in order. Times are nanoseconds on one monotonic clock.
#[derive(Debug)]
pub struct IpAttempts {
    pub failures: Vec<u64>,
}

/// A length of time in nanoseconds.
pub open spec fn nanos(secs: u64) -> int {
    secs * 1_000_000_000
}

/// The time from `earlier` to `now`; zero when `earlier` is the later one.
pub open spec fn elapsed(earlier: u64, now: u64) -> int {
    if now >= earlier {
        now - earlier
    } else {
        0
    }
}

fn time_since(earlier: u64, now: u64) -> (r: u128)
    ensures
        r == elapsed(earlier, now),
{
    if now >= earlier {
        (now - earlier) as u128
    } else {
        0
    }
}

/// True of a time that lies in the window that ends at `now`.
pub open spec fn in_window(window_secs: u64, now: u64) -> spec_fn(u64) -> bool {
    |t: u64| elapsed(t, now) <= nanos(window_secs)
}

/// Those of the times that lie in the window that ends at `now`.
pub open spec fn recent(times: Seq<u64>, window_secs: u64, now: u64) -> Seq<u64> {
    times.filter(in_window(window_secs, now))
}

/// Counts failed logins per address, with a sliding window and a lockout.
#[derive(Debug)]
pub struct AuthRateLimiter {
    pub config: RateLimitConfig,
    pub attempts: TextMap<IpAttempts>,
}

/// What is known of an address after a failure at `now`: that failure, and
/// those before it that still lie in the window.
pub open spec fn after_failure(
    config: RateLimitConfig,
    failures: Map<Seq<char>, Seq<u64>>,
    ip: Seq<char>,
    now: u64,
) -> Seq<u64> {
    let before = if failures.dom().contains(ip) {
        failures[ip]
    } else {
        Seq::empty()
    };
    recent(before, config.window_secs, now).push(now)
}

/// How long an address stays locked at `now`, if it is locked: until the
/// lockout after its last failure, where at least as many failures as the limit
/// lay in the window that ended with it.
pub open spec fn lock_left(
    config: RateLimitConfig,
    failures: Map<Seq<char>, Seq<u64>>,
    ip: Seq<char>,
    now: u64,
) -> Option<int> {
    if failures.dom().contains(ip) && failures[ip].len() > 0 && failures[ip].len()
        >= config.max_attempts && now < failures[ip].last() + nanos(config.lockout_secs) {
        Some(failures[ip].last() + nanos(config.lockout_secs) - now)
    } else {
        None
    }
}

/// How long a failure can matter: the window and the lockout together.
pub open spec fn memory(config: RateLimitConfig) -> int {
    nanos(config.window_secs) + nanos(config.lockout_secs)
}

/// True of a time that still counts at `now`: it lies in the window, and is not
/// older than a failure can matter.
pub open spec fn still_counts(config: RateLimitConfig, now: u64) -> spec_fn(u64) -> bool {
    |t: u64| elapsed(t, now) <= nanos(config.window_secs) && elapsed(t, now) < memory(config)
}

/// What is left of the failures of an address after a cleanup at `now`: all of
/// them, as long as the first can matter; else those that still count.
pub open spec fn after_cleanup(config: RateLimitConfig, failures: Seq<u64>, now: u64) -> Seq<u64> {
    if failures.len() > 0 && elapsed(failures[0], now) < memory(config) {
        failures
    } else {
        failures.filter(still_counts(config, now))
    }
}

/// What is known after a cleanup at `now`. An address of which nothing is left
/// is forgotten.
pub open spec fn cleaned(
    config: RateLimitConfig,
    failures: Map<Seq<char>, Seq<u64>>,
    now: u64,
) -> Map<Seq<char>, Seq<u64>> {
    Map::new(
        |ip: Seq<char>|
            failures.dom().contains(ip) && after_cleanup(config, failures[ip], now).len() > 0,
        |ip: Seq<char>| after_cleanup(config, failures[ip], now),
    )
}

fn clean_times(times: &Vec<u64>, config: RateLimitConfig, now: u64) -> (r: Vec<u64>)
    ensures
        r@ == after_cleanup(config, times@, now),
{
    let window: u128 = config.window_secs as u128 * 1_000_000_000;
    let limit: u128 = window + config.lockout_secs as u128 * 1_000_000_000;
    if times.len() > 0 && time_since(times[0], now) < limit {
        return copy_times(times);
    }
    let ghost counts = still_counts(config, now);
    let mut out: Vec<u64> = Vec::new();
    let mut i: usize = 0;
    reveal(Seq::filter);
    assert(out@ =~= times@.take(0).filter(counts));
    while i < times.len()
        invariant
            i <= times@.len(),
            counts == still_counts(config, now),
            window == nanos(config.window_secs),
            limit == memory(config),
            out@ == times@.take(i as int).filter(counts),
        decreases times@.len() - i,
    {
        proof {
            reveal(Seq::filter);
            let front = times@.take(i + 1);
            assert(front.last() == times@[i as int]);
            assert(front.drop_last() =~= times@.take(i as int));
        }
        let t: u64 = times[i];
        let gone: u128 = time_since(t, now);
        if gone <= window && gone < limit {
            out.push(t);
        }
        i = i + 1;
    }
    assert(times@.take(i as int) =~= times@);
    out
}

fn keep_recent(times: &Vec<u64>, window_secs: u64, now: u64) -> (r: Vec<u64>)
    ensures
        r@ == recent(times@, window_secs, now),
{
    let window: u128 = window_secs as u128 * 1_000_000_000;
    let mut out: Vec<u64> = Vec::new();
    let mut i: usize = 0;
    reveal(Seq::filter);
    assert(out@ =~= recent(times@.take(0), window_secs, now));
    while i < times.len()
        invariant
            i <= times@.len(),
            window == nanos(window_secs),
            out@ == recent(times@.take(i as int), window_secs, now),
        decreases times@.len() - i,
    {
        proof {
            reveal(Seq::filter);
            let front = times@.take(i + 1);
            assert(front.last() == times@[i as int]);
            assert(front.drop_last() =~= times@.take(i as int));
        }
        let t: u64 = times[i];
        if time_since(t, now) <= window {
            out.push(t);
        }
        i = i + 1;
    }
    assert(times@.take(i as int) =~= times@);
    out
}

fn copy_times(times: &Vec<u64>) -> (r: Vec<u64>)
    ensures
        r@ == times@,
{
    let mut out: Vec<u64> = Vec::new();
    let mut i: usize = 0;
    while i < times.len()
        invariant
            i <= times@.len(),
            out@ == times@.take(i as int),
        decreases times@.len() - i,
    {
        out.push(times[i]);
        assert(out@ =~= times@.take(i + 1));
        i = i + 1;
    }
    assert(times@.take(i as int) =~= times@);
    out
}

/// The failures in a map of entries.
pub open spec fn failures_in(attempts: Map<Seq<char>, IpAttempts>) -> Map<Seq<char>, Seq<u64>> {
    Map::new(|ip: Seq<char>| attempts.dom().contains(ip), |ip: Seq<char>| attempts[ip].failures@)
}

impl AuthRateLimiter {
    /// True of a limiter with one entry per address.
    pub open spec fn wf(&self) -> bool {
        self.attempts.wf()
    }

    /// The failures that are known of each address.
    pub open spec fn failures(&self) -> Map<Seq<char>, Seq<u64>> {
        failures_in(self.attempts@)
    }

    /// A limiter without failures.
    pub fn new(config: RateLimitConfig) -> (r: AuthRateLimiter)
        ensures
            r.wf(),
            r.config == config,
            r.failures() == Map::<Seq<char>, Seq<u64>>::empty(),
    {
        let r = AuthRateLimiter { config, attempts: TextMap::new() };
        assert(r.failures() =~= Map::empty());
        r
    }

    /// How long an address stays locked at `now`, in nanoseconds, if it is
    /// locked.
    pub fn is_locked(&self, ip: &str, now: u64) -> (r: Option<u128>)
        requires
            self.wf(),
        ensures
            r is Some == lock_left(self.config, self.failures(), ip@, now) is Some,
            r is Some ==> r->0 == lock_left(self.config, self.failures(), ip@, now)->0,
    {
        if let Some(entry) = self.attempts.get(ip) {
            let n: usize = entry.failures.len();
            if n > 0 && n as u64 >= self.config.max_attempts as u64 {
                let lockout: u128 = self.config.lockout_secs as u128 * 1_000_000_000;
                let until: u128 = entry.failures[n - 1] as u128 + lockout;
                if (now as u128) < until {
                    return Some(until - now as u128);
                }
            }
        }
        None
    }

    /// Notes a failed login at `now`.
    pub fn record_failure(&mut self, ip: &str, now: u64)
        requires
            old(self).wf(),
        ensures
            final(self).wf(),
            final(self).config == old(self).config,
            final(self).failures() == old(self).failures().insert(
                ip@,
                after_failure(old(self).config, old(self).failures(), ip@, now),
            ),
    {
        let ghost before = self.failures();
        let window_secs: u64 = self.config.window_secs;
        let mut failures: Vec<u64> = match self.attempts.get(ip) {
            Some(entry) => keep_recent(&entry.failures, window_secs, now),
            None => Vec::new(),
        };
        proof {
            reveal(Seq::filter);
            assert(recent(Seq::<u64>::empty(), window_secs, now) =~= Seq::empty());
        }
        failures.push(now);
        self.attempts.insert(ip, IpAttempts { failures });
        assert(self.failures() =~= before.insert(
            ip@,
            after_failure(self.config, before, ip@, now),
        ));
    }

    /// Forgets the failures of an address after a login.
    pub fn record_success(&mut self, ip: &str)
        requires
            old(self).wf(),
        ensures
            final(self).wf(),
            final(self).config == old(self).config,
            final(self).failures() == old(self).failures().remove(ip@),
    {
        let _ = self.attempts.remove(ip);
        assert(self.failures() =~= old(self).failures().remove(ip@));
    }

    /// Forgets what no longer counts, so that no failure is remembered for longer
    /// than the window and the lockout together.
    pub fn cleanup(&mut self, now: u64)
        requires
            old(self).wf(),
        ensures
            final(self).wf(),
            final(self).config == old(self).config,
            final(self).failures() == cleaned(old(self).config, old(self).failures(), now),
    {
        let ghost config = self.config;
        let ghost entries = self.attempts.entries@;
        let mut kept: TextMap<IpAttempts> = TextMap::new();
        let mut i: usize = 0;
        while i < self.attempts.entries.len()
            invariant
                *self == *old(self),
                config == self.config,
                entries == self.attempts.entries@,
                distinct_keys(entries),
                i <= entries.len(),
                kept.wf(),
                forall|ip: Seq<char>| #[trigger]
                    kept@.dom().contains(ip) ==> exists|k: int|
                        0 <= k < i && (#[trigger] entries[k]).0@ == ip && kept@[ip].failures@
                            == after_cleanup(config, entries[k].1.failures@, now)
                            && kept@[ip].failures@.len() > 0,
                forall|k: int|
                    0 <= k < i && after_cleanup(
                        config,
                        (#[trigger] entries[k]).1.failures@,
                        now,
                    ).len() > 0 ==> kept@.dom().contains(entries[k].0@),
            decreases entries.len() - i,
        {
            let failures = clean_times(&self.attempts.entries[i].1.failures, self.config, now);
            if failures.len() > 0 {
                let left = IpAttempts { failures };
                let ghost entry = left;
                let kept_entry = (self.attempts.entries[i].0.clone(), left);
                proof {
                    let ip = kept_entry.0@;
                    if kept@.dom().contains(ip) {
                        let k = choose|k: int|
                            0 <= k < i && (#[trigger] entries[k]).0@ == ip && kept@[ip].failures@
                                == after_cleanup(config, entries[k].1.failures@, now)
                                && kept@[ip].failures@.len() > 0;
                        assert(entries[k].0@ != entries[i as int].0@);
                    }
                    lemma_entries_push(kept.entries@, kept_entry);
                    assert forall|ip2: Seq<char>| #[trigger]
                        kept@.insert(ip, entry).dom().contains(ip2) implies exists|k: int|
                        0 <= k < i + 1 && (#[trigger] entries[k]).0@ == ip2 && kept@.insert(
                            ip,
                            entry,
                        )[ip2].failures@ == after_cleanup(config, entries[k].1.failures@, now)
                            && kept@.insert(ip, entry)[ip2].failures@.len() > 0 by {
                        if ip2 == ip {
                            assert(entries[i as int].0@ == ip);
                        } else {
                            assert(kept@.dom().contains(ip2));
                            let k = choose|k: int|
                                0 <= k < i && (#[trigger] entries[k]).0@ == ip2
                                    && kept@[ip2].failures@ == after_cleanup(
                                    config,
                                    entries[k].1.failures@,
                                    now,
                                ) && kept@[ip2].failures@.len() > 0;
                            assert(entries[k].0@ == ip2);
                        }
                    }
                }
                kept.entries.push(kept_entry);
            }
            i = i + 1;
        }
        proof {
            let before = self.attempts@;
            assert forall|ip: Seq<char>| #[trigger] kept@.dom().contains(ip) implies (
            before.dom().contains(ip) && kept@[ip].failures@ == after_cleanup(
                config,
                before[ip].failures@,
                now,
            ) && kept@[ip].failures@.len() > 0) by {
                let k = choose|k: int|
                    0 <= k < i && (#[trigger] entries[k]).0@ == ip && kept@[ip].failures@
                        == after_cleanup(config, entries[k].1.failures@, now)
                        && kept@[ip].failures@.len() > 0;
                lemma_entries_value(entries, k);
            }
            assert forall|ip: Seq<char>|
                before.dom().contains(ip) && after_cleanup(
                    config,
                    before[ip].failures@,
                    now,
                ).len() > 0 implies #[trigger] kept@.dom().contains(ip) by {
                lemma_entries_dom(entries, ip);
                let k = choose|k: int| 0 <= k < entries.len() && (#[trigger] entries[k]).0@ == ip;
                lemma_entries_value(entries, k);
            }
            assert(failures_in(kept@) =~= cleaned(config, failures_in(before), now));
        }
        self.attempts = kept;
    }
}

/// True of times in order.
pub open spec fn sorted(times: Seq<u64>) -> bool {
    forall|i: int, j: int| 0 <= i <= j < times.len() ==> times[i] <= times[j]
}

/// True of the failures of an address as a clock that does not run backwards
/// makes them: there is one, they are in order, none is after `now`, and the
/// first lies in the window that ends with the last.
pub open spec fn orderly(config: RateLimitConfig, times: Seq<u64>, now: u64) -> bool {
    &&& times.len() > 0
    &&& sorted(times)
    &&& times.last() <= now
    &&& times.last() - times[0] <= nanos(config.window_secs)
}

/// What is known after failures of one address at the given times.
pub open spec fn after_failures(
    config: RateLimitConfig,
    failures: Map<Seq<char>, Seq<u64>>,
    ip: Seq<char>,
    times: Seq<u64>,
) -> Map<Seq<char>, Seq<u64>>
    decreases times.len(),
{
    if times.len() == 0 {
        failures
    } else {
        let before = after_failures(config, failures, ip, times.drop_last());
        before.insert(ip, after_failure(config, before, ip, times.last()))
    }
}

/// Picking again, more narrowly, is the same as picking narrowly at once.
proof fn lemma_filter_twice(
    times: Seq<u64>,
    wide: spec_fn(u64) -> bool,
    narrow: spec_fn(u64) -> bool,
)
    requires
        forall|i: int| 0 <= i < times.len() && narrow(#[trigger] times[i]) ==> wide(times[i]),
    ensures
        times.filter(wide).filter(narrow) == times.filter(narrow),
    decreases times.len(),
{
    reveal(Seq::filter);
    if times.len() > 0 {
        let front = times.drop_last();
        let t = times.last();
        assert(t == times[times.len() - 1]);
        assert forall|i: int| 0 <= i < front.len() && narrow(#[trigger] front[i]) implies wide(
            front[i],
        ) by {
            assert(front[i] == times[i]);
        }
        lemma_filter_twice(front, wide, narrow);
        let once = front.filter(wide);
        if wide(t) {
            assert(once.push(t).drop_last() =~= once);
            assert(times.filter(wide) == once.push(t));
        } else {
            assert(times.filter(wide) == once);
        }
    }
}

/// What is picked of times in order, when with each time the later ones are
/// picked too, is an end of them.
proof fn lemma_filter_end(times: Seq<u64>, pick: spec_fn(u64) -> bool) -> (k: int)
    requires
        sorted(times),
        forall|i: int, j: int|
            0 <= i <= j < times.len() && pick(#[trigger] times[i]) ==> pick(#[trigger] times[j]),
    ensures
        0 <= k <= times.len(),
        times.filter(pick) == times.skip(k),
    decreases times.len(),
{
    reveal(Seq::filter);
    if times.len() == 0 {
        assert(times.filter(pick) =~= times.skip(0));
        0
    } else {
        let front = times.drop_last();
        assert forall|i: int, j: int|
            0 <= i <= j < front.len() && pick(#[trigger] front[i]) implies pick(
            #[trigger] front[j],
        ) by {
            assert(front[i] == times[i] && front[j] == times[j]);
        }
        let k = lemma_filter_end(front, pick);
        if pick(times.last()) {
            assert(times.filter(pick) =~= times.skip(k));
            k
        } else {
            if k < front.len() {
                lemma_filter_member(front, pick, 0);
                assert(front.filter(pick)[0] == times[k]);
                assert(pick(times[times.len() - 1]));
            }
            assert(times.filter(pick) =~= times.skip(times.len() as int));
            times.len() as int
        }
    }
}

/// What is picked meets the condition.
proof fn lemma_filter_member(times: Seq<u64>, pick: spec_fn(u64) -> bool, i: int)
    requires
        0 <= i < times.filter(pick).len(),
    ensures
        pick(times.filter(pick)[i]),
    decreases times.len(),
{
    reveal(Seq::filter);
    if times.len() > 0 {
        let front = times.drop_last();
        if i < front.filter(pick).len() {
            lemma_filter_member(front, pick, i);
        }
    }
}

/// The window slides: after failures at given times, an address is locked
/// exactly when at least as many of them as the limit, the last one included,
/// lie in the window that ends with the last one; and then until the lockout
/// after the last one.
pub proof fn law_locks_at_limit(
    config: RateLimitConfig,
    failures: Map<Seq<char>, Seq<u64>>,
    ip: Seq<char>,
    times: Seq<u64>,
    now: u64,
)
    requires
        !failures.dom().contains(ip),
        times.len() > 0,
        sorted(times),
    ensures
        ({
            let after = after_failures(config, failures, ip, times);
            let counted = recent(times, config.window_secs, times.last());
            &&& after.dom().contains(ip)
            &&& after[ip] == counted
            &&& lock_left(config, after, ip, now) == if counted.len() >= config.max_attempts && now
                < times.last() + nanos(config.lockout_secs) {
                Some(times.last() + nanos(config.lockout_secs) - now)
            } else {
                None
            }
        }),
    decreases times.len(),
{
    reveal(Seq::filter);
    let front = times.drop_last();
    let now_failed = times.last();
    assert(recent(times, config.window_secs, now_failed) == recent(
        front,
        config.window_secs,
        now_failed,
    ).push(now_failed));
    if front.len() > 0 {
        assert forall|i: int, j: int| 0 <= i <= j < front.len() implies front[i] <= front[j] by {
            assert(times[i] <= times[j]);
        }
        law_locks_at_limit(config, failures, ip, front, now);
        assert(front.last() == times[times.len() - 2]);
        assert forall|i: int| 0 <= i < front.len() implies #[trigger] front[i] <= front.last() by {
            assert(times[i] <= times[times.len() - 2]);
        }
        assert(times[times.len() - 2] <= times[times.len() - 1]);
        lemma_filter_twice(
            front,
            in_window(config.window_secs, front.last()),
            in_window(config.window_secs, now_failed),
        );
    } else {
        assert(front =~= Seq::empty());
    }
}

/// A login clears the lock of its address and touches no other.
pub proof fn law_success_clears(
    config: RateLimitConfig,
    failures: Map<Seq<char>, Seq<u64>>,
    ip: Seq<char>,
    other: Seq<char>,
    now: u64,
)
    ensures
        lock_left(config, failures.remove(ip), ip, now) is None,
        other != ip ==> lock_left(config, failures.remove(ip), other, now) == lock_left(
            config,
            failures,
            other,
            now,
        ),
{
}

/// A failure of one address leaves the locks of the others as they are.
pub proof fn law_failure_is_local(
    config: RateLimitConfig,
    failures: Map<Seq<char>, Seq<u64>>,
    ip: Seq<char>,
    other: Seq<char>,
    now: u64,
    later: u64,
)
    requires
        other != ip,
    ensures
        lock_left(
            config,
            failures.insert(ip, after_failure(config, failures, ip, now)),
            other,
            later,
        ) == lock_left(config, failures, other, later),
{
}

/// No lock outlasts the lockout after the failure that set it.
pub proof fn law_locks_are_bounded(
    config: RateLimitConfig,
    failures: Map<Seq<char>, Seq<u64>>,
    ip: Seq<char>,
    now: u64,
    later: u64,
)
    requires
        now <= later,
    ensures
        ({
            let after = failures.insert(ip, after_failure(config, failures, ip, now));
            let left = lock_left(config, after, ip, later);
            &&& left is Some ==> left->0 <= nanos(config.lockout_secs)
            &&& later - now >= nanos(config.lockout_secs) ==> left is None
        }),
{
}

/// Failures stay in order and within one window of the last of them, whatever
/// failures and cleanups follow.
pub proof fn law_failures_stay_orderly(
    config: RateLimitConfig,
    failures: Map<Seq<char>, Seq<u64>>,
    ip: Seq<char>,
    now: u64,
)
    requires
        failures.dom().contains(ip) ==> orderly(config, failures[ip], now),
    ensures
        orderly(config, after_failure(config, failures, ip, now), now),
        cleaned(config, failures, now).dom().contains(ip) ==> orderly(
            config,
            cleaned(config, failures, now)[ip],
            now,
        ),
{
    let before = if failures.dom().contains(ip) {
        failures[ip]
    } else {
        Seq::empty()
    };
    lemma_picked_end(before, in_window(config.window_secs, now));
    let kept = recent(before, config.window_secs, now);
    if kept.len() > 0 {
        lemma_filter_member(before, in_window(config.window_secs, now), 0);
    }
    if failures.dom().contains(ip) {
        lemma_picked_end(failures[ip], still_counts(config, now));
        let left = failures[ip].filter(still_counts(config, now));
        if left.len() > 0 {
            lemma_filter_member(failures[ip], still_counts(config, now), 0);
        }
    }
}

/// What is picked of times in order is in order, and ends as they do.
proof fn lemma_picked_end(times: Seq<u64>, pick: spec_fn(u64) -> bool)
    requires
        sorted(times),
        forall|i: int, j: int|
            0 <= i <= j < times.len() && pick(#[trigger] times[i]) ==> pick(#[trigger] times[j]),
    ensures
        sorted(times.filter(pick)),
        times.filter(pick).len() > 0 ==> times.len() > 0 && times.filter(pick).last()
            == times.last(),
{
    let k = lemma_filter_end(times, pick);
    let picked = times.skip(k);
    assert forall|i: int, j: int| 0 <= i <= j < picked.len() implies picked[i] <= picked[j] by {
        assert(times[i + k] <= times[j + k]);
    }
}

/// Cleaning up frees nobody: at `now` and later, each address is locked for as
/// long as it was. And it changes nothing that counts: a later failure finds the
/// same failures in its window.
pub proof fn law_cleanup_frees_nobody(
    config: RateLimitConfig,
    failures: Map<Seq<char>, Seq<u64>>,
    ip: Seq<char>,
    now: u64,
    later: u64,
)
    requires
        failures.dom().contains(ip) ==> orderly(config, failures[ip], now),
        now <= later,
    ensures
        lock_left(config, cleaned(config, failures, now), ip, later) == lock_left(
            config,
            failures,
            ip,
            later,
        ),
        now < later ==> after_failure(config, cleaned(config, failures, now), ip, later)
            == after_failure(config, failures, ip, later),
{
    if failures.dom().contains(ip) {
        let times = failures[ip];
        let counts = still_counts(config, now);
        let later_counts = in_window(config.window_secs, later);
        lemma_picked_end(times, counts);
        if now < later {
            assert forall|i: int|
                0 <= i < times.len() && later_counts(#[trigger] times[i]) implies counts(
                times[i],
            ) by {
                assert(times[i] <= times[times.len() - 1]);
            }
            lemma_filter_twice(times, counts, later_counts);
            reveal(Seq::filter);
            assert(recent(Seq::<u64>::empty(), config.window_secs, later) =~= Seq::empty());
            if times.filter(counts).len() == 0 {
                assert(times.filter(counts) =~= Seq::empty());
            }
        }
    }
}

/// No address stays whose first failure is as long ago as the window and the
/// lockout together.
pub proof fn law_cleanup_forgets(
    config: RateLimitConfig,
    failures: Map<Seq<char>, Seq<u64>>,
    ip: Seq<char>,
    now: u64,
)
    ensures
        cleaned(config, failures, now).dom().contains(ip) ==> cleaned(
            config,
            failures,
            now,
        )[ip].len() > 0 && elapsed(cleaned(config, failures, now)[ip][0], now) < memory(config),
{
    if cleaned(config, failures, now).dom().contains(ip) {
        let times = failures[ip];
        if !(times.len() > 0 && elapsed(times[0], now) < memory(config)) {
            lemma_filter_member(times, still_counts(config, now), 0);
        }
    }
}

} // verus!
