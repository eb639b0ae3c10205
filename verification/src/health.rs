//! Whether the check loop is still making progress.

use vstd::prelude::*;
use crate::time::{span_text, Span};

verus! {

/// A round is late, rather than merely slow, once this many intervals pass.
pub const STALE_ROUNDS: u32 = 3;

/// The HTTP status of a healthy answer.
pub const OK: u16 = 200;

/// The HTTP status of a stale answer.
pub const SERVICE_UNAVAILABLE: u16 = 503;

/// Tracks when the last round of checks finished.
///
/// A long-lived process is not supervised the way a scheduled job is: a hung
/// run is not killed by a deadline and followed by a fresh one. So it exposes
/// its own liveness instead -- otherwise a wedged loop would look healthy right
/// up until every monitor in uptime-kuma alarmed at once.
///
/// Moments are lengths of time since some fixed one, read off a clock that
/// never goes back.
pub struct Health {
    last_round: Span,
    stale_after: Span,
}

/// An answer of the health server.
pub struct Answer {
    pub status: u16,
    pub body: String,
}

impl Health {
    /// When the last round finished.
    pub closed spec fn last_round(self) -> Span {
        self.last_round
    }

    /// How old the last round may be.
    pub closed spec fn stale_after(self) -> Span {
        self.stale_after
    }

    /// How long ago the last round finished, in nanoseconds.
    pub open spec fn age_at(self, now: Span) -> int {
        if now.total() < self.last_round().total() {
            0
        } else {
            now.total() - self.last_round().total()
        }
    }

    /// Whether the last round finished too long ago.
    pub open spec fn stale_at(self, now: Span) -> bool {
        self.age_at(now) > self.stale_after().total()
    }

    /// Starts out as if a round had just finished.
    pub fn new(now: Span, stale_after: Span) -> (health: Self)
        ensures
            health.last_round() == now,
            health.stale_after() == stale_after,
    {
        Health { last_round: now, stale_after }
    }

    pub fn round_completed(&mut self, now: Span)
        ensures
            final(self).last_round() == now,
            final(self).stale_after() == old(self).stale_after(),
    {
        self.last_round = now;
    }

    pub fn age(&self, now: Span) -> (age: Span)
        ensures
            age.total() == self.age_at(now),
            now.total() >= self.last_round().total() ==> age.total() == now.total()
                - self.last_round().total(),
            now.total() < self.last_round().total() ==> age.total() == 0,
    {
        now.saturating_sub(&self.last_round)
    }

    pub fn healthz(&self, now: Span) -> (answer: Answer)
        ensures
            answer.status == if self.stale_at(now) {
                SERVICE_UNAVAILABLE
            } else {
                OK
            },
            answer.body@ == (if self.stale_at(now) {
                "stale"@
            } else {
                "ok"@
            }) + ": last round finished "@ + span_text(self.age_at(now)) + " ago\n"@,
            now.total() - self.last_round().total() > self.stale_after().total()
                ==> answer.status == 503 && answer.body@ == "stale"@ + ": last round finished "@
                + span_text(now.total() - self.last_round().total()) + " ago\n"@,
            now.total() - self.last_round().total() <= self.stale_after().total()
                ==> answer.status == 200,
            0 <= now.total() - self.last_round().total() <= self.stale_after().total()
                ==> answer.body@ == "ok"@ + ": last round finished "@ + span_text(
                now.total() - self.last_round().total(),
            ) + " ago\n"@,
    {
        let age = self.age(now);
        let stale = age.exceeds(&self.stale_after);
        let mut body = if stale {
            "stale".to_owned()
        } else {
            "ok".to_owned()
        };
        body.append(": last round finished ");
        body.append(age.text().as_str());
        body.append(" ago\n");
        Answer {
            status: if stale {
                SERVICE_UNAVAILABLE
            } else {
                OK
            },
            body,
        }
    }

    /// A round that has just finished is never stale, at that moment.
    pub proof fn fresh_when_a_round_finishes(self, now: Span)
        requires
            self.last_round() == now,
        ensures
            self.age_at(now) == 0,
            !self.stale_at(now),
    {
    }

    /// The last round is stale exactly when more time has passed since it finished
    /// than may pass.
    pub proof fn stale_exactly_past_the_limit(self, now: Span)
        ensures
            self.stale_at(now) <==> now.total() - self.last_round().total()
                > self.stale_after().total(),
            now.total() >= self.last_round().total() ==> self.age_at(now) == now.total()
                - self.last_round().total(),
            now.total() <= self.last_round().total() ==> self.age_at(now) == 0,
            OK == 200,
            SERVICE_UNAVAILABLE == 503,
    {
    }

    /// Without a round in between, what is stale stays stale.
    pub proof fn stays_stale(self, now: Span, later: Span)
        requires
            self.stale_at(now),
            now.total() <= later.total(),
        ensures
            self.stale_at(later),
    {
    }

    /// A last round that is exactly as old as it may be is not stale yet, and
    /// one nanosecond later it is.
    pub proof fn stale_only_past_the_limit(self, now: Span)
        ensures
            now.total() == self.last_round().total() + self.stale_after().total()
                ==> !self.stale_at(now),
            now.total() == self.last_round().total() + self.stale_after().total() + 1
                ==> self.stale_at(now),
    {
    }
}

/// How old the last round may be, given the time between rounds.
pub fn stale_after(interval: Span) -> (limit: Span)
    requires
        interval.total() * STALE_ROUNDS < (u64::MAX + 1) * 1_000_000_000,
    ensures
        limit.total() == interval.total() * STALE_ROUNDS,
        limit.total() == interval.total() * 3,
{
    interval.times(STALE_ROUNDS)
}

/// A process is healthy from its start until so many intervals have passed without
/// a round, and not after that.
pub proof fn healthy_for_three_intervals(
    start: Span,
    interval: Span,
    limit: Span,
    health: Health,
    now: Span,
    answer: Answer,
)
    requires
        call_ensures(stale_after, (interval,), limit),
        call_ensures(Health::new, (start, limit), health),
        call_ensures(Health::healthz, (&health, now), answer),
    ensures
        answer.status == 200 <==> now.total() <= start.total() + 3 * interval.total(),
        answer.status == 503 <==> now.total() > start.total() + 3 * interval.total(),
{
}

} // verus!
