//! The alert feed: a bounded, newest-first store of messages that suppresses
//! adjacent duplicates and forgets alerts once they outlive their lifetime.
use vstd::prelude::*;

use crate::decimal::{one_decimal, push_one_decimal};
use crate::metrics::Metrics;

verus! {

/// How many alerts the feed holds by default.
pub const MAX_ALERTS: usize = 10;

/// How long an alert lives by default, in milliseconds.
pub const ALERT_TTL_MS: u64 = 20000;

/// A CPU reading above this many tenths of a percent raises an alert.
pub const CPU_ALERT_TENTHS: u64 = 800;

/// A memory share above this percentage raises an alert.
pub const MEMORY_ALERT_PERCENT: u64 = 85;

/// One alert: its message and the time it was raised, in milliseconds.
pub struct Alert {
    pub message: String,
    pub created: u64,
}

/// What the feed holds: each alert as its message and creation time,
/// newest first.
pub type AlertSeq = Seq<(Seq<char>, u64)>;

/// The feed after `message` is raised at `now` with room for `max` alerts:
/// unchanged when the newest alert carries the same message, otherwise the
/// new alert in front and the oldest ones dropped beyond `max`.
pub open spec fn pushed(v: AlertSeq, message: Seq<char>, now: u64, max: nat) -> AlertSeq {
    if v.len() > 0 && v[0].0 == message {
        v
    } else {
        let w = seq![(message, now)] + v;
        if w.len() > max {
            w.take(max as int)
        } else {
            w
        }
    }
}

/// The feed after a series of alerts (message, time) is raised in order.
pub open spec fn pushed_all(v: AlertSeq, events: AlertSeq, max: nat) -> AlertSeq
    decreases events.len(),
{
    if events.len() == 0 {
        v
    } else {
        pushed(pushed_all(v, events.drop_last(), max), events.last().0, events.last().1, max)
    }
}

/// Whether an alert created at `created` is still alive at `now`.
pub open spec fn alive(created: u64, now: u64, ttl: u64) -> bool {
    (now as int) - (created as int) < ttl as int
}

/// The alerts of `v` that are alive at `now`, in their order.
pub open spec fn unexpired(v: AlertSeq, now: u64, ttl: u64) -> AlertSeq
    decreases v.len(),
{
    if v.len() == 0 {
        v
    } else {
        let rest = unexpired(v.drop_last(), now, ttl);
        if alive(v.last().1, now, ttl) {
            rest.push(v.last())
        } else {
            rest
        }
    }
}

/// The messages of a feed, newest first.
pub open spec fn messages(v: AlertSeq) -> Seq<Seq<char>> {
    v.map_values(|a: (Seq<char>, u64)| a.0)
}

/// The message of the built-in CPU check for a reading in tenths of a percent.
pub open spec fn cpu_message(tenths: nat) -> Seq<char> {
    "High CPU usage: "@ + one_decimal(tenths) + "%"@
}

/// The message of the built-in memory check for a share in tenths of a percent.
pub open spec fn memory_message(tenths: nat) -> Seq<char> {
    "High Memory usage: "@ + one_decimal(tenths) + "%"@
}

/// Whether the built-in CPU check fires: usage above 80%.
pub open spec fn cpu_high(m: Metrics) -> bool {
    m.cpu_tenths > CPU_ALERT_TENTHS
}

/// Whether the built-in memory check fires: `used / total * 100` above 85,
/// where a zero total counts as 0%.
pub open spec fn memory_high(m: Metrics) -> bool {
    m.memory_total > 0 && 100 * (m.memory_used as int) > (MEMORY_ALERT_PERCENT as int) * (
    m.memory_total as int)
}

/// The feed after the built-in checks on `m` raise their alerts at `now`:
/// the CPU alert first, then the memory alert.
pub open spec fn checked(v: AlertSeq, m: Metrics, now: u64, max: nat) -> AlertSeq {
    let v1 = if cpu_high(m) {
        pushed(v, cpu_message(m.cpu_tenths as nat), now, max)
    } else {
        v
    };
    let v2 = if memory_high(m) {
        pushed(v1, memory_message(m.memory_percent_spec()), now, max)
    } else {
        v1
    };
    v2
}

/// The feed after one tick's built-in checks on `m` and the cleanup at `now`.
pub open spec fn updated(v: AlertSeq, m: Metrics, now: u64, max: nat, ttl: u64) -> AlertSeq {
    unexpired(checked(v, m, now, max), now, ttl)
}

/// The alert of the built-in CPU check, if usage is above 80%.
pub fn cpu_alert(m: &Metrics) -> (r: Option<String>)
    ensures
        r.is_some() == cpu_high(*m),
        r.is_some() ==> r->0@ == cpu_message(m.cpu_tenths as nat),
{
    if m.cpu_tenths > CPU_ALERT_TENTHS {
        let mut s = String::from_str("High CPU usage: ");
        push_one_decimal(&mut s, m.cpu_tenths as u128);
        s.append("%");
        Some(s)
    } else {
        None
    }
}

/// The alert of the built-in memory check, if more than 85% of memory is in
/// use. A zero total never fires.
pub fn memory_alert(m: &Metrics) -> (r: Option<String>)
    ensures
        r.is_some() == memory_high(*m),
        r.is_some() ==> r->0@ == memory_message(m.memory_percent_spec()),
{
    let used: u128 = m.memory_used as u128;
    let total: u128 = m.memory_total as u128;
    let limit: u128 = MEMORY_ALERT_PERCENT as u128;
    assert(limit * total <= 100 * 0xffff_ffff_ffff_ffffu128) by (nonlinear_arith)
        requires
            limit == 85,
            total <= 0xffff_ffff_ffff_ffffu128,
    ;
    if total > 0 && 100 * used > limit * total {
        let mut s = String::from_str("High Memory usage: ");
        push_one_decimal(&mut s, m.memory_percent_tenths());
        s.append("%");
        Some(s)
    } else {
        None
    }
}

/// A bounded feed of alerts, newest first.
pub struct AlertEngine {
    alerts: Vec<Alert>,
    max_alerts: usize,
    ttl_ms: u64,
}

impl View for AlertEngine {
    type V = AlertSeq;

    closed spec fn view(&self) -> AlertSeq {
        self.alerts@.map_values(|a: Alert| (a.message@, a.created))
    }
}

impl AlertEngine {
    /// The most alerts the feed holds.
    pub closed spec fn max(&self) -> nat {
        self.max_alerts as nat
    }

    /// How long an alert lives, in milliseconds.
    pub closed spec fn ttl(&self) -> u64 {
        self.ttl_ms
    }

    /// The feed never holds more than its bound.
    pub open spec fn wf(&self) -> bool {
        self@.len() <= self.max()
    }

    /// An empty feed with room for ten alerts, each living twenty seconds.
    pub fn new() -> (r: Self)
        ensures
            r.wf(),
            r@ == Seq::<(Seq<char>, u64)>::empty(),
            r.max() == MAX_ALERTS,
            r.ttl() == ALERT_TTL_MS,
    {
        Self::with_limits(MAX_ALERTS, ALERT_TTL_MS)
    }

    /// An empty feed with room for `max_alerts` alerts, each living `ttl_ms`
    /// milliseconds.
    pub fn with_limits(max_alerts: usize, ttl_ms: u64) -> (r: Self)
        ensures
            r.wf(),
            r@ == Seq::<(Seq<char>, u64)>::empty(),
            r.max() == max_alerts,
            r.ttl() == ttl_ms,
    {
        let r = AlertEngine { alerts: Vec::new(), max_alerts, ttl_ms };
        assert(r@ =~= Seq::<(Seq<char>, u64)>::empty());
        r
    }

    /// Raises `message` at time `now`: nothing happens when the newest alert
    /// has the same message; otherwise the alert goes in front and the oldest
    /// alerts beyond the bound are dropped.
    pub fn push(&mut self, message: String, now: u64)
        requires
            old(self).wf(),
        ensures
            final(self).wf(),
            final(self)@ == pushed(old(self)@, message@, now, old(self).max()),
            final(self).max() == old(self).max(),
            final(self).ttl() == old(self).ttl(),
    {
        if self.alerts.len() > 0 && self.alerts[0].message == message {
            return;
        }
        let ghost m = message@;
        self.alerts.insert(0, Alert { message, created: now });
        proof {
            assert(self@ =~= seq![(m, now)] + old(self)@);
        }
        self.alerts.truncate(self.max_alerts);
        proof {
            assert(self@ =~= pushed(old(self)@, m, now, old(self).max()));
        }
    }

    /// Forgets every alert that is no longer alive at `now`.
    pub fn cleanup(&mut self, now: u64)
        requires
            old(self).wf(),
        ensures
            final(self).wf(),
            final(self)@ == unexpired(old(self)@, now, old(self).ttl()),
            final(self).max() == old(self).max(),
            final(self).ttl() == old(self).ttl(),
    {
        let ghost v = self@;
        let mut kept: Vec<Alert> = Vec::new();
        let mut i: usize = 0;
        while i < self.alerts.len()
            invariant
                0 <= i <= self.alerts.len(),
                self@ == v,
                kept@.map_values(|a: Alert| (a.message@, a.created)) == unexpired(
                    v.take(i as int),
                    now,
                    self.ttl_ms,
                ),
            decreases self.alerts.len() - i,
        {
            let a = &self.alerts[i];
            proof {
                assert(v.take(i + 1).drop_last() =~= v.take(i as int));
                lemma_unexpired_len(v.take(i as int), now, self.ttl_ms);
            }
            if now < a.created || now - a.created < self.ttl_ms {
                kept.push(Alert { message: a.message.clone(), created: a.created });
            }
            proof {
                assert(kept@.map_values(|a: Alert| (a.message@, a.created)) =~= unexpired(
                    v.take(i + 1),
                    now,
                    self.ttl_ms,
                ));
            }
            i = i + 1;
        }
        proof {
            assert(v.take(i as int) =~= v);
            lemma_unexpired_len(v, now, self.ttl_ms);
        }
        self.alerts = kept;
    }

    /// The messages of the feed, newest first.
    pub fn list(&self) -> (r: Vec<String>)
        ensures
            r@.map_values(|s: String| s@) == messages(self@),
    {
        let mut r: Vec<String> = Vec::new();
        let mut i: usize = 0;
        while i < self.alerts.len()
            invariant
                0 <= i <= self.alerts.len(),
                r@.map_values(|s: String| s@) == messages(self@.take(i as int)),
            decreases self.alerts.len() - i,
        {
            let ghost r0 = r@;
            let msg = self.alerts[i].message.clone();
            r.push(msg);
            proof {
                assert(r@.map_values(|s: String| s@) =~= r0.map_values(|s: String| s@).push(msg@));
                assert(messages(self@.take(i + 1)) =~= messages(self@.take(i as int)).push(
                    self@[i as int].0,
                ));
                assert(r@.map_values(|s: String| s@) =~= messages(self@.take(i + 1)));
            }
            i = i + 1;
        }
        proof {
            assert(self@.take(i as int) =~= self@);
        }
        r
    }

    /// The built-in checks on `m` at time `now`: the CPU alert and then the
    /// memory alert are raised where they fire, as ordinary pushes.
    pub fn check_thresholds(&mut self, m: &Metrics, now: u64)
        requires
            old(self).wf(),
        ensures
            final(self).wf(),
            final(self)@ == checked(old(self)@, *m, now, old(self).max()),
            final(self).max() == old(self).max(),
            final(self).ttl() == old(self).ttl(),
    {
        if let Some(msg) = cpu_alert(m) {
            self.push(msg, now);
        }
        if let Some(msg) = memory_alert(m) {
            self.push(msg, now);
        }
    }

    /// One tick of the built-in checks on `m` at time `now`, followed by the
    /// cleanup at `now`.
    pub fn update(&mut self, m: &Metrics, now: u64)
        requires
            old(self).wf(),
        ensures
            final(self).wf(),
            final(self)@ == updated(old(self)@, *m, now, old(self).max(), old(self).ttl()),
            final(self).max() == old(self).max(),
            final(self).ttl() == old(self).ttl(),
    {
        self.check_thresholds(m, now);
        self.cleanup(now);
    }
}

/// Cleanup never lengthens a feed.
proof fn lemma_unexpired_len(v: AlertSeq, now: u64, ttl: u64)
    ensures
        unexpired(v, now, ttl).len() <= v.len(),
    decreases v.len(),
{
    if v.len() > 0 {
        lemma_unexpired_len(v.drop_last(), now, ttl);
    }
}

/// However many alerts are raised, and in whatever order, a feed that starts
/// within its bound stays within it.
pub proof fn lemma_feed_stays_bounded(v: AlertSeq, events: AlertSeq, max: nat)
    requires
        v.len() <= max,
    ensures
        pushed_all(v, events, max).len() <= max,
    decreases events.len(),
{
    if events.len() > 0 {
        lemma_feed_stays_bounded(v, events.drop_last(), max);
    }
}

/// After a cleanup at `now`, no alert remains whose age has reached the
/// lifetime.
pub proof fn lemma_cleanup_drops_expired(v: AlertSeq, now: u64, ttl: u64)
    ensures
        forall|i: int|
            0 <= i < unexpired(v, now, ttl).len() ==> (now as int) - (#[trigger] unexpired(
                v,
                now,
                ttl,
            )[i]).1 < ttl as int,
    decreases v.len(),
{
    if v.len() > 0 {
        lemma_cleanup_drops_expired(v.drop_last(), now, ttl);
        let rest = unexpired(v.drop_last(), now, ttl);
        let r = unexpired(v, now, ttl);
        assert forall|i: int| 0 <= i < r.len() implies (now as int) - (#[trigger] r[i]).1
            < ttl as int by {
            if i < rest.len() {
                assert(r[i] == rest[i]);
            }
        }
    }
}

/// Raising the same message twice in a row is the same as raising it once:
/// an empty feed then holds exactly one alert.
pub proof fn lemma_repeat_is_suppressed(
    v: AlertSeq,
    message: Seq<char>,
    t1: u64,
    t2: u64,
    max: nat,
)
    ensures
        pushed(pushed(v, message, t1, max), message, t2, max) == pushed(v, message, t1, max),
        v.len() == 0 && max >= 1 ==> pushed(pushed(v, message, t1, max), message, t2, max).len()
            == 1,
{
}

/// Only adjacent duplicates are suppressed: raising `a`, `b`, `a` on an
/// empty feed with room for three stores all three.
pub proof fn lemma_only_adjacent_duplicates(
    a: Seq<char>,
    b: Seq<char>,
    t1: u64,
    t2: u64,
    t3: u64,
    max: nat,
)
    requires
        a != b,
        max >= 3,
    ensures
        messages(
            pushed(pushed(pushed(Seq::<(Seq<char>, u64)>::empty(), a, t1, max), b, t2, max), a, t3, max),
        ) == seq![a, b, a],
{
    let v1 = pushed(Seq::<(Seq<char>, u64)>::empty(), a, t1, max);
    assert(v1 =~= seq![(a, t1)]);
    let v2 = pushed(v1, b, t2, max);
    assert(v2 =~= seq![(b, t2), (a, t1)]);
    let v3 = pushed(v2, a, t3, max);
    assert(v3 =~= seq![(a, t3), (b, t2), (a, t1)]);
    assert(messages(v3) =~= seq![a, b, a]);
}

/// A message unlike the newest alert goes in front; the others keep their
/// order behind it, and only the oldest drop out to respect the bound.
pub proof fn lemma_newest_first(v: AlertSeq, message: Seq<char>, now: u64, max: nat)
    requires
        v.len() == 0 || v[0].0 != message,
    ensures
        messages(pushed(v, message, now, max)) == (seq![message] + messages(v)).take(
            if v.len() + 1 > max {
                max as int
            } else {
                v.len() + 1 as int
            },
        ),
{
    let w = seq![(message, now)] + v;
    assert(messages(w) =~= seq![message] + messages(v));
    if w.len() > max {
        assert(messages(w.take(max as int)) =~= messages(w).take(max as int));
    } else {
        assert(messages(w).take(w.len() as int) =~= messages(w));
    }
}

} // verus!
