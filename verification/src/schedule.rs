//! Schedule evaluation. The daemon ticks once per minute, checks the
//! configured schedules against wall time, and applies the profile of every
//! rule that matches the current minute. Each rule fires at most once per
//! trigger window: the checker remembers when every rule last fired.

use std::str::FromStr;

use vstd::prelude::*;

use crate::text::{decimal, lemma_decimal_injective, lemma_decimal_nonempty, push_decimal, push_str};

verus! {

/// When a rule fires.
#[derive(Debug, Clone)]
pub enum Trigger {
    /// Every day at `hour:minute` local time.
    Daily { hour: u8, minute: u8 },
    /// A cron expression, evaluated in UTC.
    Cron { expr: String },
}

/// One schedule rule: apply `profile` when `trigger` matches.
#[derive(Debug, Clone)]
pub struct Schedule {
    pub display_name: Option<String>,
    pub profile: String,
    pub trigger: Trigger,
    pub enabled: bool,
}

/// The part of the configuration the checker reads.
#[derive(Debug, Clone)]
pub struct ScheduleConfig {
    pub schedules: Vec<Schedule>,
    pub schedules_paused: bool,
}

/// The wall-clock instant a check runs at: Unix seconds plus the local
/// hour and minute of that instant (the caller reads the local time zone).
#[derive(Debug, Clone, Copy, PartialEq, Eq, Structural)]
pub struct WallClock {
    pub timestamp: i64,
    pub hour: u32,
    pub minute: u32,
}

/// The first second `chrono` represents as a `DateTime<Utc>`: 1 January of
/// the year -262143, 00:00:00 UTC, in Unix seconds.
pub const UTC_MIN_SECS: i64 = -8334601228800;

/// The last second `chrono` represents as a `DateTime<Utc>`: 31 December
/// 262142, 23:59:59 UTC, in Unix seconds.
pub const UTC_MAX_SECS: i64 = 8210266876799;

/// Next fire time (Unix seconds) of the cron expression `expr` strictly after
/// `since_secs`, as the `cron` crate computes it: `None` when `expr` does not
/// parse, `Some(None)` when the schedule has no later fire time.
pub uninterp spec fn cron_next_fire(expr: Seq<char>, since_secs: i64) -> Option<Option<i64>>;

/// Parses `expr` with `cron::Schedule::from_str` and takes the first item of
/// `Schedule::after` at `since_secs`. The result is named by
/// `cron_next_fire`; of the cron algorithm only this is claimed: the search
/// starts one second after `since_secs`, so a fire time it yields is strictly
/// later. The bound keeps `since_secs` and that next second inside what
/// `chrono` represents: at [`UTC_MAX_SECS`] the search's first step panics.
#[verifier::external_body]
fn cron_first_fire_after(expr: &str, since_secs: i64) -> (r: Option<Option<i64>>)
    requires
        UTC_MIN_SECS <= since_secs < UTC_MAX_SECS,
    ensures
        r == cron_next_fire(expr@, since_secs),
        r matches Some(Some(t)) ==> t > since_secs,
{
    let sched = match cron::Schedule::from_str(expr) {
        Ok(s) => s,
        Err(_) => return None,
    };
    let since = match chrono::DateTime::from_timestamp(since_secs, 0) {
        Some(d) => d,
        None => return Some(None),
    };
    Some(sched.after(&since).next().map(|t| t.timestamp()))
}

/// Abstract content of a rule.
pub struct RuleView {
    pub display_name: Option<Seq<char>>,
    pub profile: Seq<char>,
    pub trigger: TriggerView,
    pub enabled: bool,
}

/// Abstract content of a trigger.
pub enum TriggerView {
    Daily { hour: u8, minute: u8 },
    Cron { expr: Seq<char> },
}

/// The abstract view of a rule.
pub open spec fn rule_view(r: Schedule) -> RuleView {
    RuleView {
        display_name: match r.display_name {
            Some(n) => Some(n@),
            None => None,
        },
        profile: r.profile@,
        trigger: match r.trigger {
            Trigger::Daily { hour, minute } => TriggerView::Daily { hour, minute },
            Trigger::Cron { expr } => TriggerView::Cron { expr: expr@ },
        },
        enabled: r.enabled,
    }
}

/// The key a rule's last fire is remembered under: its display name, or
/// `schedule[<index>]` when it has none.
pub open spec fn rule_key_spec(r: RuleView, idx: nat) -> Seq<char> {
    match r.display_name {
        Some(n) => n,
        None => "schedule["@ + decimal(idx) + "]"@,
    }
}

/// A daily rule fires in its minute, unless it already fired within the
/// last 60 seconds.
pub open spec fn daily_fires(hour: u8, minute: u8, now: WallClock, last: Option<i64>) -> bool {
    &&& hour as u32 == now.hour
    &&& minute as u32 == now.minute
    &&& match last {
        None => true,
        Some(t) => now.timestamp - t > 60,
    }
}

/// The instant a cron rule looks for fire times after: its last fire, or
/// 65 seconds ago when it never fired or the stored value is no instant
/// `chrono` represents.
pub open spec fn cron_since(now: WallClock, last: Option<i64>) -> i64 {
    match last {
        Some(t) => if UTC_MIN_SECS <= t <= UTC_MAX_SECS {
            t
        } else {
            (now.timestamp - 65) as i64
        },
        None => (now.timestamp - 65) as i64,
    }
}

/// A cron rule fires when its next fire time after `cron_since` is not later
/// than now; an expression that does not parse never fires.
pub open spec fn cron_fires(expr: Seq<char>, now: WallClock, last: Option<i64>) -> bool {
    match cron_next_fire(expr, cron_since(now, last)) {
        Some(Some(t)) => t <= now.timestamp,
        _ => false,
    }
}

/// Whether a rule fires at `now`, given when it last fired.
pub open spec fn rule_fires(r: RuleView, now: WallClock, last: Option<i64>) -> bool {
    match r.trigger {
        TriggerView::Daily { hour, minute } => daily_fires(hour, minute, now, last),
        TriggerView::Cron { expr } => cron_fires(expr, now, last),
    }
}

/// The memory of last fires after visiting the first `n` rules, and the
/// profiles those rules fired, in rule order.
pub open spec fn run_rules(
    last: Map<Seq<char>, i64>,
    rules: Seq<RuleView>,
    n: nat,
    now: WallClock,
) -> (Map<Seq<char>, i64>, Seq<Seq<char>>)
    decreases n,
{
    if n == 0 || n > rules.len() {
        (last, Seq::empty())
    } else {
        let (m, out) = run_rules(last, rules, (n - 1) as nat, now);
        let r = rules[n - 1];
        let key = rule_key_spec(r, (n - 1) as nat);
        let prev = if m.contains_key(key) {
            Some(m[key])
        } else {
            None
        };
        if r.enabled && rule_fires(r, now, prev) {
            (m.insert(key, now.timestamp), out.push(r.profile))
        } else {
            (m, out)
        }
    }
}

/// The result of a check at `now` over `rules`: nothing while schedules are
/// paused, else every enabled rule that fires, in order, with its fire time
/// recorded.
pub open spec fn check_result(
    last: Map<Seq<char>, i64>,
    rules: Seq<RuleView>,
    paused: bool,
    now: WallClock,
) -> (Map<Seq<char>, i64>, Seq<Seq<char>>) {
    if paused {
        (last, Seq::empty())
    } else {
        run_rules(last, rules, rules.len(), now)
    }
}

/// Lookup in a list of `(key, value)` pairs, newest binding last.
pub open spec fn lookup(s: Seq<(Seq<char>, i64)>, k: Seq<char>) -> Option<i64>
    decreases s.len(),
{
    if s.len() == 0 {
        None
    } else if s.last().0 == k {
        Some(s.last().1)
    } else {
        lookup(s.drop_last(), k)
    }
}

/// Per-rule last-fire timestamps, so each rule fires at most once per window.
pub struct ScheduleChecker {
    last_fire: Vec<(String, i64)>,
}

/// The pairs of the fire log, by value.
pub open spec fn log_view(v: Seq<(String, i64)>) -> Seq<(Seq<char>, i64)> {
    v.map_values(|p: (String, i64)| (p.0@, p.1))
}

proof fn lemma_lookup_push(s: Seq<(Seq<char>, i64)>, k: Seq<char>, v: i64, q: Seq<char>)
    ensures
        lookup(s.push((k, v)), q) == if q == k {
            Some(v)
        } else {
            lookup(s, q)
        },
{
    assert(s.push((k, v)).drop_last() =~= s);
}

proof fn lemma_lookup_update(s: Seq<(Seq<char>, i64)>, i: int, v: i64, q: Seq<char>)
    requires
        0 <= i < s.len(),
        forall|j: int| 0 <= j < s.len() && j != i ==> s[j].0 != s[i].0,
    ensures
        lookup(s.update(i, (s[i].0, v)), q) == if q == s[i].0 {
            Some(v)
        } else {
            lookup(s, q)
        },
    decreases s.len(),
{
    let t = s.update(i, (s[i].0, v));
    if i == s.len() - 1 {
        assert(t.drop_last() =~= s.drop_last());
        if q != s[i].0 {
        } else {
        }
    } else {
        lemma_lookup_update(s.drop_last(), i, v, q);
        assert(t.drop_last() =~= s.drop_last().update(i, (s[i].0, v)));
        assert(t.last() == s.last());
    }
}

impl ScheduleChecker {
    /// What the checker remembers: the last fire time of each rule key.
    pub closed spec fn fires(&self) -> Map<Seq<char>, i64> {
        Map::new(
            |k: Seq<char>| lookup(log_view(self.last_fire@), k) is Some,
            |k: Seq<char>| lookup(log_view(self.last_fire@), k)->0,
        )
    }

    /// Keys in the log are distinct, and every recorded fire lies before
    /// [`UTC_MAX_SECS`], so a cron search can start from it.
    pub closed spec fn wf(&self) -> bool {
        &&& forall|i: int, j: int|
            0 <= i < self.last_fire@.len() && 0 <= j < self.last_fire@.len() && i != j
                ==> self.last_fire@[i].0@ != self.last_fire@[j].0@
        &&& forall|k: Seq<char>| #[trigger] self.fires().contains_key(k) ==> self.fires()[k] < UTC_MAX_SECS
    }

    /// A checker that has seen no fires.
    pub fn new() -> (c: ScheduleChecker)
        ensures
            c.wf(),
            c.fires() == Map::<Seq<char>, i64>::empty(),
    {
        let c = ScheduleChecker { last_fire: Vec::new() };
        assert(log_view(c.last_fire@) =~= Seq::<(Seq<char>, i64)>::empty());
        assert(c.fires() =~= Map::<Seq<char>, i64>::empty());
        c
    }

    fn last_for(&self, key: &String) -> (r: Option<i64>)
        requires
            self.wf(),
        ensures
            r == (if self.fires().contains_key(key@) {
                Some(self.fires()[key@])
            } else {
                None
            }),
    {
        let mut i: usize = 0;
        while i < self.last_fire.len()
            invariant
                self.wf(),
                i <= self.last_fire@.len(),
                forall|j: int| 0 <= j < i ==> self.last_fire@[j].0@ != key@,
            decreases self.last_fire@.len() - i,
        {
            if self.last_fire[i].0 == *key {
                let v = self.last_fire[i].1;
                proof {
                    self.lemma_lookup_at(i as int);
                }
                return Some(v);
            }
            i += 1;
        }
        proof {
            self.lemma_lookup_absent(key@);
        }
        None
    }

    proof fn lemma_lookup_at(&self, i: int)
        requires
            self.wf(),
            0 <= i < self.last_fire@.len(),
        ensures
            lookup(log_view(self.last_fire@), self.last_fire@[i].0@) == Some(self.last_fire@[i].1),
    {
        let s = log_view(self.last_fire@);
        lemma_lookup_unique_at(s, i);
    }

    proof fn lemma_lookup_absent(&self, k: Seq<char>)
        requires
            forall|j: int| 0 <= j < self.last_fire@.len() ==> self.last_fire@[j].0@ != k,
        ensures
            lookup(log_view(self.last_fire@), k) is None,
    {
        lemma_lookup_none(log_view(self.last_fire@), k);
    }

    fn record(&mut self, key: String, at: i64)
        requires
            old(self).wf(),
            at < UTC_MAX_SECS,
        ensures
            final(self).wf(),
            final(self).fires() == old(self).fires().insert(key@, at),
    {
        let ghost s0 = log_view(self.last_fire@);
        let ghost key_view = key@;
        let mut i: usize = 0;
        while i < self.last_fire.len()
            invariant
                self.wf(),
                old(self).wf(),
                at < UTC_MAX_SECS,
                key_view == key@,
                log_view(self.last_fire@) == s0,
                s0 == log_view(old(self).last_fire@),
                i <= self.last_fire@.len(),
                forall|j: int| 0 <= j < i ==> self.last_fire@[j].0@ != key@,
            decreases self.last_fire@.len() - i,
        {
            if self.last_fire[i].0 == key {
                let ghost old_log = self.last_fire@;
                self.last_fire.set(i, (key, at));
                proof {
                    assert(log_view(self.last_fire@) =~= s0.update(i as int, (s0[i as int].0, at)));
                    assert forall|q: Seq<char>| #![auto]
                        lookup(log_view(self.last_fire@), q) == (if q == key_view {
                            Some(at)
                        } else {
                            lookup(s0, q)
                        }) by {
                        lemma_lookup_update(s0, i as int, at, q);
                    }
                    assert(self.fires() =~= old(self).fires().insert(key_view, at));
                    assert forall|a: int, b: int|
                        0 <= a < self.last_fire@.len() && 0 <= b < self.last_fire@.len() && a != b
                            implies self.last_fire@[a].0@ != self.last_fire@[b].0@ by {
                        assert(self.last_fire@[a].0@ == old_log[a].0@);
                        assert(self.last_fire@[b].0@ == old_log[b].0@);
                    }
                    assert forall|k: Seq<char>| #[trigger] self.fires().contains_key(k) implies self.fires()[k]
                        < UTC_MAX_SECS by {
                        if k != key_view {
                            assert(old(self).fires().contains_key(k));
                        }
                    }
                }
                return;
            }
            i += 1;
        }
        self.last_fire.push((key, at));
        proof {
            assert(log_view(self.last_fire@) =~= s0.push((key_view, at)));
            assert forall|q: Seq<char>| #![auto]
                lookup(log_view(self.last_fire@), q) == (if q == key_view {
                    Some(at)
                } else {
                    lookup(s0, q)
                }) by {
                lemma_lookup_push(s0, key_view, at, q);
            }
            assert(self.fires() =~= old(self).fires().insert(key_view, at));
            assert forall|k: Seq<char>| #[trigger] self.fires().contains_key(k) implies self.fires()[k]
                < UTC_MAX_SECS by {
                if k != key_view {
                    assert(old(self).fires().contains_key(k));
                }
            }
        }
    }
}

proof fn lemma_lookup_none(s: Seq<(Seq<char>, i64)>, k: Seq<char>)
    requires
        forall|j: int| 0 <= j < s.len() ==> s[j].0 != k,
    ensures
        lookup(s, k) is None,
    decreases s.len(),
{
    if s.len() > 0 {
        lemma_lookup_none(s.drop_last(), k);
    }
}

proof fn lemma_lookup_unique_at(s: Seq<(Seq<char>, i64)>, i: int)
    requires
        0 <= i < s.len(),
        forall|a: int, b: int| 0 <= a < s.len() && 0 <= b < s.len() && a != b ==> s[a].0 != s[b].0,
    ensures
        lookup(s, s[i].0) == Some(s[i].1),
    decreases s.len(),
{
    if i < s.len() - 1 {
        lemma_lookup_unique_at(s.drop_last(), i);
    }
}

/// The key a rule's last fire is stored under (`display_name`, or
/// `schedule[<idx>]`).
pub fn rule_key(rule: &Schedule, idx: usize) -> (k: String)
    ensures
        k@ == rule_key_spec(rule_view(*rule), idx as nat),
{
    match &rule.display_name {
        Some(n) => n.clone(),
        None => {
            let mut k = String::new();
            push_str(&mut k, "schedule[");
            push_decimal(&mut k, idx as u64);
            push_str(&mut k, "]");
            k
        },
    }
}

/// Whether a daily `hour:minute` rule fires at `now` given its last fire.
pub fn daily_should_fire(hour: u8, minute: u8, now: WallClock, last_secs: Option<i64>) -> (r: bool)
    ensures
        r == daily_fires(hour, minute, now, last_secs),
{
    if hour as u32 != now.hour || minute as u32 != now.minute {
        return false;
    }
    match last_secs {
        None => true,
        Some(t) => (now.timestamp as i128) - (t as i128) > 60,
    }
}

/// Whether a cron rule fires at `now` given its last fire.
pub fn cron_should_fire(expr: &str, now: WallClock, last_secs: Option<i64>) -> (r: bool)
    requires
        UTC_MIN_SECS <= now.timestamp <= UTC_MAX_SECS,
        UTC_MIN_SECS <= cron_since(now, last_secs) < UTC_MAX_SECS,
    ensures
        r == cron_fires(expr@, now, last_secs),
{
    let fallback = now.timestamp - 65;
    let since = match last_secs {
        Some(t) => if UTC_MIN_SECS <= t && t <= UTC_MAX_SECS {
            t
        } else {
            fallback
        },
        None => fallback,
    };
    match cron_first_fire_after(expr, since) {
        Some(Some(t)) => t <= now.timestamp,
        _ => false,
    }
}

/// Whether `rule` fires at `now` given its last fire.
pub fn rule_should_fire(rule: &Schedule, now: WallClock, last_secs: Option<i64>) -> (r: bool)
    requires
        UTC_MIN_SECS <= now.timestamp <= UTC_MAX_SECS,
        rule.trigger is Cron ==> UTC_MIN_SECS <= cron_since(now, last_secs) < UTC_MAX_SECS,
    ensures
        r == rule_fires(rule_view(*rule), now, last_secs),
{
    match &rule.trigger {
        Trigger::Daily { hour, minute } => daily_should_fire(*hour, *minute, now, last_secs),
        Trigger::Cron { expr } => cron_should_fire(expr.as_str(), now, last_secs),
    }
}

/// The rules of a configuration, by value.
pub open spec fn rules_view(cfg: ScheduleConfig) -> Seq<RuleView> {
    cfg.schedules@.map_values(|r: Schedule| rule_view(r))
}

impl ScheduleChecker {
    /// Check every rule against `now`: return the profiles of the enabled
    /// rules that fire, in rule order, and remember their fire time. Nothing
    /// fires while schedules are paused.
    pub fn check_at(&mut self, now: WallClock, cfg: &ScheduleConfig) -> (out: Vec<String>)
        requires
            old(self).wf(),
            UTC_MIN_SECS + 65 <= now.timestamp < UTC_MAX_SECS,
        ensures
            final(self).wf(),
            (final(self).fires(), out@.map_values(|p: String| p@)) == check_result(
                old(self).fires(),
                rules_view(*cfg),
                cfg.schedules_paused,
                now,
            ),
    {
        let mut to_apply: Vec<String> = Vec::new();
        if cfg.schedules_paused {
            assert(to_apply@.map_values(|p: String| p@) =~= Seq::<Seq<char>>::empty());
            return to_apply;
        }
        let ghost rules = rules_view(*cfg);
        let ghost m0 = self.fires();
        let mut i: usize = 0;
        while i < cfg.schedules.len()
            invariant
                self.wf(),
                rules == rules_view(*cfg),
                UTC_MIN_SECS + 65 <= now.timestamp < UTC_MAX_SECS,
                i <= cfg.schedules@.len(),
                (self.fires(), to_apply@.map_values(|p: String| p@)) == run_rules(
                    m0,
                    rules,
                    i as nat,
                    now,
                ),
            decreases cfg.schedules@.len() - i,
        {
            let rule = &cfg.schedules[i];
            assert(rules[i as int] == rule_view(*rule));
            if rule.enabled {
                let key = rule_key(rule, i);
                let last = self.last_for(&key);
                if rule_should_fire(rule, now, last) {
                    let ghost prev_out = to_apply@.map_values(|p: String| p@);
                    to_apply.push(rule.profile.clone());
                    assert(to_apply@.map_values(|p: String| p@) =~= prev_out.push(rule.profile@));
                    self.record(key, now.timestamp);
                }
            }
            i += 1;
        }
        to_apply
    }
}

/// Time to sleep until just past the next wall-clock minute boundary, in
/// milliseconds: the rest of the current minute plus a 250 ms grace, so the
/// next check reliably lands after the boundary.
pub fn sleep_to_next_minute(second: u32, subsec_millis: u32) -> (ms: u64)
    requires
        second < 60,
        subsec_millis < 1000,
    ensures
        ms == (60 - second) * 1000 - subsec_millis + 250,
{
    let secs_to_next: u32 = 60 - second;
    let ms_to_next: u64 = (secs_to_next as u64) * 1000 - (subsec_millis as u64);
    ms_to_next + 250
}

/// The last fire of the cron expression `expr` in `(since, now]`: the
/// latest of the fire times the `cron` crate yields after `since` that are
/// not later than `now`.
pub open spec fn cron_last_fire_spec(expr: Seq<char>, since: i64, now: i64) -> Option<i64>
    decreases now - since,
{
    match cron_next_fire(expr, since) {
        Some(Some(t)) => if since < t && t <= now {
            match cron_last_fire_spec(expr, t, now) {
                Some(u) => Some(u),
                None => Some(t),
            }
        } else {
            None
        },
        _ => None,
    }
}

/// The last fire of `expr` after `since` and not later than `now`, found by
/// walking the fire times from `since` on.
pub fn cron_last_fire_between(expr: &str, since: i64, now: i64) -> (r: Option<i64>)
    requires
        UTC_MIN_SECS <= since <= now < UTC_MAX_SECS,
    ensures
        r == cron_last_fire_spec(expr@, since, now),
{
    let mut at = since;
    let mut last: Option<i64> = None;
    loop
        invariant
            UTC_MIN_SECS <= since <= at <= now < UTC_MAX_SECS,
            cron_last_fire_spec(expr@, since, now) == match cron_last_fire_spec(expr@, at, now) {
                Some(u) => Some(u),
                None => last,
            },
        decreases now - at,
    {
        match cron_first_fire_after(expr, at) {
            Some(Some(t)) => {
                if at < t && t <= now {
                    last = Some(t);
                    at = t;
                } else {
                    return last;
                }
            },
            _ => {
                return last;
            },
        }
    }
}

/// When a rule last fired today, not after `now`: a daily rule at its
/// minute (`daily_at`, that minute today in local time, resolved by the
/// caller), a cron rule at its last fire between local midnight
/// (`day_start`) and `now`. A disabled rule, an unresolved local time, or a
/// midnight after `now` gives none.
pub open spec fn last_fire_today_spec(
    r: RuleView,
    daily_at: Option<i64>,
    day_start: Option<i64>,
    now: i64,
) -> Option<i64> {
    if !r.enabled {
        None
    } else {
        match r.trigger {
            TriggerView::Daily { .. } => daily_at,
            TriggerView::Cron { expr } => match day_start {
                Some(ds) => if UTC_MIN_SECS <= ds <= now {
                    cron_last_fire_spec(expr, ds, now)
                } else {
                    None
                },
                None => None,
            },
        }
    }
}

/// Every rule's last fire today.
pub open spec fn fires_today(
    rules: Seq<RuleView>,
    daily_at: Seq<Option<i64>>,
    day_start: Option<i64>,
    now: i64,
) -> Seq<Option<i64>> {
    Seq::new(
        rules.len(),
        |i: int| last_fire_today_spec(rules[i], daily_at[i], day_start, now),
    )
}

/// The profile a boot catch-up applies: among the enabled rules, the one
/// whose last fire time today (`fires[i]`) is the latest not after `now`;
/// the earlier rule wins a tie.
pub open spec fn catch_up_pick(
    rules: Seq<RuleView>,
    fires: Seq<Option<i64>>,
    now: i64,
    n: nat,
) -> Option<(i64, Seq<char>)>
    decreases n,
{
    if n == 0 || n > rules.len() || n > fires.len() {
        None
    } else {
        let best = catch_up_pick(rules, fires, now, (n - 1) as nat);
        let r = rules[n - 1];
        match fires[n - 1] {
            Some(t) => if r.enabled && t <= now {
                match best {
                    Some((bt, bp)) => if bt >= t {
                        best
                    } else {
                        Some((t, r.profile))
                    },
                    None => Some((t, r.profile)),
                }
            } else {
                best
            },
            None => best,
        }
    }
}

/// Boot catch-up: the profile of the most recent past fire today across all
/// enabled rules, or `None` (also while schedules are paused). `daily_at[i]`
/// is rule `i`'s daily minute today as a timestamp and `day_start` local
/// midnight, both resolved by the caller in the local time zone; the cron
/// fire times are computed here.
pub fn boot_catch_up(
    cfg: &ScheduleConfig,
    daily_at: &Vec<Option<i64>>,
    day_start: Option<i64>,
    now: i64,
) -> (r: Option<String>)
    requires
        daily_at@.len() == cfg.schedules@.len(),
        now < UTC_MAX_SECS,
    ensures
        cfg.schedules_paused ==> r is None,
        !cfg.schedules_paused ==> match catch_up_pick(
            rules_view(*cfg),
            fires_today(rules_view(*cfg), daily_at@, day_start, now),
            now,
            cfg.schedules@.len() as nat,
        ) {
            Some((_, p)) => r matches Some(s) && s@ == p,
            None => r is None,
        },
{
    if cfg.schedules_paused {
        return None;
    }
    let ghost rules = rules_view(*cfg);
    let ghost fires = fires_today(rules, daily_at@, day_start, now);
    let mut best: Option<(i64, String)> = None;
    let mut i: usize = 0;
    while i < cfg.schedules.len()
        invariant
            rules == rules_view(*cfg),
            fires == fires_today(rules, daily_at@, day_start, now),
            daily_at@.len() == cfg.schedules@.len(),
            now < UTC_MAX_SECS,
            i <= cfg.schedules@.len(),
            match catch_up_pick(rules, fires, now, i as nat) {
                Some((t, p)) => best matches Some(b) && b.0 == t && b.1@ == p,
                None => best is None,
            },
        decreases cfg.schedules@.len() - i,
    {
        let rule = &cfg.schedules[i];
        assert(rules[i as int] == rule_view(*rule));
        if rule.enabled {
            let fired: Option<i64> = match &rule.trigger {
                Trigger::Daily { .. } => daily_at[i],
                Trigger::Cron { expr } => match day_start {
                    Some(ds) => if UTC_MIN_SECS <= ds && ds <= now {
                        cron_last_fire_between(expr.as_str(), ds, now)
                    } else {
                        None
                    },
                    None => None,
                },
            };
            assert(fired == fires[i as int]);
            if let Some(fire_at) = fired {
                if fire_at <= now {
                    let replace = match &best {
                        Some(b) => b.0 < fire_at,
                        None => true,
                    };
                    if replace {
                        best = Some((fire_at, rule.profile.clone()));
                    }
                }
            }
        }
        i += 1;
    }
    match best {
        Some(b) => Some(b.1),
        None => None,
    }
}

/// Two checks in the same minute never fire a daily rule twice: once a rule
/// fired at `now`, a check at any instant less than a minute later finds it
/// already fired.
pub proof fn law_daily_fires_once_per_window(hour: u8, minute: u8, now: WallClock, later: WallClock)
    requires
        now.timestamp <= later.timestamp <= now.timestamp + 60,
    ensures
        !daily_fires(hour, minute, later, Some(now.timestamp)),
{
}

/// Whether rule `i` fires when a check at `now` reaches it: it is enabled and
/// fires against the memory left by the rules before it.
pub open spec fn fires_at_step(last: Map<Seq<char>, i64>, rules: Seq<RuleView>, i: nat, now: WallClock) -> bool {
    let m = run_rules(last, rules, i, now).0;
    let key = rule_key_spec(rules[i as int], i);
    let prev = if m.contains_key(key) {
        Some(m[key])
    } else {
        None
    };
    rules[i as int].enabled && rule_fires(rules[i as int], now, prev)
}

/// Once rule `i` fired during a run, its key stays recorded at that instant
/// for the rest of the run (a later rule sharing the key records the same
/// instant).
proof fn lemma_fire_recorded(last: Map<Seq<char>, i64>, rules: Seq<RuleView>, i: nat, n: nat, now: WallClock)
    requires
        i < n <= rules.len(),
        fires_at_step(last, rules, i, now),
    ensures
        run_rules(last, rules, n, now).0.contains_key(rule_key_spec(rules[i as int], i)),
        run_rules(last, rules, n, now).0[rule_key_spec(rules[i as int], i)] == now.timestamp,
    decreases n,
{
    if n > i + 1 {
        lemma_fire_recorded(last, rules, i, (n - 1) as nat, now);
    }
}

/// During a run at `now`, a key recorded at or after `now.timestamp - 60`
/// stays recorded no earlier than that.
proof fn lemma_recent_fire_kept(
    last: Map<Seq<char>, i64>,
    rules: Seq<RuleView>,
    key: Seq<char>,
    n: nat,
    now: WallClock,
)
    requires
        n <= rules.len(),
        last.contains_key(key),
        now.timestamp - last[key] <= 60,
    ensures
        run_rules(last, rules, n, now).0.contains_key(key),
        now.timestamp - run_rules(last, rules, n, now).0[key] <= 60,
    decreases n,
{
    if n > 0 {
        lemma_recent_fire_kept(last, rules, key, (n - 1) as nat, now);
    }
}

/// Each daily rule fires at most once per trigger window, at the level of
/// whole checks: if rule `i` fired in a check at `first`, it does not fire
/// in the next check when that comes at most 60 seconds later.
pub proof fn law_check_fires_daily_rule_once(
    last: Map<Seq<char>, i64>,
    rules: Seq<RuleView>,
    i: nat,
    first: WallClock,
    next: WallClock,
)
    requires
        i < rules.len(),
        rules[i as int].trigger is Daily,
        fires_at_step(last, rules, i, first),
        next.timestamp - first.timestamp <= 60,
    ensures
        !fires_at_step(check_result(last, rules, false, first).0, rules, i, next),
{
    let key = rule_key_spec(rules[i as int], i);
    lemma_fire_recorded(last, rules, i, rules.len(), first);
    let m1 = check_result(last, rules, false, first).0;
    lemma_recent_fire_kept(m1, rules, key, i, next);
}

/// The fire memory after a run of unpaused checks at `times`, in order.
pub open spec fn run_checks(last: Map<Seq<char>, i64>, rules: Seq<RuleView>, times: Seq<WallClock>) -> Map<
    Seq<char>,
    i64,
>
    decreases times.len(),
{
    if times.len() == 0 {
        last
    } else {
        check_result(run_checks(last, rules, times.drop_last()), rules, false, times.last()).0
    }
}

/// During a run at `now` no earlier than `lo`, a key recorded no earlier
/// than `lo` stays recorded no earlier than `lo`.
proof fn lemma_record_stays_after(
    last: Map<Seq<char>, i64>,
    rules: Seq<RuleView>,
    key: Seq<char>,
    lo: int,
    n: nat,
    now: WallClock,
)
    requires
        n <= rules.len(),
        last.contains_key(key),
        last[key] >= lo,
        now.timestamp >= lo,
    ensures
        run_rules(last, rules, n, now).0.contains_key(key),
        run_rules(last, rules, n, now).0[key] >= lo,
    decreases n,
{
    if n > 0 {
        lemma_record_stays_after(last, rules, key, lo, (n - 1) as nat, now);
    }
}

/// The same over a run of checks.
proof fn lemma_record_stays_over_checks(
    last: Map<Seq<char>, i64>,
    rules: Seq<RuleView>,
    key: Seq<char>,
    lo: int,
    times: Seq<WallClock>,
)
    requires
        last.contains_key(key),
        last[key] >= lo,
        forall|k: int| 0 <= k < times.len() ==> #[trigger] times[k].timestamp >= lo,
    ensures
        run_checks(last, rules, times).contains_key(key),
        run_checks(last, rules, times)[key] >= lo,
    decreases times.len(),
{
    if times.len() > 0 {
        let front = times.drop_last();
        assert forall|k: int| 0 <= k < front.len() implies #[trigger] front[k].timestamp >= lo by {
            assert(front[k] == times[k]);
        }
        lemma_record_stays_over_checks(last, rules, key, lo, front);
        assert(times[times.len() - 1] == times.last());
        lemma_record_stays_after(
            run_checks(last, rules, front),
            rules,
            key,
            lo,
            rules.len(),
            times.last(),
        );
    }
}

/// Each daily rule fires at most once per trigger window, over any number
/// of later checks: once rule `i` fired in a check at `first`, a later check
/// does not fire it again as long as that check comes at most 60 seconds
/// after `first` and after every check in between. (A check in between
/// that comes earlier than that can record an older fire of a rule sharing
/// the key, which reopens the window.)
pub proof fn law_daily_rule_fires_once_over_checks(
    last: Map<Seq<char>, i64>,
    rules: Seq<RuleView>,
    i: nat,
    first: WallClock,
    later: Seq<WallClock>,
)
    requires
        i < rules.len(),
        rules[i as int].trigger is Daily,
        fires_at_step(last, rules, i, first),
    ensures
        forall|k: int|
            0 <= k < later.len() && #[trigger] later[k].timestamp - first.timestamp <= 60 && (
            forall|j: int| 0 <= j < k ==> later[k].timestamp - later[j].timestamp <= 60)
                ==> !fires_at_step(
                run_checks(check_result(last, rules, false, first).0, rules, later.take(k)),
                rules,
                i,
                later[k],
            ),
{
    let key = rule_key_spec(rules[i as int], i);
    lemma_fire_recorded(last, rules, i, rules.len(), first);
    let m1 = check_result(last, rules, false, first).0;
    assert forall|k: int|
        0 <= k < later.len() && #[trigger] later[k].timestamp - first.timestamp <= 60 && (forall|
            j: int,
        | 0 <= j < k ==> later[k].timestamp - later[j].timestamp <= 60) implies !fires_at_step(
        run_checks(m1, rules, later.take(k)),
        rules,
        i,
        later[k],
    ) by {
        let before = later.take(k);
        let lo = later[k].timestamp - 60;
        assert forall|j: int| 0 <= j < before.len() implies #[trigger] before[j].timestamp >= lo by {
            assert(before[j] == later[j]);
        }
        lemma_record_stays_over_checks(m1, rules, key, lo, before);
        lemma_record_stays_after(run_checks(m1, rules, before), rules, key, lo, i, later[k]);
    }
}

/// A disabled rule never fires, whatever the memory and the time.
pub proof fn law_disabled_rule_never_fires(
    last: Map<Seq<char>, i64>,
    rules: Seq<RuleView>,
    i: nat,
    now: WallClock,
)
    requires
        i < rules.len(),
        !rules[i as int].enabled,
    ensures
        !fires_at_step(last, rules, i, now),
{
}

/// A daily rule fires only in its own minute: whenever it fires, the clock
/// reads its hour and minute; a rule that never fired fires exactly then;
/// and one that fired fires again only more than a minute after that fire.
pub proof fn law_daily_fires_in_its_minute(hour: u8, minute: u8, now: WallClock, last: Option<i64>)
    ensures
        daily_fires(hour, minute, now, last) ==> now.hour == hour as u32 && now.minute == minute as u32,
        last is None ==> (daily_fires(hour, minute, now, last) <==> (now.hour == hour as u32
            && now.minute == minute as u32)),
        last matches Some(t) ==> (daily_fires(hour, minute, now, last) <==> (now.hour == hour as u32
            && now.minute == minute as u32 && now.timestamp > t + 60)),
{
}

/// In a whole check, an enabled daily rule is due exactly in its minute
/// when it never fired: it fires at step `i` only when the clock reads its
/// hour and minute, and then does whenever no fire is remembered for it.
pub proof fn law_check_fires_daily_rule_in_its_minute(
    last: Map<Seq<char>, i64>,
    rules: Seq<RuleView>,
    i: nat,
    now: WallClock,
)
    requires
        i < rules.len(),
        rules[i as int].trigger is Daily,
    ensures
        fires_at_step(last, rules, i, now) ==> now.hour == rules[i as int].trigger->hour as u32
            && now.minute == rules[i as int].trigger->minute as u32,
{
}

/// The fire a cron rule contributes to the boot catch-up is its latest one
/// between midnight and now: it lies after midnight and not after now, the
/// cron expression has no fire time after it that is still not after now;
/// and when the rule contributes nothing, its first fire after midnight is
/// already later than now (or it has none).
pub proof fn law_catch_up_takes_latest_cron_fire(
    expr: Seq<char>,
    enabled: bool,
    display_name: Option<Seq<char>>,
    profile: Seq<char>,
    daily_at: Option<i64>,
    day_start: i64,
    now: i64,
)
    requires
        enabled,
        UTC_MIN_SECS <= day_start <= now,
    ensures
        ({
            let r = RuleView { display_name, profile, trigger: TriggerView::Cron { expr }, enabled };
            match last_fire_today_spec(r, daily_at, Some(day_start), now) {
                Some(t) => {
                    &&& day_start < t <= now
                    &&& !(cron_next_fire(expr, t) matches Some(Some(u)) && t < u <= now)
                },
                None => !(cron_next_fire(expr, day_start) matches Some(Some(u)) && day_start < u
                    <= now),
            }
        }),
{
    lemma_cron_last_fire_is_latest(expr, day_start, now);
}

/// What `cron_last_fire_spec` finds is the latest fire in `(since, now]`.
proof fn lemma_cron_last_fire_is_latest(expr: Seq<char>, since: i64, now: i64)
    ensures
        match cron_last_fire_spec(expr, since, now) {
            Some(t) => {
                &&& since < t <= now
                &&& !(cron_next_fire(expr, t) matches Some(Some(u)) && t < u <= now)
            },
            None => !(cron_next_fire(expr, since) matches Some(Some(u)) && since < u <= now),
        },
    decreases now - since,
{
    if let Some(Some(t)) = cron_next_fire(expr, since) {
        if since < t && t <= now {
            lemma_cron_last_fire_is_latest(expr, t, now);
        }
    }
}

/// The profiles of the rules among the first `n` that fire when a check
/// reaches them, in rule order.
pub open spec fn firing_profiles(last: Map<Seq<char>, i64>, rules: Seq<RuleView>, n: nat, now: WallClock) -> Seq<
    Seq<char>,
>
    decreases n,
{
    if n == 0 || n > rules.len() {
        Seq::empty()
    } else {
        let before = firing_profiles(last, rules, (n - 1) as nat, now);
        if fires_at_step(last, rules, (n - 1) as nat, now) {
            before.push(rules[n - 1].profile)
        } else {
            before
        }
    }
}

/// A check returns the profile of every rule that fires when the check
/// reaches it, and nothing else, in the order of the rules; and it records
/// each firing rule under its key at the check's time, leaving the keys of
/// rules that did not fire as they were.
pub proof fn law_check_lists_firing_rules_in_order(
    last: Map<Seq<char>, i64>,
    rules: Seq<RuleView>,
    n: nat,
    now: WallClock,
)
    requires
        n <= rules.len(),
    ensures
        run_rules(last, rules, n, now).1 == firing_profiles(last, rules, n, now),
        n > 0 ==> ({
            let before = run_rules(last, rules, (n - 1) as nat, now).0;
            let key = rule_key_spec(rules[n - 1], (n - 1) as nat);
            run_rules(last, rules, n, now).0 == if fires_at_step(last, rules, (n - 1) as nat, now) {
                before.insert(key, now.timestamp)
            } else {
                before
            }
        }),
    decreases n,
{
    if n > 0 {
        law_check_lists_firing_rules_in_order(last, rules, (n - 1) as nat, now);
    }
}

/// A cron rule fires when its expression has a fire time since it was last
/// considered and not after now: after its last fire when that is an instant
/// `chrono` represents, else within the 65 seconds up to now.
pub proof fn law_cron_fires_since_last_fire(expr: Seq<char>, now: WallClock, last: Option<i64>)
    ensures
        (last matches Some(t) && UTC_MIN_SECS <= t <= UTC_MAX_SECS) ==> (cron_fires(expr, now, last)
            <==> (cron_next_fire(expr, last->0) matches Some(Some(u)) && u <= now.timestamp)),
        !(last matches Some(t) && UTC_MIN_SECS <= t <= UTC_MAX_SECS) ==> (cron_fires(expr, now, last)
            <==> (cron_next_fire(expr, (now.timestamp - 65) as i64) matches Some(Some(u)) && u
            <= now.timestamp)),
{
}

/// The boot catch-up applies the most recent fire: the profile it picks
/// belongs to an enabled rule whose fire time today is not after now and no
/// later than any other enabled rule's such fire, and the earliest such rule
/// wins a tie; it picks nothing exactly when no enabled rule fired by now.
pub proof fn law_catch_up_picks_latest_fire(
    rules: Seq<RuleView>,
    fires: Seq<Option<i64>>,
    now: i64,
    n: nat,
)
    requires
        n <= rules.len(),
        n <= fires.len(),
    ensures
        match catch_up_pick(rules, fires, now, n) {
            Some((t, p)) => exists|i: int|
                0 <= i < n && rules[i].enabled && #[trigger] fires[i] == Some(t) && t <= now
                    && rules[i].profile == p && (forall|j: int|
                    0 <= j < n && rules[j].enabled && (#[trigger] fires[j] matches Some(u) && u <= now)
                        ==> fires[j]->0 <= t) && (forall|j: int|
                    0 <= j < i && rules[j].enabled && (fires[j] matches Some(u) && u <= now) ==> fires[j]->0
                        < t),
            None => forall|j: int|
                0 <= j < n ==> !(rules[j].enabled && (#[trigger] fires[j] matches Some(u) && u <= now)),
        },
    decreases n,
{
    if n > 0 {
        law_catch_up_picks_latest_fire(rules, fires, now, (n - 1) as nat);
    }
}

/// Each rule keeps its own fire memory unless two rules share a display
/// name: a named rule is remembered under its name, and unnamed rules at
/// different places in the list are remembered under different keys.
pub proof fn law_rule_keys_separate_rules(a: RuleView, i: nat, b: RuleView, j: nat)
    ensures
        a.display_name matches Some(n) ==> rule_key_spec(a, i) == n,
        a.display_name is None && b.display_name is None && i != j ==> rule_key_spec(a, i)
            != rule_key_spec(b, j),
{
    if a.display_name is None && b.display_name is None && i != j && rule_key_spec(a, i)
        == rule_key_spec(b, j) {
        reveal_strlit("schedule[");
        reveal_strlit("]");
        let ka = rule_key_spec(a, i);
        let kb = rule_key_spec(b, j);
        lemma_decimal_nonempty(i);
        lemma_decimal_nonempty(j);
        assert(ka.len() == 10 + decimal(i).len());
        assert(decimal(i).len() == decimal(j).len());
        assert(ka.subrange(9, ka.len() - 1) =~= decimal(i));
        assert(kb.subrange(9, kb.len() - 1) =~= decimal(j));
        lemma_decimal_injective(i, j);
    }
}

/// Paused schedules never fire and leave the fire memory untouched.
pub proof fn law_paused_fires_nothing(last: Map<Seq<char>, i64>, rules: Seq<RuleView>, now: WallClock)
    ensures
        check_result(last, rules, true, now) == (last, Seq::<Seq<char>>::empty()),
{
}

} // verus!
