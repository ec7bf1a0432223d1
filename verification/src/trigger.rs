//! When a task runs next: cron schedules, one-off instants and intervals.
use vstd::prelude::*;
use crate::instant::{MAX_INSTANT, MIN_INSTANT, is_instant, clock_now, rfc3339_instant, parse_rfc3339};
use crate::model::{Task, TriggerType};
use crate::text::{chars_of, str_eq};

verus! {

#[verifier::external_type_specification]
#[verifier::external_body]
pub struct ExSchedule(cron::Schedule);

#[verifier::external_type_specification]
#[verifier::external_body]
pub struct ExTz(chrono_tz::Tz);

/// Whether the text is a cron expression that the `cron` crate accepts.
pub uninterp spec fn cron_expression_valid(s: Seq<char>) -> bool;

/// Whether the text names a time zone of the tz database compiled into `chrono-tz`.
pub uninterp spec fn zone_known(s: Seq<char>) -> bool;

/// A cron schedule together with the expression it was read from. Only
/// [`parse_cron_schedule`] makes one.
pub struct CronSchedule {
    schedule: cron::Schedule,
    source: String,
}

impl View for CronSchedule {
    type V = Seq<char>;

    /// The expression the schedule was read from.
    closed spec fn view(&self) -> Seq<char> {
        self.source@
    }
}

/// A time zone of the tz database together with the name it was found by.
/// Only [`parse_zone`] and [`utc_zone`] make one.
pub struct Zone {
    tz: chrono_tz::Tz,
    name: String,
}

impl View for Zone {
    type V = Seq<char>;

    /// The name the zone was found by.
    closed spec fn view(&self) -> Seq<char> {
        self.name@
    }
}

/// Parses a cron expression (`<cron::Schedule as FromStr>::from_str`).
/// Claims that success depends on the text alone, and keeps the text.
#[verifier::external_body]
fn parse_cron_schedule(expr: &str) -> (r: Option<CronSchedule>)
    ensures
        r is Some <==> cron_expression_valid(expr@),
        r matches Some(c) ==> c@ == expr@,
{
    match <cron::Schedule as std::str::FromStr>::from_str(expr) {
        Ok(schedule) => Some(CronSchedule { schedule, source: expr.to_string() }),
        Err(_) => None,
    }
}

/// Looks up a time zone by name (`<chrono_tz::Tz as FromStr>::from_str`).
/// Claims that success depends on the name alone, and keeps the name.
#[verifier::external_body]
fn parse_zone(name: &str) -> (r: Option<Zone>)
    ensures
        r is Some <==> zone_known(name@),
        r matches Some(z) ==> z@ == name@,
{
    match <chrono_tz::Tz as std::str::FromStr>::from_str(name) {
        Ok(tz) => Some(Zone { tz, name: name.to_string() }),
        Err(_) => None,
    }
}

/// The UTC zone of `chrono-tz` (`chrono_tz::UTC`), under its name `UTC`.
#[verifier::external_body]
fn utc_zone() -> (r: Zone)
    ensures
        r@ == "UTC"@,
{
    Zone { tz: chrono_tz::UTC, name: "UTC".to_string() }
}

/// The microseconds from which the cron crate may look for a next fire time
/// without overflowing: it adds one second, and a zone shifts by at most a day.
pub open spec fn cron_window(t: int) -> bool {
    0 <= t <= MAX_INSTANT - 172_800_000_000
}

/// The next fire time, in microseconds, that the `cron` crate gives for the
/// expression `expr` searching from the instant `after` as seen in the zone
/// named `zone` (`Schedule::after(..).next()`); `None` when there is none.
pub uninterp spec fn cron_next_fire(expr: Seq<char>, zone: Seq<char>, after: int) -> Option<int>;

/// The first fire time of `schedule` after `after` as seen in `zone`
/// (`cron::Schedule::after(..).next()`), in microseconds. The result is a
/// function of the expression, the zone's name and the instant. Whether it
/// lies after `after` is not claimed: the crate matches wall-clock fields, and
/// around a zone's clock changes a matching wall-clock time may map to an
/// earlier instant.
#[verifier::external_body]
fn next_fire_in_zone(schedule: &CronSchedule, zone: &Zone, after: i64) -> (r: Option<i64>)
    requires
        cron_window(after as int),
    ensures
        r matches Some(t) ==> cron_next_fire(schedule@, zone@, after as int) == Some(t as int),
        r is None ==> cron_next_fire(schedule@, zone@, after as int) is None,
{
    let start = chrono::DateTime::<chrono::Utc>::from_timestamp_micros(after)?.with_timezone(&zone.tz);
    schedule.schedule.after(&start).next().map(|d| d.timestamp_micros())
}

/// The first fire time of `schedule` after `after` as seen in the machine's
/// local zone (`cron::Schedule::after(..).next()` with `chrono::Local`). The
/// result depends on the machine's zone, so nothing is claimed of it.
#[verifier::external_body]
fn next_fire_local(schedule: &CronSchedule, after: i64) -> (r: Option<i64>)
    requires
        cron_window(after as int),
{
    let start = chrono::DateTime::<chrono::Utc>::from_timestamp_micros(after)?.with_timezone(&chrono::Local);
    schedule.schedule.after(&start).next().map(|d| d.timestamp_micros())
}

/// A decimal digit.
pub open spec fn is_digit(c: char) -> bool {
    '0' <= c <= '9'
}

/// The value of a run of decimal digits.
pub open spec fn digits_value(d: Seq<char>) -> int
    decreases d.len(),
{
    if d.len() == 0 {
        0
    } else {
        digits_value(d.drop_last()) * 10 + (d.last() as int - '0' as int)
    }
}

/// The text after an optional leading `+`.
pub open spec fn unsigned_digits(s: Seq<char>) -> Seq<char> {
    if s.len() > 0 && s[0] == '+' {
        s.skip(1)
    } else {
        s
    }
}

/// Every character is a decimal digit.
pub open spec fn all_digits(d: Seq<char>) -> bool {
    forall|i: int| 0 <= i < d.len() ==> is_digit(#[trigger] d[i])
}

/// What `u64::from_str` gives: an optional `+`, at least one digit, only
/// digits, and a value that fits.
pub open spec fn u64_text_value(s: Seq<char>) -> Option<int> {
    let d = unsigned_digits(s);
    if d.len() > 0 && all_digits(d) && digits_value(d) <= u64::MAX {
        Some(digits_value(d))
    } else {
        None
    }
}

proof fn lemma_digits_prefix_le(d: Seq<char>, i: int)
    requires
        0 <= i <= d.len(),
        forall|j: int| 0 <= j < d.len() ==> is_digit(#[trigger] d[j]),
    ensures
        0 <= digits_value(d.take(i)) <= digits_value(d),
    decreases d.len(),
{
    if d.len() == 0 {
        assert(d.take(i) =~= d);
    } else if i == d.len() {
        assert(d.take(i) =~= d);
        lemma_digits_prefix_le(d.drop_last(), 0);
    } else {
        assert(d.take(i) =~= d.drop_last().take(i));
        lemma_digits_prefix_le(d.drop_last(), i);
    }
}

/// Reads an unsigned decimal number the way `u64::from_str` does.
pub fn parse_u64(s: &str) -> (r: Option<u64>)
    ensures
        r matches Some(v) ==> u64_text_value(s@) == Some(v as int),
        r is None ==> u64_text_value(s@) is None,
{
    let cs = chars_of(s);
    let start: usize = if cs.len() > 0 && cs[0] == '+' { 1 } else { 0 };
    let ghost d = unsigned_digits(s@);
    if start >= cs.len() {
        return None;
    }
    let mut value: u64 = 0;
    let mut i: usize = start;
    while i < cs.len()
        invariant
            start <= i <= cs.len(),
            cs@ == s@,
            start < cs.len(),
            d == cs@.skip(start as int),
            d == unsigned_digits(s@),
            forall|j: int| 0 <= j < i - start ==> is_digit(#[trigger] d[j]),
            value == digits_value(d.take(i - start)),
        decreases cs.len() - i,
    {
        let c = cs[i];
        if !('0' <= c && c <= '9') {
            assert(d[i - start] == c);
            assert(!is_digit(d[i - start]));
            assert(!all_digits(d));
            assert(u64_text_value(s@) is None);
            return None;
        }
        let digit: u64 = (c as u32 - '0' as u32) as u64;
        assert(d.take(i - start + 1).drop_last() =~= d.take(i - start));
        assert(d.take(i - start + 1).last() == c);
        assert(digits_value(d.take(i - start + 1)) == value * 10 + digit);
        match value.checked_mul(10) {
            None => {
                proof {
                    reject_overflow(d, i - start + 1, cs@);
                }
                return None;
            }
            Some(v10) => match v10.checked_add(digit) {
                None => {
                    proof {
                        reject_overflow(d, i - start + 1, cs@);
                        assert(u64_text_value(s@) is None);
                    }
                    return None;
                }
                Some(v) => {
                    value = v;
                },
            },
        }
        i = i + 1;
    }
    assert(d.take(i - start) =~= d);
    Some(value)
}

proof fn reject_overflow(d: Seq<char>, k: int, cs: Seq<char>)
    requires
        0 < k <= d.len(),
        forall|j: int| 0 <= j < k ==> is_digit(#[trigger] d[j]),
        digits_value(d.take(k)) > u64::MAX,
    ensures
        !all_digits(d) || digits_value(d) > u64::MAX,
{
    if all_digits(d) {
        lemma_digits_prefix_le(d, k);
    }
}

/// The next run cannot be computed: it lies outside the representable time
/// range, or a zero fixed-rate interval never moves past the present.
#[derive(Debug, Clone, Copy, PartialEq, Eq, Structural)]
pub enum ScheduleError {
    OutOfRange,
}

/// The value that `secs as i64` gives.
pub open spec fn as_signed(secs: int) -> int {
    if secs <= i64::MAX {
        secs
    } else {
        secs - 18_446_744_073_709_551_616
    }
}

/// Whether a whole number of seconds makes a `chrono::TimeDelta`.
pub open spec fn seconds_in_range(s: int) -> bool {
    -9_223_372_036_854_775 <= s <= 9_223_372_036_854_775
}

/// The first instant of the form `base + k * d` (`k >= 1`) after `now`, for a
/// positive step `d`, or `base + d` when that is already after `now`.
pub open spec fn fixed_rate_next(base: int, d: int, now: int) -> int {
    if base + d > now {
        base + d
    } else {
        base + ((now - base) / d + 1) * d
    }
}

/// When an interval task runs next: the interval `expr` in seconds counted from
/// `now` (fixed delay), or stepped on from the stored next run (fixed rate).
pub open spec fn interval_outcome(
    expr: Seq<char>,
    fixed_rate: bool,
    stored: Option<i64>,
    now: int,
) -> Result<Option<int>, ScheduleError> {
    match u64_text_value(expr) {
        None => Ok(None),
        Some(secs) => {
            let s = as_signed(secs);
            let d = s * 1_000_000;
            if !seconds_in_range(s) {
                Err(ScheduleError::OutOfRange)
            } else if fixed_rate {
                let base: int = match stored {
                    Some(b) => b as int,
                    None => now,
                };
                if !is_instant(base + d) {
                    Err(ScheduleError::OutOfRange)
                } else if base + d > now {
                    Ok(Some(base + d))
                } else if d <= 0 || fixed_rate_next(base, d, now) > MAX_INSTANT {
                    Err(ScheduleError::OutOfRange)
                } else {
                    Ok(Some(fixed_rate_next(base, d, now)))
                }
            } else if is_instant(now + d) {
                Ok(Some(now + d))
            } else {
                Err(ScheduleError::OutOfRange)
            }
        },
    }
}

/// When a one-off task runs: its instant, while that is still ahead of `now`.
pub open spec fn once_outcome(expr: Seq<char>, now: int) -> Option<int> {
    match rfc3339_instant(expr) {
        Some(t) => if t > now {
            Some(t)
        } else {
            None
        },
        None => None,
    }
}

/// The next run of a one-off or interval task at `now`; cron tasks are
/// described by [`cron_outcome_allowed`].
pub open spec fn planned_outcome(task: Task, now: int) -> Result<Option<int>, ScheduleError> {
    match task.trigger_type {
        TriggerType::Once => Ok(once_outcome(task.trigger_expr@, now)),
        TriggerType::Interval => interval_outcome(
            task.trigger_expr@,
            task.interval_mode@ == "fixed_rate"@,
            task.next_run_at,
            now,
        ),
        TriggerType::Cron => Ok(None),
    }
}

/// The zone a cron task is read in, other than the machine's own: the one
/// its mode names, or UTC when the mode names no known zone.
pub open spec fn cron_zone_name(mode: Seq<char>) -> Seq<char> {
    if zone_known(mode) {
        mode
    } else {
        "UTC"@
    }
}

/// The next run of a cron task: nothing for an expression the cron crate
/// refuses; refused past the instants it can search from; otherwise its next
/// fire in the task's zone (UTC when the zone is unknown). In the machine's
/// local zone (mode `local`) the crate's answer depends on the machine, and
/// only that a run is computed is stated.
pub open spec fn cron_outcome_allowed(task: Task, now: int, r: Result<Option<int>, ScheduleError>) -> bool {
    &&& !cron_expression_valid(task.trigger_expr@) ==> r == Ok::<Option<int>, ScheduleError>(None)
    &&& cron_expression_valid(task.trigger_expr@) && !cron_window(now) ==> r == Err::<Option<int>, ScheduleError>(ScheduleError::OutOfRange)
    &&& cron_expression_valid(task.trigger_expr@) && cron_window(now) && task.cron_tz_mode@ != "local"@
        ==> r == Ok::<Option<int>, ScheduleError>(cron_next_fire(task.trigger_expr@, cron_zone_name(task.cron_tz_mode@), now))
    &&& cron_expression_valid(task.trigger_expr@) && cron_window(now) ==> r is Ok
}

/// A computed next run as a mathematical value.
pub open spec fn outcome_view(r: Result<Option<i64>, ScheduleError>) -> Result<Option<int>, ScheduleError> {
    match r {
        Ok(Some(t)) => Ok(Some(t as int)),
        Ok(None) => Ok(None),
        Err(e) => Err(e),
    }
}

/// The next run of `task` as of `now`.
pub open spec fn next_run_allowed(task: Task, now: int, r: Result<Option<i64>, ScheduleError>) -> bool {
    if task.trigger_type == TriggerType::Cron {
        cron_outcome_allowed(task, now, outcome_view(r))
    } else {
        outcome_view(r) == planned_outcome(task, now)
    }
}

/// Whether the next run is refused is decided by the task and the instant:
/// an allowed outcome is an error exactly when the refusal is allowed.
pub proof fn lemma_outcome_unique(task: Task, now: int, r: Result<Option<i64>, ScheduleError>)
    requires
        next_run_allowed(task, now, r),
    ensures
        r is Err <==> next_run_allowed(task, now, Err(ScheduleError::OutOfRange)),
        r is Err ==> r == Err::<Option<i64>, ScheduleError>(ScheduleError::OutOfRange),
{
}

proof fn lemma_fixed_rate_bounds(base: int, d: int, now: int)
    requires
        d > 0,
        base + d <= now,
    ensures
        now < fixed_rate_next(base, d, now) <= now + d,
        0 <= (now - base) / d,
        ((now - base) / d + 1) * d <= now - base + d,
{
    let q = (now - base) / d;
    assert(now - base == d * q + (now - base) % d) by {
        vstd::arithmetic::div_mod::lemma_fundamental_div_mod(now - base, d);
    }
    assert(0 <= (now - base) % d < d) by {
        vstd::arithmetic::div_mod::lemma_mod_bound(now - base, d);
    }
    assert((q + 1) * d == q * d + d) by (nonlinear_arith);
    assert(d * q == q * d) by (nonlinear_arith);
    assert(q >= 0) by {
        vstd::arithmetic::div_mod::lemma_div_pos_is_pos(now - base, d);
    }
}

/// Computes [`fixed_rate_next`] for a positive step.
fn fixed_rate_step(base: i128, d: i128, now: i128) -> (r: i128)
    requires
        d > 0,
        base + d <= now,
        i64::MIN <= base <= i64::MAX,
        i64::MIN <= now <= i64::MAX,
        d <= 9_223_372_036_854_775 * 1_000_000,
    ensures
        r == fixed_rate_next(base as int, d as int, now as int),
{
    proof {
        lemma_fixed_rate_bounds(base as int, d as int, now as int);
    }
    let q = (now - base) / d;
    let next = base + (q + 1) * d;
    next
}

/// The next run of `task` as of the instant `now`.
pub fn next_run_at_instant(task: &Task, now: i64) -> (r: Result<Option<i64>, ScheduleError>)
    requires
        is_instant(now as int),
    ensures
        next_run_allowed(*task, now as int, r),
{
    match task.trigger_type {
        TriggerType::Cron => {
            let schedule = match parse_cron_schedule(task.trigger_expr.as_str()) {
                Some(s) => s,
                None => return Ok(None),
            };
            if now < 0 || now > MAX_INSTANT - 172_800_000_000 {
                return Err(ScheduleError::OutOfRange);
            }
            if str_eq(task.cron_tz_mode.as_str(), "local") {
                Ok(next_fire_local(&schedule, now))
            } else {
                let zone = match parse_zone(task.cron_tz_mode.as_str()) {
                    Some(z) => z,
                    None => utc_zone(),
                };
                let r = next_fire_in_zone(&schedule, &zone, now);
                assert(zone@ == cron_zone_name(task.cron_tz_mode@));
                Ok(r)
            }
        },
        TriggerType::Once => match parse_rfc3339(task.trigger_expr.as_str()) {
            Some(t) => if t > now {
                Ok(Some(t))
            } else {
                Ok(None)
            },
            None => Ok(None),
        },
        TriggerType::Interval => {
            let secs = match parse_u64(task.trigger_expr.as_str()) {
                Some(v) => v,
                None => return Ok(None),
            };
            let s: i64 = if secs <= 9_223_372_036_854_775_807u64 {
                secs as i64
            } else {
                ((secs - 9_223_372_036_854_775_808u64) as i64) - 9_223_372_036_854_775_807i64 - 1
            };
            if s < -9_223_372_036_854_775i64 || s > 9_223_372_036_854_775i64 {
                return Err(ScheduleError::OutOfRange);
            }
            let d: i128 = (s as i128) * 1_000_000i128;
            let now_w: i128 = now as i128;
            let fixed_rate = str_eq(task.interval_mode.as_str(), "fixed_rate");
            if fixed_rate {
                let base: i128 = match task.next_run_at {
                    Some(b) => b as i128,
                    None => now_w,
                };
                let first = base + d;
                if first < MIN_INSTANT as i128 || first > MAX_INSTANT as i128 {
                    return Err(ScheduleError::OutOfRange);
                }
                if first > now_w {
                    return Ok(Some(first as i64));
                }
                if d <= 0 {
                    return Err(ScheduleError::OutOfRange);
                }
                let next = fixed_rate_step(base, d, now_w);
                if next > MAX_INSTANT as i128 {
                    return Err(ScheduleError::OutOfRange);
                }
                proof {
                    lemma_fixed_rate_bounds(base as int, d as int, now as int);
                }
                Ok(Some(next as i64))
            } else {
                let next = now_w + d;
                if next < MIN_INSTANT as i128 || next > MAX_INSTANT as i128 {
                    return Err(ScheduleError::OutOfRange);
                }
                Ok(Some(next as i64))
            }
        },
    }
}

/// The next run of `task`, as of the system clock. A clock that reads before
/// the Unix epoch or past the representable range gives no instant to
/// compute from, and the computation is refused.
pub fn calculate_next_run_for_task(task: &Task) -> (r: Result<Option<i64>, ScheduleError>)
    ensures
        r == Err::<Option<i64>, ScheduleError>(ScheduleError::OutOfRange)
            || exists|now: int| 0 <= now <= MAX_INSTANT && #[trigger] next_run_allowed(*task, now, r),
{
    match clock_now() {
        Some(now) => {
            let r = next_run_at_instant(task, now);
            assert(next_run_allowed(*task, now as int, r));
            r
        },
        None => Err(ScheduleError::OutOfRange),
    }
}

/// A fixed-rate schedule never falls behind: the next run after a missed one
/// is after `now`, at most one step later, and on the grid `base + k * d`.
pub proof fn law_fixed_rate_catches_up(base: int, d: int, now: int)
    requires
        d > 0,
        base + d <= now,
    ensures
        fixed_rate_next(base, d, now) > now,
        fixed_rate_next(base, d, now) - d <= now,
        (fixed_rate_next(base, d, now) - base) % d == 0,
{
    lemma_fixed_rate_bounds(base, d, now);
    let k = (now - base) / d + 1;
    assert((k * d) % d == 0) by {
        vstd::arithmetic::div_mod::lemma_mod_multiples_basic(k, d);
    }
}

/// A cron task in a named zone runs at the cron crate's next fire in that
/// zone, and in UTC when the zone is unknown; an expression the crate refuses
/// never runs.
pub proof fn law_cron_zone_choice(task: Task, now: int, r: Result<Option<i64>, ScheduleError>)
    requires
        task.trigger_type == TriggerType::Cron,
        next_run_allowed(task, now, r),
    ensures
        !cron_expression_valid(task.trigger_expr@) ==> r == Ok::<Option<i64>, ScheduleError>(None),
        cron_expression_valid(task.trigger_expr@) && cron_window(now) && task.cron_tz_mode@ != "local"@
            && zone_known(task.cron_tz_mode@) ==> outcome_view(r) == Ok::<Option<int>, ScheduleError>(
            cron_next_fire(task.trigger_expr@, task.cron_tz_mode@, now)),
        cron_expression_valid(task.trigger_expr@) && cron_window(now) && task.cron_tz_mode@ != "local"@
            && !zone_known(task.cron_tz_mode@) ==> outcome_view(r) == Ok::<Option<int>, ScheduleError>(
            cron_next_fire(task.trigger_expr@, "UTC"@, now)),
{
}

/// A one-off task runs at its instant while that is ahead, and never once it
/// has passed or when its text is no RFC 3339 timestamp.
pub proof fn law_once_runs_at_its_instant(task: Task, now: int)
    requires
        task.trigger_type == TriggerType::Once,
    ensures
        rfc3339_instant(task.trigger_expr@) matches Some(t) ==> planned_outcome(task, now) == Ok::<
            Option<int>,
            ScheduleError,
        >(if t > now { Some(t) } else { None }),
        rfc3339_instant(task.trigger_expr@) is None ==> planned_outcome(task, now) == Ok::<
            Option<int>,
            ScheduleError,
        >(None),
{
}

/// An interval task of `secs` seconds (up to `i64::MAX`; larger counts wrap
/// to negative ones, as `secs as i64` does): with a fixed delay it runs
/// `secs` after `now`; with a fixed rate it runs after `now`, on the grid of
/// `secs` steps from its stored next run (or from `now`), at most one step
/// past `now` or one step past that base. A text that is no number never runs.
pub proof fn law_interval_next_run(task: Task, now: int)
    requires
        task.trigger_type == TriggerType::Interval,
    ensures
        ({
            let v = u64_text_value(task.trigger_expr@);
            let d = v->0 * 1_000_000;
            let out = planned_outcome(task, now);
            let base: int = match task.next_run_at {
                Some(b) => b as int,
                None => now,
            };
            &&& v is None ==> out == Ok::<Option<int>, ScheduleError>(None)
            &&& v is Some && v->0 <= i64::MAX && task.interval_mode@ != "fixed_rate"@ && out is Ok
                && out->Ok_0 is Some ==> out->Ok_0->0 == now + d
            &&& v is Some && 0 < v->0 <= i64::MAX && task.interval_mode@ == "fixed_rate"@ && out is Ok
                && out->Ok_0 is Some
                ==> {
                let n = out->Ok_0->0;
                &&& n > now
                &&& n > base
                &&& (n - base) % d == 0
                &&& (n - d <= now || n == base + d)
            }
        }),
{
    if task.interval_mode@ == "fixed_rate"@ {
        if let Some(secs) = u64_text_value(task.trigger_expr@) {
            let base: int = match task.next_run_at {
                Some(b) => b as int,
                None => now,
            };
            let d = secs * 1_000_000;
            if 0 < secs <= i64::MAX && seconds_in_range(as_signed(secs)) {
                assert(as_signed(secs) == secs);
                if base + d <= now {
                    law_fixed_rate_catches_up(base, d, now);
                    lemma_fixed_rate_bounds(base, d, now);
                } else {
                    vstd::arithmetic::div_mod::lemma_mod_self_0(d);
                }
            }
        }
    }
}

} // verus!
