//! Wall-clock times of day, and how long it is from one to the next
//! occurrence of another.

use vstd::prelude::*;
use vstd::string::*;
use crate::duration::{lemma_split, Duration, NANOS_PER_SEC};
use crate::text::{
    ascii_len, decimal_value, lemma_not_ascii_not_number, parse_unsigned_in, unsigned_value,
};

verus! {

/// Seconds in one day.
pub const SECS_PER_DAY: u32 = 86_400;

/// Nanoseconds in one day.
pub open spec fn day_nanos() -> nat {
    (SECS_PER_DAY as nat) * (NANOS_PER_SEC as nat)
}

/// A time of day: the seconds since midnight, below a full day, and the
/// nanoseconds beyond them, below a full second.
#[derive(Clone, Copy, Debug, PartialEq, Eq, Structural)]
pub struct TimeOfDay {
    secs: u32,
    nanos: u32,
}

impl View for TimeOfDay {
    type V = nat;

    /// The nanoseconds since midnight.
    closed spec fn view(&self) -> nat {
        (self.secs as nat) * (NANOS_PER_SEC as nat) + (self.nanos as nat)
    }
}

/// A signed count of nanoseconds in whole seconds, rounded towards zero.
pub open spec fn truncated_seconds(nanos: int) -> int {
    if nanos >= 0 {
        nanos / (NANOS_PER_SEC as int)
    } else {
        -((-nanos) / (NANOS_PER_SEC as int))
    }
}

/// The whole seconds from the time `now` to the next occurrence of the time
/// `target`, both in nanoseconds since midnight. A target that is still ahead
/// today is that many whole seconds away; one that has passed is due
/// tomorrow, a day minus the whole seconds since it passed.
pub open spec fn seconds_until(target: nat, now: nat) -> nat {
    if target >= now {
        ((target - now) / (NANOS_PER_SEC as int)) as nat
    } else {
        (SECS_PER_DAY - (now - target) / (NANOS_PER_SEC as int)) as nat
    }
}

/// The hour and minute fields of a text `H:M`: the text up to its first colon
/// and the text after it, each read as an unsigned number of at most 32 bits.
/// `None` where there is no colon or a field is no such number.
pub open spec fn clock_fields(s: Seq<char>) -> Option<(nat, nat)> {
    match s.index_of_first(':') {
        Some(i) => match (
            unsigned_value(s.subrange(0, i), u32::MAX as nat),
            unsigned_value(s.subrange(i + 1, s.len() as int), u32::MAX as nat),
        ) {
            (Some(h), Some(m)) => Some((h, m)),
            _ => None,
        },
        None => None,
    }
}

/// The time of day that a text `H:M` names, in nanoseconds since midnight:
/// hours from 0 to 23 and minutes from 0 to 59, on the full minute. `None`
/// for any other text.
pub open spec fn target_of_text(s: Seq<char>) -> Option<nat> {
    match clock_fields(s) {
        Some((h, m)) => if h < 24 && m < 60 {
            Some((h * 3600 + m * 60) * (NANOS_PER_SEC as nat))
        } else {
            None
        },
        None => None,
    }
}

impl TimeOfDay {
    #[verifier::type_invariant]
    spec fn wf(self) -> bool {
        self.secs < SECS_PER_DAY && self.nanos < NANOS_PER_SEC
    }

    /// The time `hour:minute:00`, or `None` when the hour is above 23 or the
    /// minute above 59.
    pub fn from_hm(hour: u32, minute: u32) -> (r: Option<TimeOfDay>)
        ensures
            r is Some <==> hour < 24 && minute < 60,
            r matches Some(t) ==> t@ == (hour * 3600 + minute * 60) * NANOS_PER_SEC,
    {
        Self::from_hms_nano(hour, minute, 0, 0)
    }

    /// The time `hour:minute:second` and `nano` nanoseconds, or `None` when a
    /// field is out of its range.
    pub fn from_hms_nano(hour: u32, minute: u32, second: u32, nano: u32) -> (r: Option<TimeOfDay>)
        ensures
            r is Some <==> hour < 24 && minute < 60 && second < 60 && nano < NANOS_PER_SEC,
            r matches Some(t) ==> t@ == (hour * 3600 + minute * 60 + second) * NANOS_PER_SEC
                + nano,
    {
        if hour < 24 && minute < 60 && second < 60 && nano < NANOS_PER_SEC {
            Some(TimeOfDay { secs: hour * 3600 + minute * 60 + second, nanos: nano })
        } else {
            None
        }
    }

    /// The time of day for a raw clock reading of seconds since midnight and
    /// nanoseconds. Seconds wrap at a full day. A reading of a full second of
    /// nanoseconds or more, as clocks report inside a leap second, counts as
    /// the last nanosecond of its second.
    pub fn from_reading(secs: u32, nanos: u32) -> (t: TimeOfDay)
        ensures
            t@ == (secs % SECS_PER_DAY) * NANOS_PER_SEC + if nanos < NANOS_PER_SEC {
                nanos as int
            } else {
                NANOS_PER_SEC - 1
            },
    {
        let nanos: u32 = if nanos < NANOS_PER_SEC {
            nanos
        } else {
            NANOS_PER_SEC - 1
        };
        TimeOfDay { secs: secs % SECS_PER_DAY, nanos }
    }

    /// The whole seconds since midnight.
    pub fn seconds_from_midnight(&self) -> (s: u32)
        ensures
            s == self@ / (NANOS_PER_SEC as nat),
            s < SECS_PER_DAY,
    {
        proof {
            use_type_invariant(self);
            lemma_split(self.secs as nat, self.nanos as nat);
        }
        self.secs
    }

    /// The nanoseconds beyond the last whole second.
    pub fn nanosecond(&self) -> (n: u32)
        ensures
            n == self@ % (NANOS_PER_SEC as nat),
            n < NANOS_PER_SEC,
    {
        proof {
            use_type_invariant(self);
            lemma_split(self.secs as nat, self.nanos as nat);
        }
        self.nanos
    }

    /// Whether this time is `other` or later in the day.
    pub fn ge(&self, other: &TimeOfDay) -> (b: bool)
        ensures
            b == (self@ >= other@),
    {
        proof {
            use_type_invariant(self);
            use_type_invariant(other);
            lemma_split(self.secs as nat, self.nanos as nat);
            lemma_split(other.secs as nat, other.nanos as nat);
        }
        self.secs > other.secs || (self.secs == other.secs && self.nanos >= other.nanos)
    }

    /// Every time of day lies before the end of the day.
    proof fn lemma_within_day(self)
        requires
            self.wf(),
        ensures
            self@ < day_nanos(),
    {
        lemma_split(self.secs as nat, self.nanos as nat);
        assert(self@ / (NANOS_PER_SEC as nat) < SECS_PER_DAY);
    }
}

/// Reads the local wall clock with `chrono::Local::now`, and hands back the
/// seconds since midnight and the nanoseconds of its time of day as
/// `chrono::Timelike` reports them. Nothing is claimed of the reading.
#[verifier::external_body]
fn local_clock_reading() -> (r: (u32, u32)) {
    let t = chrono::Local::now().time();
    (chrono::Timelike::num_seconds_from_midnight(&t), chrono::Timelike::nanosecond(&t))
}

/// The whole seconds from `earlier` to `later`, negative when `later` is the
/// earlier one, as `chrono::NaiveTime::signed_duration_since` measures the
/// span and `chrono::TimeDelta::num_seconds` counts it: the difference of
/// the two times in nanoseconds, rounded towards zero. Neither time holds a
/// leap second, so `chrono` adds none.
#[verifier::external_body]
fn whole_seconds_between(later: &TimeOfDay, earlier: &TimeOfDay) -> (r: i64)
    requires
        later.wf(),
        earlier.wf(),
    ensures
        r == truncated_seconds(later@ - earlier@),
{
    let a = chrono::NaiveTime::from_num_seconds_from_midnight_opt(later.secs, later.nanos);
    let b = chrono::NaiveTime::from_num_seconds_from_midnight_opt(earlier.secs, earlier.nanos);
    a.unwrap().signed_duration_since(b.unwrap()).num_seconds()
}

/// The time from `now` to the next occurrence of `target`, in whole seconds:
/// what is left of today when the target is still ahead, else the wait until
/// tomorrow's.
pub fn time_until(target: &TimeOfDay, now: &TimeOfDay) -> (d: Duration)
    ensures
        d@ == seconds_until(target@, now@) * NANOS_PER_SEC,
{
    proof {
        use_type_invariant(target);
        use_type_invariant(now);
        target.lemma_within_day();
        now.lemma_within_day();
        lemma_seconds_until_bounds(target@, now@);
    }
    if target.ge(now) {
        let ahead: i64 = whole_seconds_between(target, now);
        Duration::from_secs(ahead as u64)
    } else {
        let passed: i64 = whole_seconds_between(now, target);
        Duration::from_secs((SECS_PER_DAY as i64 - passed) as u64)
    }
}

/// Reads a text `H:M` as a time of day.
pub fn parse_time_of_day(s: &str) -> (r: Option<TimeOfDay>)
    ensures
        match r {
            Some(t) => target_of_text(s@) == Some(t@),
            None => target_of_text(s@) is None,
        },
{
    if !s.is_ascii() {
        proof {
            lemma_not_ascii_no_fields(s@);
        }
        return None;
    }
    let n: usize = ascii_len(s);
    let mut i: usize = 0;
    while i < n && s.get_ascii(i) != 58u8
        invariant
            s.is_ascii(),
            n == s@.len(),
            i <= n,
            forall|j: int| 0 <= j < i ==> s@[j] != ':',
        decreases n - i,
    {
        i = i + 1;
    }
    proof {
        s@.index_of_first_ensures(':');
    }
    if i == n {
        return None;
    }
    assert(s@[i as int] == ':');
    assert(s@.index_of_first(':') == Some(i as int));
    let hour: Option<u64> = parse_unsigned_in(s, 0, i, u32::MAX as u64);
    let minute: Option<u64> = parse_unsigned_in(s, i + 1, n, u32::MAX as u64);
    match (hour, minute) {
        (Some(h), Some(m)) => TimeOfDay::from_hm(h as u32, m as u32),
        _ => None,
    }
}

/// How long it is from `now` until the time of day that the text `H:M`
/// names comes round next; `None` where the text names no time of day.
pub fn fixed_time_from(fixed_time: &str, now: &TimeOfDay) -> (r: Option<Duration>)
    ensures
        match r {
            Some(d) => target_of_text(fixed_time@) matches Some(target) && d@ == seconds_until(
                target,
                now@,
            ) * NANOS_PER_SEC,
            None => target_of_text(fixed_time@) is None,
        },
{
    match parse_time_of_day(fixed_time) {
        Some(target) => Some(time_until(&target, now)),
        None => None,
    }
}

/// How long it is from the present moment on the local wall clock until the
/// time of day that the text `H:M` names comes round next. The result is
/// `Some` exactly for a text that names a time of day, and is then the wait
/// from some moment of the day: a whole number of seconds, a day at most.
pub fn parse_fixed_time(fixed_time: &str) -> (r: Option<Duration>)
    ensures
        r is Some <==> target_of_text(fixed_time@) is Some,
        r matches Some(d) ==> exists|now: nat|
            now < day_nanos() && d@ == #[trigger] seconds_until(
                target_of_text(fixed_time@)->0,
                now,
            ) * NANOS_PER_SEC,
        r matches Some(d) ==> d@ <= day_nanos(),
{
    let reading: (u32, u32) = local_clock_reading();
    let now: TimeOfDay = TimeOfDay::from_reading(reading.0, reading.1);
    let r: Option<Duration> = fixed_time_from(fixed_time, &now);
    proof {
        use_type_invariant(&now);
        now.lemma_within_day();
        if let Some(d) = r {
            let target = target_of_text(fixed_time@)->0;
            lemma_target_within_day(fixed_time@);
            lemma_seconds_until_bounds(target, now@);
            assert(d@ <= day_nanos()) by (nonlinear_arith)
                requires
                    d@ == seconds_until(target, now@) * NANOS_PER_SEC,
                    seconds_until(target, now@) <= SECS_PER_DAY,
                    day_nanos() == (SECS_PER_DAY as nat) * (NANOS_PER_SEC as nat),
            ;
        }
    }
    r
}

/// The wait for a time of day is never negative and never more than a day.
/// It is zero only when the target is less than a second ahead, and a full
/// day only when the target passed less than a second ago.
pub proof fn lemma_seconds_until_bounds(target: nat, now: nat)
    requires
        target < day_nanos(),
        now < day_nanos(),
    ensures
        seconds_until(target, now) <= SECS_PER_DAY,
        target >= now ==> truncated_seconds(target - now) == seconds_until(target, now),
        target < now ==> truncated_seconds(now - target) == SECS_PER_DAY - seconds_until(
            target,
            now,
        ),
        target < now ==> seconds_until(target, now) >= 1,
        seconds_until(target, now) == 0 <==> now <= target < now + NANOS_PER_SEC,
        seconds_until(target, now) == SECS_PER_DAY <==> target < now < target + NANOS_PER_SEC,
{
    let n = NANOS_PER_SEC as int;
    if target >= now {
        let d = target - now;
        assert(0 <= d / n <= 86_399 && (d / n == 0 <==> d < n)) by (nonlinear_arith)
            requires
                0 <= d < 86_400 * n,
                n == 1_000_000_000,
        ;
    } else {
        let d = now - target;
        assert(0 <= d / n <= 86_399 && (d / n == 0 <==> d < n)) by (nonlinear_arith)
            requires
                0 < d < 86_400 * n,
                n == 1_000_000_000,
        ;
    }
}

/// Waiting as long as `seconds_until` says ends within a second of the
/// target's next occurrence: at most a second early for a target still ahead
/// today, at most a second late for one due tomorrow.
pub proof fn lemma_wait_reaches_target(target: nat, now: nat)
    requires
        target < day_nanos(),
        now < day_nanos(),
    ensures
        target >= now ==> target - NANOS_PER_SEC < now + seconds_until(target, now)
            * NANOS_PER_SEC <= target,
        target < now ==> target + day_nanos() <= now + seconds_until(target, now) * NANOS_PER_SEC
            < target + day_nanos() + NANOS_PER_SEC,
{
    let n = NANOS_PER_SEC as int;
    lemma_seconds_until_bounds(target, now);
    if target >= now {
        let d = target - now;
        assert(d - n < (d / n) * n <= d) by (nonlinear_arith)
            requires
                0 <= d,
                n == 1_000_000_000,
        ;
    } else {
        let d = now - target;
        assert(d - n < (d / n) * n <= d) by (nonlinear_arith)
            requires
                0 <= d,
                n == 1_000_000_000,
        ;
        assert((86_400 - d / n) * n == 86_400 * n - (d / n) * n) by (nonlinear_arith);
    }
}

/// A time of day named by a text lies before the end of the day.
pub proof fn lemma_target_within_day(s: Seq<char>)
    ensures
        target_of_text(s) matches Some(target) ==> target < day_nanos(),
{
    if let Some((h, m)) = clock_fields(s) {
        if h < 24 && m < 60 {
            let secs = h * 3600 + m * 60;
            assert(secs * (NANOS_PER_SEC as nat) < day_nanos()) by (nonlinear_arith)
                requires
                    secs < 86_400,
                    day_nanos() == 86_400 * (NANOS_PER_SEC as nat),
            ;
        }
    }
}

/// The text `00:00` names midnight and is no plain number. As a target,
/// midnight is more than nothing and a day at most away from any moment but
/// midnight itself, and nothing away from midnight.
pub proof fn lemma_midnight_target(now: nat)
    requires
        now < day_nanos(),
    ensures
        target_of_text("00:00"@) == Some(0nat),
        unsigned_value("00:00"@, u64::MAX as nat) is None,
        now != 0 ==> 1 <= seconds_until(0, now) <= SECS_PER_DAY,
        now == 0 ==> seconds_until(0, now) == 0,
{
    lemma_seconds_until_bounds(0, now);
    reveal_strlit("00:00");
    let s = "00:00"@;
    assert(s.len() == 5 && s[0] == '0' && s[1] == '0' && s[2] == ':' && s[3] == '0' && s[4]
        == '0');
    s.index_of_first_ensures(':');
    assert(s.index_of_first(':') == Some(2int));
    let hours = s.subrange(0, 2);
    let minutes = s.subrange(3, 5);
    assert(hours =~= seq!['0', '0']);
    assert(minutes =~= seq!['0', '0']);
    reveal_with_fuel(decimal_value, 3);
    assert(hours.drop_last() =~= seq!['0']);
    assert(hours.drop_last().drop_last() =~= Seq::<char>::empty());
    assert(decimal_value(hours) == 0);
    assert(unsigned_value(hours, u32::MAX as nat) == Some(0nat));
    assert(!crate::text::is_digit(s[2]));
}

/// A text with a character outside ASCII names no time of day.
proof fn lemma_not_ascii_no_fields(s: Seq<char>)
    requires
        !vstd::utf8::is_ascii_chars(s),
    ensures
        clock_fields(s) is None,
        target_of_text(s) is None,
{
    s.index_of_first_ensures(':');
    if let Some(i) = s.index_of_first(':') {
        let k = choose|k: int| 0 <= k < s.len() && !('\0' <= #[trigger] s[k] <= '\u{7f}');
        let hours = s.subrange(0, i);
        let minutes = s.subrange(i + 1, s.len() as int);
        if k < i {
            assert(hours[k] == s[k]);
            lemma_not_ascii_not_number(hours, u32::MAX as nat);
        } else {
            assert(k > i);
            assert(minutes[k - i - 1] == s[k]);
            lemma_not_ascii_not_number(minutes, u32::MAX as nat);
        }
    }
}

} // verus!
