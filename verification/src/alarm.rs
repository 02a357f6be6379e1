//! The alarm: reads how long to wait, counts down, goes off, and waits to be
//! acknowledged.

use vstd::prelude::*;
use vstd::string::*;
use crate::action::{Action, Banner, Screen, COUNTDOWN_POLL_MILLIS, FAST_POLL_MILLIS};
use crate::clock::{
    day_nanos, fixed_time_from, lemma_midnight_target, lemma_seconds_until_bounds,
    lemma_target_within_day, parse_fixed_time, seconds_until, target_of_text, TimeOfDay,
};
use crate::duration::{Duration, NANOS_PER_SEC};
use crate::text::{parse_unsigned, unsigned_value};

verus! {

/// A text that is neither a count of seconds nor a time of day.
#[derive(Clone, Copy, Debug, PartialEq, Eq, Structural)]
pub struct InvalidTimeFormat;

impl InvalidTimeFormat {
    /// The words that tell the user what went wrong.
    pub fn message(&self) -> (r: String)
        ensures
            r@ == "Invalid time format. Use seconds or HH:MM."@,
    {
        String::from_str("Invalid time format. Use seconds or HH:MM.")
    }
}

/// The nanoseconds that an alarm asked for by the text `s` at the time of
/// day `now` has to wait. A text that reads as a count of seconds, of at
/// most 64 bits, asks for that wait. Any other text that reads as `H:M` asks
/// for the wait until that time of day comes round next. Any other text asks
/// for nothing.
pub open spec fn alarm_wait(s: Seq<char>, now: nat) -> Option<nat> {
    match unsigned_value(s, u64::MAX as nat) {
        Some(secs) => Some(secs * (NANOS_PER_SEC as nat)),
        None => match target_of_text(s) {
            Some(target) => Some(seconds_until(target, now) * (NANOS_PER_SEC as nat)),
            None => None,
        },
    }
}

/// How long an alarm asked for by the text `time` at the time of day `now`
/// has to wait: a count of seconds is tried first, a time of day second, and
/// a text that is neither is an error.
pub fn alarm_time_from(time: &str, now: &TimeOfDay) -> (r: Result<Duration, InvalidTimeFormat>)
    ensures
        match r {
            Ok(d) => alarm_wait(time@, now@) == Some(d@),
            Err(_) => alarm_wait(time@, now@) is None,
        },
{
    match parse_unsigned(time, u64::MAX) {
        Some(secs) => Ok(Duration::from_secs(secs)),
        None => match fixed_time_from(time, now) {
            Some(d) => Ok(d),
            None => Err(InvalidTimeFormat),
        },
    }
}

/// How long an alarm asked for by the text `time` at the present moment has
/// to wait. The local wall clock is read only for a time of day. The result
/// is an error exactly for a text that is neither a count of seconds nor a
/// time of day; a count of seconds is the wait itself, and the wait for a
/// time of day is the wait from some moment of the day.
pub fn parse_alarm_time(time: &str) -> (r: Result<Duration, InvalidTimeFormat>)
    ensures
        r is Err <==> unsigned_value(time@, u64::MAX as nat) is None && target_of_text(time@)
            is None,
        r matches Ok(d) ==> exists|now: nat|
            now < day_nanos() && #[trigger] alarm_wait(time@, now) == Some(d@),
        r matches Ok(d) ==> (unsigned_value(time@, u64::MAX as nat) matches Some(secs) ==> d@
            == secs * NANOS_PER_SEC),
{
    match parse_unsigned(time, u64::MAX) {
        Some(secs) => {
            let d: Duration = Duration::from_secs(secs);
            assert(alarm_wait(time@, 0) == Some(d@));
            Ok(d)
        },
        None => match parse_fixed_time(time) {
            Some(d) => {
                proof {
                    let target = target_of_text(time@)->0;
                    let now = choose|now: nat|
                        now < day_nanos() && d@ == #[trigger] seconds_until(target, now)
                            * NANOS_PER_SEC;
                    assert(alarm_wait(time@, now) == Some(d@));
                }
                Ok(d)
            },
            None => Err(InvalidTimeFormat),
        },
    }
}

/// An alarm asked for midnight at any moment of the day but midnight itself
/// waits for at least a second and for a day at most; asked for at midnight,
/// it waits no time.
pub proof fn lemma_midnight_alarm(now: nat)
    requires
        now < day_nanos(),
    ensures
        alarm_wait("00:00"@, now) matches Some(wait) && (now != 0 ==> NANOS_PER_SEC <= wait
            <= day_nanos()) && (now == 0 ==> wait == 0),
{
    lemma_midnight_target(now);
    let secs = seconds_until(0, now);
    assert(now != 0 ==> NANOS_PER_SEC <= secs * (NANOS_PER_SEC as nat) <= day_nanos())
        by (nonlinear_arith)
        requires
            now != 0 ==> 1 <= secs <= 86_400,
            day_nanos() == 86_400 * (NANOS_PER_SEC as nat),
    ;
}

/// The wait for a time of day is a whole number of seconds, a day at most,
/// at whatever moment of the day it is asked for.
pub proof fn lemma_time_of_day_wait(s: Seq<char>, now: nat)
    requires
        now < day_nanos(),
        unsigned_value(s, u64::MAX as nat) is None,
    ensures
        alarm_wait(s, now) matches Some(wait) ==> wait <= day_nanos() && wait % (
        NANOS_PER_SEC as nat) == 0,
{
    if let Some(target) = target_of_text(s) {
        lemma_target_within_day(s);
        lemma_seconds_until_bounds(target, now);
        let secs = seconds_until(target, now);
        assert(secs * (NANOS_PER_SEC as nat) <= day_nanos() && (secs * (NANOS_PER_SEC as nat)) % (
        NANOS_PER_SEC as nat) == 0) by (nonlinear_arith)
            requires
                secs <= 86_400,
                day_nanos() == 86_400 * (NANOS_PER_SEC as nat),
                NANOS_PER_SEC == 1_000_000_000,
        ;
    }
}

/// Where an alarm stands.
#[derive(Clone, Copy, Debug, PartialEq, Eq, Structural)]
pub enum AlarmState {
    /// Waiting for the time to run out.
    CountingDown,
    /// Gone off, and waiting to be acknowledged.
    Alarming,
    /// Stopped by the user, before or after going off.
    Stopped,
}

/// What an alarm does at the start of its run: wipe the screen and start
/// measuring.
pub open spec fn alarm_opening() -> Seq<Action> {
    seq![Action::Clear, Action::RestartClock]
}

/// One poll of an alarm set to `target` nanoseconds, in state `state`,
/// `elapsed` nanoseconds after its start: the state it moves to and what it
/// asks for.
///
/// A stop request stops the alarm in any state, with nothing more to do; one
/// that comes during the countdown keeps the alarm from ever going off.
/// Without one, a countdown whose time has run out goes off: it shows its
/// message, sounds the bell once, and starts waiting. A countdown whose time
/// has not run out shows the whole seconds that are left.
pub open spec fn alarm_step(target: nat, state: AlarmState, elapsed: nat, stop_requested: bool) -> (
    AlarmState,
    Seq<Action>,
) {
    match state {
        AlarmState::CountingDown => if stop_requested {
            (AlarmState::Stopped, Seq::empty())
        } else if elapsed >= target {
            (
                AlarmState::Alarming,
                seq![
                    Action::Show(Screen::Banner(Banner::AlarmUp)),
                    Action::Beep,
                    Action::Sleep { millis: FAST_POLL_MILLIS },
                ],
            )
        } else {
            (
                AlarmState::CountingDown,
                seq![
                    Action::Show(
                        Screen::Countdown {
                            secs: Duration::secs_of((target - elapsed) as nat) as u64,
                        },
                    ),
                    Action::Sleep { millis: COUNTDOWN_POLL_MILLIS },
                ],
            )
        },
        AlarmState::Alarming => if stop_requested {
            (AlarmState::Stopped, Seq::empty())
        } else {
            (AlarmState::Alarming, seq![Action::Sleep { millis: FAST_POLL_MILLIS }])
        },
        AlarmState::Stopped => (AlarmState::Stopped, Seq::empty()),
    }
}

/// An alarm.
pub struct Alarm {
    pub target: Duration,
    pub state: AlarmState,
}

impl Alarm {
    /// An alarm that counts down from `target`.
    pub fn new(target: Duration) -> (alarm: Alarm)
        ensures
            alarm.target == target,
            alarm.state == AlarmState::CountingDown,
    {
        Alarm { target, state: AlarmState::CountingDown }
    }

    /// What to do before the first poll.
    pub fn start(&self) -> (actions: Vec<Action>)
        ensures
            actions@ == alarm_opening(),
    {
        let mut actions: Vec<Action> = Vec::new();
        actions.push(Action::Clear);
        actions.push(Action::RestartClock);
        assert(actions@ =~= alarm_opening());
        actions
    }

    /// Whether the run is over.
    pub fn is_finished(&self) -> (b: bool)
        ensures
            b == (self.state == AlarmState::Stopped),
    {
        match self.state {
            AlarmState::Stopped => true,
            _ => false,
        }
    }

    /// One poll, `elapsed` after the start.
    pub fn step(&mut self, elapsed: &Duration, stop_requested: bool) -> (actions: Vec<Action>)
        ensures
            final(self).target == old(self).target,
            (final(self).state, actions@) == alarm_step(
                old(self).target@,
                old(self).state,
                elapsed@,
                stop_requested,
            ),
    {
        let mut actions: Vec<Action> = Vec::new();
        match self.state {
            AlarmState::CountingDown => {
                if stop_requested {
                    self.state = AlarmState::Stopped;
                } else if elapsed.ge(&self.target) {
                    self.state = AlarmState::Alarming;
                    actions.push(Action::Show(Screen::Banner(Banner::AlarmUp)));
                    actions.push(Action::Beep);
                    actions.push(Action::Sleep { millis: FAST_POLL_MILLIS });
                } else {
                    let left: Duration = self.target.saturating_sub(elapsed);
                    actions.push(Action::Show(Screen::Countdown { secs: left.as_secs() }));
                    actions.push(Action::Sleep { millis: COUNTDOWN_POLL_MILLIS });
                }
            },
            AlarmState::Alarming => {
                if stop_requested {
                    self.state = AlarmState::Stopped;
                } else {
                    actions.push(Action::Sleep { millis: FAST_POLL_MILLIS });
                }
            },
            AlarmState::Stopped => {},
        }
        assert(actions@ =~= alarm_step(
            old(self).target@,
            old(self).state,
            elapsed@,
            stop_requested,
        ).1);
        actions
    }
}

/// A stop request ends an alarm at the very poll that sees it, whatever time
/// has passed and whatever is left: without bell, without message, without a
/// further pause. A stopped alarm stays stopped.
pub proof fn lemma_alarm_stops(target: nat, state: AlarmState, elapsed: nat, stop_requested: bool)
    ensures
        state == AlarmState::Stopped || stop_requested ==> alarm_step(
            target,
            state,
            elapsed,
            stop_requested,
        ) == (AlarmState::Stopped, Seq::<Action>::empty()),
{
}

/// The bell of an alarm sounds in one step only: the one that takes it from
/// counting down to having gone off, which happens exactly when no stop is
/// asked for and the time has run out. An alarm never goes back to counting
/// down, and it pauses for at most half a second between two polls.
pub proof fn lemma_alarm_fires_once(
    target: nat,
    state: AlarmState,
    elapsed: nat,
    stop_requested: bool,
)
    ensures
        ({
            let (next, actions) = alarm_step(target, state, elapsed, stop_requested);
            &&& actions.contains(Action::Beep) <==> state == AlarmState::CountingDown
                && next == AlarmState::Alarming
            &&& state == AlarmState::CountingDown && next == AlarmState::Alarming
                <==> state == AlarmState::CountingDown && !stop_requested && elapsed >= target
            &&& next == AlarmState::CountingDown ==> state == AlarmState::CountingDown
            &&& forall|millis: u64| #[trigger]
                actions.contains(Action::Sleep { millis }) ==> millis <= crate::action::MAX_POLL_MILLIS
        }),
{
    let (next, actions) = alarm_step(target, state, elapsed, stop_requested);
    if state == AlarmState::CountingDown && !stop_requested && elapsed >= target {
        assert(actions[1] == Action::Beep);
    }
}

} // verus!
