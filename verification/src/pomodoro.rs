//! The Pomodoro cycler: work and break countdowns in turn, for a set number
//! of cycles, with a short announcement between two cycles.

use vstd::prelude::*;
use vstd::string::*;
use crate::action::{Action, Banner, Notice, Screen, COUNTDOWN_POLL_MILLIS};
use crate::duration::{Duration, NANOS_PER_SEC};

verus! {

/// How long the announcement between two cycles stays up, in milliseconds.
pub const ANNOUNCE_MILLIS: u64 = 3000;

/// The most minutes that a phase can last: their seconds must fit 64 bits.
pub const MAX_PHASE_MINUTES: u64 = u64::MAX / 60;

/// Why a plan cannot be made.
#[derive(Clone, Copy, Debug, PartialEq, Eq, Structural)]
pub enum PlanError {
    /// The work phase would last no time.
    ZeroWork,
    /// The break would last no time.
    ZeroBreak,
    /// There would be no cycle at all.
    ZeroRepeats,
    /// A phase would last longer than can be counted in seconds.
    TooLong,
}

/// What a Pomodoro session consists of.
#[derive(Clone, Copy, Debug, PartialEq, Eq, Structural)]
pub struct PomodoroPlan {
    /// How long each work phase lasts.
    pub work: Duration,
    /// How long each break lasts.
    pub rest: Duration,
    /// How many cycles of work and break there are.
    pub repeats: u64,
}

/// The part of a cycle that a session is in.
#[derive(Clone, Copy, Debug, PartialEq, Eq, Structural)]
pub enum Phase {
    /// Counting down a work phase.
    Work,
    /// Counting down a break.
    Break,
    /// Showing the announcement between two cycles.
    Pause,
    /// All cycles are over.
    Done,
    /// Stopped by the user.
    Stopped,
}

/// What a plan is made of, for given minutes and cycles: the error for the
/// first field that will not do, in the order work, break, cycles, length.
/// Cycles that are not given count as one.
pub open spec fn plan_check(work_minutes: u64, break_minutes: u64, repeats: Option<u64>) -> Option<
    PlanError,
> {
    if work_minutes == 0 {
        Some(PlanError::ZeroWork)
    } else if break_minutes == 0 {
        Some(PlanError::ZeroBreak)
    } else if repeats == Some(0u64) {
        Some(PlanError::ZeroRepeats)
    } else if work_minutes > MAX_PHASE_MINUTES || break_minutes > MAX_PHASE_MINUTES {
        Some(PlanError::TooLong)
    } else {
        None
    }
}

impl PlanError {
    /// The words that tell the user what went wrong.
    pub fn message(&self) -> (r: String)
        ensures
            r@ == match self {
                PlanError::ZeroWork => "Work duration must be at least one minute."@,
                PlanError::ZeroBreak => "Break duration must be at least one minute."@,
                PlanError::ZeroRepeats => "There must be at least one cycle."@,
                PlanError::TooLong => "A phase cannot last that long."@,
            },
    {
        match self {
            PlanError::ZeroWork => String::from_str("Work duration must be at least one minute."),
            PlanError::ZeroBreak => String::from_str("Break duration must be at least one minute."),
            PlanError::ZeroRepeats => String::from_str("There must be at least one cycle."),
            PlanError::TooLong => String::from_str("A phase cannot last that long."),
        }
    }
}

impl PomodoroPlan {
    /// Whether every phase lasts some time and there is at least one cycle.
    pub open spec fn wf(self) -> bool {
        self.work@ > 0 && self.rest@ > 0 && self.repeats >= 1
    }

    /// The plan for work phases and breaks given in minutes, and for
    /// `repeats` cycles, or one where none is given.
    pub fn new(work_minutes: u64, break_minutes: u64, repeats: Option<u64>) -> (r: Result<
        PomodoroPlan,
        PlanError,
    >)
        ensures
            match r {
                Ok(plan) => {
                    &&& plan_check(work_minutes, break_minutes, repeats) is None
                    &&& plan.work@ == work_minutes * 60 * NANOS_PER_SEC
                    &&& plan.rest@ == break_minutes * 60 * NANOS_PER_SEC
                    &&& plan.repeats == match repeats {
                        Some(n) => n,
                        None => 1,
                    }
                    &&& plan.wf()
                },
                Err(e) => plan_check(work_minutes, break_minutes, repeats) == Some(e),
            },
    {
        if work_minutes == 0 {
            return Err(PlanError::ZeroWork);
        }
        if break_minutes == 0 {
            return Err(PlanError::ZeroBreak);
        }
        let repeats: u64 = match repeats {
            Some(n) => n,
            None => 1,
        };
        if repeats == 0 {
            return Err(PlanError::ZeroRepeats);
        }
        if work_minutes > MAX_PHASE_MINUTES || break_minutes > MAX_PHASE_MINUTES {
            return Err(PlanError::TooLong);
        }
        let work: Duration = Duration::from_secs(work_minutes * 60);
        let rest: Duration = Duration::from_secs(break_minutes * 60);
        assert(work@ > 0 && rest@ > 0) by (nonlinear_arith)
            requires
                work@ == work_minutes * 60 * NANOS_PER_SEC,
                rest@ == break_minutes * 60 * NANOS_PER_SEC,
                work_minutes > 0,
                break_minutes > 0,
        ;
        Ok(PomodoroPlan { work, rest, repeats })
    }
}

/// How long a phase lasts, in nanoseconds, for work phases of `work` and
/// breaks of `rest` nanoseconds.
pub open spec fn phase_length(work: nat, rest: nat, phase: Phase) -> nat {
    match phase {
        Phase::Work => work,
        Phase::Break => rest,
        Phase::Pause => (ANNOUNCE_MILLIS as nat) * 1_000_000,
        Phase::Done => 0,
        Phase::Stopped => 0,
    }
}

/// What follows a phase of cycle `cycle` once its time is up, in a session
/// of `repeats` cycles: the break follows the work, and after the break
/// comes the announcement and then the work of the next cycle, but for the
/// last cycle, whose break ends the session.
pub open spec fn next_phase(repeats: u64, cycle: u64, phase: Phase) -> (u64, Phase) {
    match phase {
        Phase::Work => (cycle, Phase::Break),
        Phase::Break => if cycle < repeats {
            (cycle, Phase::Pause)
        } else {
            (cycle, Phase::Done)
        },
        Phase::Pause => if cycle < repeats {
            ((cycle + 1) as u64, Phase::Work)
        } else {
            (cycle, Phase::Done)
        },
        Phase::Done => (cycle, Phase::Done),
        Phase::Stopped => (cycle, Phase::Stopped),
    }
}

/// What a session asks for when a phase of cycle `cycle` has run its time:
/// the bell at the end of every work phase and every break, the message for
/// what comes next, and a fresh clock for it.
pub open spec fn handover(repeats: u64, cycle: u64, phase: Phase) -> Seq<Action> {
    match phase {
        Phase::Work => seq![
            Action::Beep,
            Action::Show(Screen::Banner(Banner::BreakTime)),
            Action::RestartClock,
        ],
        Phase::Break => if cycle < repeats {
            seq![
                Action::Beep,
                Action::Show(Screen::Banner(Banner::NextCycle)),
                Action::RestartClock,
            ]
        } else {
            seq![
                Action::Beep,
                Action::Show(Screen::Banner(Banner::PomodoroDone)),
                Action::Print(Notice::SessionComplete),
            ]
        },
        Phase::Pause => if cycle < repeats {
            seq![
                Action::Clear,
                Action::Print(Notice::CycleStart { cycle: (cycle + 1) as u64, of: repeats }),
                Action::RestartClock,
            ]
        } else {
            Seq::empty()
        },
        Phase::Done => Seq::empty(),
        Phase::Stopped => Seq::empty(),
    }
}

/// What a session asks for while a phase still has `left` nanoseconds to
/// run: the whole seconds left on show for work and break, and a pause
/// before the next poll.
pub open spec fn holding(phase: Phase, left: nat) -> Seq<Action> {
    match phase {
        Phase::Work => seq![
            Action::Show(Screen::Work { secs: Duration::secs_of(left) as u64 }),
            Action::Sleep { millis: COUNTDOWN_POLL_MILLIS },
        ],
        Phase::Break => seq![
            Action::Show(Screen::Break { secs: Duration::secs_of(left) as u64 }),
            Action::Sleep { millis: COUNTDOWN_POLL_MILLIS },
        ],
        Phase::Pause => seq![Action::Sleep { millis: COUNTDOWN_POLL_MILLIS }],
        Phase::Done => Seq::empty(),
        Phase::Stopped => Seq::empty(),
    }
}

/// What a session does at the start of its run: wipe the screen, say which
/// cycle begins, and start measuring.
pub open spec fn pomodoro_opening(repeats: u64) -> Seq<Action> {
    seq![
        Action::Clear,
        Action::Print(Notice::CycleStart { cycle: 1, of: repeats }),
        Action::RestartClock,
    ]
}

/// One poll of a session, `elapsed` nanoseconds into the phase `phase` of
/// cycle `cycle`: the cycle and phase it moves to and what it asks for.
///
/// A session that is done or stopped stays as it is. A stop request stops
/// any other, with nothing more to do. Without one, a phase whose time is up
/// hands over to the next, and a phase whose time is not up holds.
pub open spec fn pomodoro_step(
    work: nat,
    rest: nat,
    repeats: u64,
    cycle: u64,
    phase: Phase,
    elapsed: nat,
    stop_requested: bool,
) -> (u64, Phase, Seq<Action>) {
    if phase == Phase::Done || phase == Phase::Stopped {
        (cycle, phase, Seq::empty())
    } else if stop_requested {
        (cycle, Phase::Stopped, Seq::empty())
    } else if elapsed >= phase_length(work, rest, phase) {
        (
            next_phase(repeats, cycle, phase).0,
            next_phase(repeats, cycle, phase).1,
            handover(repeats, cycle, phase),
        )
    } else {
        (cycle, phase, holding(phase, (phase_length(work, rest, phase) - elapsed) as nat))
    }
}

/// A Pomodoro session in progress.
pub struct Pomodoro {
    pub plan: PomodoroPlan,
    /// The cycle that the session is in, counted from one.
    pub cycle: u64,
    pub phase: Phase,
}

impl Pomodoro {
    /// Whether the session follows a plan that will do and is in one of
    /// the plan's cycles.
    pub open spec fn wf(self) -> bool {
        self.plan.wf() && 1 <= self.cycle <= self.plan.repeats
    }

    /// A session at the start of the work phase of its first cycle.
    pub fn new(plan: PomodoroPlan) -> (session: Pomodoro)
        ensures
            session.plan == plan,
            session.cycle == 1,
            session.phase == Phase::Work,
            plan.wf() ==> session.wf(),
    {
        Pomodoro { plan, cycle: 1, phase: Phase::Work }
    }

    /// What to do before the first poll.
    pub fn start(&self) -> (actions: Vec<Action>)
        ensures
            actions@ == pomodoro_opening(self.plan.repeats),
    {
        let mut actions: Vec<Action> = Vec::new();
        actions.push(Action::Clear);
        actions.push(Action::Print(Notice::CycleStart { cycle: 1, of: self.plan.repeats }));
        actions.push(Action::RestartClock);
        assert(actions@ =~= pomodoro_opening(self.plan.repeats));
        actions
    }

    /// Whether the run is over: all cycles done, or stopped.
    pub fn is_finished(&self) -> (b: bool)
        ensures
            b == (self.phase == Phase::Done || self.phase == Phase::Stopped),
    {
        match self.phase {
            Phase::Done => true,
            Phase::Stopped => true,
            _ => false,
        }
    }

    /// How long the phase that the session is in lasts.
    fn current_length(&self) -> (d: Duration)
        ensures
            d@ == phase_length(self.plan.work@, self.plan.rest@, self.phase),
    {
        match self.phase {
            Phase::Work => self.plan.work,
            Phase::Break => self.plan.rest,
            Phase::Pause => Duration::from_millis(ANNOUNCE_MILLIS),
            _ => Duration::zero(),
        }
    }

    /// One poll, `elapsed` after the clock was last restarted.
    pub fn step(&mut self, elapsed: &Duration, stop_requested: bool) -> (actions: Vec<Action>)
        ensures
            final(self).plan == old(self).plan,
            (final(self).cycle, final(self).phase, actions@) == pomodoro_step(
                old(self).plan.work@,
                old(self).plan.rest@,
                old(self).plan.repeats,
                old(self).cycle,
                old(self).phase,
                elapsed@,
                stop_requested,
            ),
            old(self).wf() ==> final(self).wf(),
    {
        let mut actions: Vec<Action> = Vec::new();
        let ghost expected = pomodoro_step(
            self.plan.work@,
            self.plan.rest@,
            self.plan.repeats,
            self.cycle,
            self.phase,
            elapsed@,
            stop_requested,
        );
        if self.is_finished() {
            assert(actions@ =~= expected.2);
            return actions;
        }
        if stop_requested {
            self.phase = Phase::Stopped;
            assert(actions@ =~= expected.2);
            return actions;
        }
        let length: Duration = self.current_length();
        let more: bool = self.cycle < self.plan.repeats;
        if elapsed.ge(&length) {
            match self.phase {
                Phase::Work => {
                    actions.push(Action::Beep);
                    actions.push(Action::Show(Screen::Banner(Banner::BreakTime)));
                    actions.push(Action::RestartClock);
                    self.phase = Phase::Break;
                },
                Phase::Break => {
                    actions.push(Action::Beep);
                    if more {
                        actions.push(Action::Show(Screen::Banner(Banner::NextCycle)));
                        actions.push(Action::RestartClock);
                        self.phase = Phase::Pause;
                    } else {
                        actions.push(Action::Show(Screen::Banner(Banner::PomodoroDone)));
                        actions.push(Action::Print(Notice::SessionComplete));
                        self.phase = Phase::Done;
                    }
                },
                _ => {
                    if more {
                        self.cycle = self.cycle + 1;
                        actions.push(Action::Clear);
                        actions.push(
                            Action::Print(
                                Notice::CycleStart { cycle: self.cycle, of: self.plan.repeats },
                            ),
                        );
                        actions.push(Action::RestartClock);
                        self.phase = Phase::Work;
                    } else {
                        self.phase = Phase::Done;
                    }
                },
            }
        } else {
            let left: u64 = length.saturating_sub(elapsed).as_secs();
            match self.phase {
                Phase::Work => {
                    actions.push(Action::Show(Screen::Work { secs: left }));
                },
                Phase::Break => {
                    actions.push(Action::Show(Screen::Break { secs: left }));
                },
                _ => {},
            }
            actions.push(Action::Sleep { millis: COUNTDOWN_POLL_MILLIS });
        }
        assert(actions@ =~= expected.2);
        actions
    }
}

/// The phases that a session of `repeats` cycles still runs through when it
/// is in phase `phase` of cycle `cycle` and nobody stops it, that phase
/// first.
pub open spec fn schedule_from(repeats: u64, cycle: u64, phase: Phase) -> Seq<(u64, Phase)>
    decreases
        (if cycle <= repeats {
            repeats - cycle
        } else {
            0
        }),
        (match phase {
            Phase::Work => 3nat,
            Phase::Break => 2nat,
            Phase::Pause => 1nat,
            _ => 0nat,
        }),
{
    match phase {
        Phase::Done => Seq::empty(),
        Phase::Stopped => Seq::empty(),
        _ => seq![(cycle, phase)] + schedule_from(
            repeats,
            next_phase(repeats, cycle, phase).0,
            next_phase(repeats, cycle, phase).1,
        ),
    }
}

/// The phase that stands at place `i` of a schedule, counted from zero:
/// work, break and announcement in turn.
pub open spec fn phase_in_turn(i: int) -> Phase {
    if i % 3 == 0 {
        Phase::Work
    } else if i % 3 == 1 {
        Phase::Break
    } else {
        Phase::Pause
    }
}

/// All the phases of a session of `repeats` cycles that nobody stops.
pub open spec fn schedule(repeats: u64) -> Seq<(u64, Phase)> {
    schedule_from(repeats, 1, Phase::Work)
}

/// How often the phase `phase` stands in a list of phases.
pub open spec fn count_phase(phases: Seq<(u64, Phase)>, phase: Phase) -> nat
    decreases phases.len(),
{
    if phases.len() == 0 {
        0
    } else {
        count_phase(phases.drop_last(), phase) + if phases.last().1 == phase {
            1nat
        } else {
            0nat
        }
    }
}

/// A list of phases with one more phase in front has that phase counted in.
proof fn lemma_count_front(entry: (u64, Phase), rest: Seq<(u64, Phase)>, phase: Phase)
    ensures
        count_phase(seq![entry] + rest, phase) == count_phase(rest, phase) + if entry.1 == phase {
            1nat
        } else {
            0nat
        },
    decreases rest.len(),
{
    let all = seq![entry] + rest;
    if rest.len() == 0 {
        assert(all.drop_last() =~= Seq::<(u64, Phase)>::empty());
        assert(count_phase(all.drop_last(), phase) == 0);
    } else {
        assert(all.drop_last() =~= seq![entry] + rest.drop_last());
        lemma_count_front(entry, rest.drop_last(), phase);
    }
}

/// From the work phase of cycle `cycle` on, a session has one work phase and
/// one break for each cycle that is left, this one included, and one
/// announcement fewer; and every announcement stands in a cycle before the
/// last.
proof fn lemma_schedule_from_work(repeats: u64, cycle: u64)
    requires
        1 <= cycle <= repeats,
    ensures
        count_phase(schedule_from(repeats, cycle, Phase::Work), Phase::Work) == repeats - cycle
            + 1,
        count_phase(schedule_from(repeats, cycle, Phase::Work), Phase::Break) == repeats - cycle
            + 1,
        count_phase(schedule_from(repeats, cycle, Phase::Work), Phase::Pause) == repeats - cycle,
        schedule_from(repeats, cycle, Phase::Work).len() == 3 * (repeats - cycle) + 2,
        forall|i: int|
            0 <= i < schedule_from(repeats, cycle, Phase::Work).len() ==> {
                let entry = #[trigger] schedule_from(repeats, cycle, Phase::Work)[i];
                &&& entry.0 == cycle + i / 3
                &&& entry.1 == phase_in_turn(i)
            },
    decreases repeats - cycle,
{
    let from_work = schedule_from(repeats, cycle, Phase::Work);
    let from_break = schedule_from(repeats, cycle, Phase::Break);
    assert(from_work == seq![(cycle, Phase::Work)] + from_break);
    lemma_count_front((cycle, Phase::Work), from_break, Phase::Work);
    lemma_count_front((cycle, Phase::Work), from_break, Phase::Break);
    lemma_count_front((cycle, Phase::Work), from_break, Phase::Pause);
    if cycle < repeats {
        let from_pause = schedule_from(repeats, cycle, Phase::Pause);
        let next: u64 = (cycle + 1) as u64;
        let from_next = schedule_from(repeats, next, Phase::Work);
        assert(from_break == seq![(cycle, Phase::Break)] + from_pause);
        assert(from_pause == seq![(cycle, Phase::Pause)] + from_next);
        lemma_schedule_from_work(repeats, next);
        lemma_count_front((cycle, Phase::Break), from_pause, Phase::Work);
        lemma_count_front((cycle, Phase::Break), from_pause, Phase::Break);
        lemma_count_front((cycle, Phase::Break), from_pause, Phase::Pause);
        lemma_count_front((cycle, Phase::Pause), from_next, Phase::Work);
        lemma_count_front((cycle, Phase::Pause), from_next, Phase::Break);
        lemma_count_front((cycle, Phase::Pause), from_next, Phase::Pause);
        assert forall|i: int| 0 <= i < from_work.len() implies {
            let entry = #[trigger] from_work[i];
            &&& entry.0 == cycle + i / 3
            &&& entry.1 == phase_in_turn(i)
        } by {
            if i >= 3 {
                assert(from_work[i] == from_next[i - 3]);
            }
        }
    } else {
        let done = schedule_from(repeats, cycle, Phase::Done);
        assert(from_break == seq![(cycle, Phase::Break)] + done);
        assert(done =~= Seq::<(u64, Phase)>::empty());
        lemma_count_front((cycle, Phase::Break), done, Phase::Work);
        lemma_count_front((cycle, Phase::Break), done, Phase::Break);
        lemma_count_front((cycle, Phase::Break), done, Phase::Pause);
    }
}

/// A session of `repeats` cycles that nobody stops runs through exactly
/// `repeats` work phases and `repeats` breaks, in turn and cycle by cycle,
/// with one announcement after the break of every cycle but the last: after
/// the last break the session is done.
pub proof fn lemma_schedule_counts(repeats: u64)
    requires
        repeats >= 1,
    ensures
        count_phase(schedule(repeats), Phase::Work) == repeats,
        count_phase(schedule(repeats), Phase::Break) == repeats,
        count_phase(schedule(repeats), Phase::Pause) == repeats - 1,
        schedule(repeats).len() == 3 * repeats - 1,
        forall|i: int|
            0 <= i < schedule(repeats).len() ==> {
                let entry = #[trigger] schedule(repeats)[i];
                &&& entry.0 == 1 + i / 3
                &&& entry.1 == phase_in_turn(i)
                &&& entry.1 == Phase::Pause ==> entry.0 < repeats
            },
        schedule(repeats).last() == (repeats, Phase::Break),
{
    lemma_schedule_from_work(repeats, 1);
    let all = schedule(repeats);
    assert forall|i: int| 0 <= i < all.len() implies {
        let entry = #[trigger] all[i];
        entry.1 == Phase::Pause ==> entry.0 < repeats
    } by {
        if all[i].1 == Phase::Pause {
            assert(i % 3 == 2);
            assert(i + 1 < all.len());
        }
    }
    let last = all.len() - 1;
    assert(all[last].0 == 1 + last / 3);
}

/// A session that is polled without a stop request keeps to its schedule:
/// while the time of its phase is not up it stays where it is, and once it
/// is up it moves to what the schedule has next. A stop request stops it at
/// once, with nothing more to do, whatever time has passed; a session that
/// is done or stopped stays so. No pause that it asks for is longer than
/// half a second.
pub proof fn lemma_step_keeps_schedule(
    work: nat,
    rest: nat,
    repeats: u64,
    cycle: u64,
    phase: Phase,
    elapsed: nat,
    stop_requested: bool,
)
    ensures
        ({
            let (next_cycle, next, actions) = pomodoro_step(
                work,
                rest,
                repeats,
                cycle,
                phase,
                elapsed,
                stop_requested,
            );
            let running = phase != Phase::Done && phase != Phase::Stopped;
            &&& !running ==> next == phase && next_cycle == cycle && actions.len() == 0
            &&& running && stop_requested ==> next == Phase::Stopped && actions.len() == 0
            &&& running && !stop_requested && elapsed < phase_length(work, rest, phase) ==> (
            next_cycle, next) == (cycle, phase)
            &&& running && !stop_requested && elapsed >= phase_length(work, rest, phase)
                ==> schedule_from(repeats, cycle, phase) == seq![(cycle, phase)] + schedule_from(
                repeats,
                next_cycle,
                next,
            )
            &&& forall|millis: u64| #[trigger]
                actions.contains(Action::Sleep { millis }) ==> millis
                    <= crate::action::MAX_POLL_MILLIS
        }),
{
}

} // verus!
