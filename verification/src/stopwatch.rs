//! The stopwatch: counts up from zero until it is stopped.

use vstd::prelude::*;
use crate::action::{Action, Screen, FAST_POLL_MILLIS};
use crate::duration::Duration;

verus! {

/// Where a stopwatch stands.
#[derive(Clone, Copy, Debug, PartialEq, Eq, Structural)]
pub enum StopwatchState {
    Running,
    Stopped,
}

/// What a stopwatch does at the start of its run: wipe the screen and start
/// measuring.
pub open spec fn stopwatch_opening() -> Seq<Action> {
    seq![Action::Clear, Action::RestartClock]
}

/// One poll of a stopwatch in state `state`, `elapsed` nanoseconds after its
/// start: the state it moves to and what it asks for. A running stopwatch
/// that is asked to stop stops and asks for nothing more; otherwise it shows
/// the time elapsed and asks for a short pause.
pub open spec fn stopwatch_step(state: StopwatchState, elapsed: nat, stop_requested: bool) -> (
    StopwatchState,
    Seq<Action>,
) {
    match state {
        StopwatchState::Running => if stop_requested {
            (StopwatchState::Stopped, Seq::empty())
        } else {
            (
                StopwatchState::Running,
                seq![
                    Action::Show(
                        Screen::Elapsed {
                            secs: Duration::secs_of(elapsed) as u64,
                            millis: Duration::millis_of(elapsed) as u32,
                        },
                    ),
                    Action::Sleep { millis: FAST_POLL_MILLIS },
                ],
            )
        },
        StopwatchState::Stopped => (StopwatchState::Stopped, Seq::empty()),
    }
}

/// A stopwatch.
pub struct Stopwatch {
    pub state: StopwatchState,
}

impl Stopwatch {
    /// A stopwatch that is running.
    pub fn new() -> (watch: Stopwatch)
        ensures
            watch.state == StopwatchState::Running,
    {
        Stopwatch { state: StopwatchState::Running }
    }

    /// What to do before the first poll.
    pub fn start(&self) -> (actions: Vec<Action>)
        ensures
            actions@ == stopwatch_opening(),
    {
        let mut actions: Vec<Action> = Vec::new();
        actions.push(Action::Clear);
        actions.push(Action::RestartClock);
        assert(actions@ =~= stopwatch_opening());
        actions
    }

    /// Whether the run is over.
    pub fn is_finished(&self) -> (b: bool)
        ensures
            b == (self.state == StopwatchState::Stopped),
    {
        match self.state {
            StopwatchState::Stopped => true,
            StopwatchState::Running => false,
        }
    }

    /// One poll, `elapsed` after the start.
    pub fn step(&mut self, elapsed: &Duration, stop_requested: bool) -> (actions: Vec<Action>)
        ensures
            (final(self).state, actions@) == stopwatch_step(
                old(self).state,
                elapsed@,
                stop_requested,
            ),
    {
        let mut actions: Vec<Action> = Vec::new();
        match self.state {
            StopwatchState::Running => {
                if stop_requested {
                    self.state = StopwatchState::Stopped;
                } else {
                    actions.push(
                        Action::Show(
                            Screen::Elapsed {
                                secs: elapsed.as_secs(),
                                millis: elapsed.subsec_millis(),
                            },
                        ),
                    );
                    actions.push(Action::Sleep { millis: FAST_POLL_MILLIS });
                }
            },
            StopwatchState::Stopped => {},
        }
        assert(actions@ =~= stopwatch_step(old(self).state, elapsed@, stop_requested).1);
        actions
    }
}

/// A stopped stopwatch stays stopped and asks for nothing, whatever it is
/// polled with; and a stop request stops a stopwatch at once, without a
/// further pause.
pub proof fn lemma_stopwatch_stops(state: StopwatchState, elapsed: nat, stop_requested: bool)
    ensures
        state == StopwatchState::Stopped || stop_requested ==> stopwatch_step(
            state,
            elapsed,
            stop_requested,
        ) == (StopwatchState::Stopped, Seq::<Action>::empty()),
{
}

} // verus!
