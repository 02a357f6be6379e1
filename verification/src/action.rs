//! What a mode asks its driver to do between two polls, and what it asks to
//! have shown.

use vstd::prelude::*;
use vstd::string::*;
use crate::format::{
    format_hms, format_hms_millis, format_mins_secs, hms_millis_text, hms_text, mins_secs_text,
};
use crate::text::{decimal, push_decimal};

verus! {

/// The pause between two polls of a countdown, in milliseconds.
pub const COUNTDOWN_POLL_MILLIS: u64 = 500;

/// The pause between two polls of the stopwatch, and of an alarm that has
/// gone off, in milliseconds.
pub const FAST_POLL_MILLIS: u64 = 100;

/// The longest pause that any mode asks for between two polls, in
/// milliseconds.
pub const MAX_POLL_MILLIS: u64 = 500;

/// A fixed message in big letters.
#[derive(Clone, Copy, Debug, PartialEq, Eq, Structural)]
pub enum Banner {
    /// The alarm has gone off.
    AlarmUp,
    /// A work phase is over.
    BreakTime,
    /// A cycle is over and another follows.
    NextCycle,
    /// The last cycle is over.
    PomodoroDone,
}

/// One line of big text to show.
#[derive(Clone, Copy, Debug, PartialEq, Eq, Structural)]
pub enum Screen {
    /// Time counted up: whole seconds, and milliseconds beyond them.
    Elapsed { secs: u64, millis: u32 },
    /// Whole seconds left of an alarm.
    Countdown { secs: u64 },
    /// Whole seconds left of a work phase.
    Work { secs: u64 },
    /// Whole seconds left of a break.
    Break { secs: u64 },
    /// A fixed message.
    Banner(Banner),
}

/// One plain line to print below the big text.
#[derive(Clone, Copy, Debug, PartialEq, Eq, Structural)]
pub enum Notice {
    /// A cycle begins: its number, and how many there are.
    CycleStart { cycle: u64, of: u64 },
    /// All cycles are done.
    SessionComplete,
}

/// One thing for the driver to do.
#[derive(Clone, Copy, Debug, PartialEq, Eq, Structural)]
pub enum Action {
    /// Wipe the screen.
    Clear,
    /// Draw a line of big text.
    Show(Screen),
    /// Print a plain line.
    Print(Notice),
    /// Sound the bell.
    Beep,
    /// Wait before the next poll.
    Sleep { millis: u64 },
    /// Measure elapsed time from this moment on.
    RestartClock,
}

impl Banner {
    /// The words of the message.
    pub open spec fn text(self) -> Seq<char> {
        match self {
            Banner::AlarmUp => "ALARM UP!"@,
            Banner::BreakTime => "BREAK TIME!"@,
            Banner::NextCycle => "NEXT CYCLE STARTING!"@,
            Banner::PomodoroDone => "POMODORO DONE!"@,
        }
    }

    /// The words of the message.
    pub fn as_str(&self) -> (r: &'static str)
        ensures
            r@ == self.text(),
    {
        match self {
            Banner::AlarmUp => "ALARM UP!",
            Banner::BreakTime => "BREAK TIME!",
            Banner::NextCycle => "NEXT CYCLE STARTING!",
            Banner::PomodoroDone => "POMODORO DONE!",
        }
    }
}

impl Screen {
    /// The line of text that is drawn for this screen.
    pub open spec fn text(self) -> Seq<char> {
        match self {
            Screen::Elapsed { secs, millis } => hms_millis_text(secs as nat, millis as nat),
            Screen::Countdown { secs } => hms_text(secs as nat),
            Screen::Work { secs } => "Work: "@ + mins_secs_text(secs as nat),
            Screen::Break { secs } => "Break: "@ + mins_secs_text(secs as nat),
            Screen::Banner(banner) => banner.text(),
        }
    }

    /// The line of text that is drawn for this screen.
    pub fn to_text(&self) -> (r: String)
        ensures
            r@ == self.text(),
    {
        match self {
            Screen::Elapsed { secs, millis } => format_hms_millis(*secs, *millis),
            Screen::Countdown { secs } => format_hms(*secs),
            Screen::Work { secs } => {
                let mut s = String::from_str("Work: ");
                s.append(format_mins_secs(*secs).as_str());
                s
            },
            Screen::Break { secs } => {
                let mut s = String::from_str("Break: ");
                s.append(format_mins_secs(*secs).as_str());
                s
            },
            Screen::Banner(banner) => String::from_str(banner.as_str()),
        }
    }
}

impl Notice {
    /// The line that is printed for this notice.
    pub open spec fn text(self) -> Seq<char> {
        match self {
            Notice::CycleStart { cycle, of } => "Pomodoro Cycle "@ + decimal(cycle as nat)
                + "/"@ + decimal(of as nat),
            Notice::SessionComplete => "Pomodoro session complete!"@,
        }
    }

    /// The line that is printed for this notice.
    pub fn to_text(&self) -> (r: String)
        ensures
            r@ == self.text(),
    {
        match self {
            Notice::CycleStart { cycle, of } => {
                let mut s = String::from_str("Pomodoro Cycle ");
                push_decimal(&mut s, *cycle);
                s.append("/");
                push_decimal(&mut s, *of);
                s
            },
            Notice::SessionComplete => String::from_str("Pomodoro session complete!"),
        }
    }
}

} // verus!
