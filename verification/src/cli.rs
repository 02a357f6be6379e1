//! The three modes and the names under which the command line selects them.

use vstd::prelude::*;
use vstd::string::*;
use crate::text::same_text;

verus! {

/// A mode of the clock.
#[derive(Clone, Copy, Debug, PartialEq, Eq, Structural)]
pub enum Mode {
    Stopwatch,
    Alarm,
    Pomodoro,
}

/// The mode that a subcommand name selects; any other text selects none.
pub open spec fn mode_of_name(name: Seq<char>) -> Option<Mode> {
    if name == "stopwatch"@ {
        Some(Mode::Stopwatch)
    } else if name == "alarm"@ {
        Some(Mode::Alarm)
    } else if name == "pomodoro"@ {
        Some(Mode::Pomodoro)
    } else {
        None
    }
}

/// The subcommand name of a mode.
pub open spec fn name_of_mode(mode: Mode) -> Seq<char> {
    match mode {
        Mode::Stopwatch => "stopwatch"@,
        Mode::Alarm => "alarm"@,
        Mode::Pomodoro => "pomodoro"@,
    }
}

/// Selects the mode for a subcommand name; `None` for an unknown one.
pub fn select_mode(name: &str) -> (r: Option<Mode>)
    ensures
        r == mode_of_name(name@),
{
    if same_text(name, "stopwatch") {
        Some(Mode::Stopwatch)
    } else if same_text(name, "alarm") {
        Some(Mode::Alarm)
    } else if same_text(name, "pomodoro") {
        Some(Mode::Pomodoro)
    } else {
        None
    }
}

/// What to tell the user when no mode is selected.
pub fn invalid_command_message() -> (r: String)
    ensures
        r@ == "Invalid command. Use --help for usage."@,
{
    String::from_str("Invalid command. Use --help for usage.")
}

impl Mode {
    /// The subcommand name of this mode.
    pub fn name(&self) -> (r: &'static str)
        ensures
            r@ == name_of_mode(*self),
    {
        match self {
            Mode::Stopwatch => "stopwatch",
            Mode::Alarm => "alarm",
            Mode::Pomodoro => "pomodoro",
        }
    }
}

/// Every mode is selected by its own name.
pub proof fn lemma_mode_names_round_trip(mode: Mode)
    ensures
        mode_of_name(name_of_mode(mode)) == Some(mode),
{
    reveal_strlit("stopwatch");
    reveal_strlit("alarm");
    reveal_strlit("pomodoro");
    assert("stopwatch"@.len() == 9 && "alarm"@.len() == 5 && "pomodoro"@.len() == 8);
}

} // verus!
