use vstd::prelude::*;

use crate::config::timer::TimerConfig;
use crate::kinds::color::Color;
use crate::utils::text::str_eq;

verus! {

/// A phase in the pomodoro cycle.
#[derive(Clone, Copy, Debug, PartialEq, Eq, Structural)]
pub enum Phase {
    Work,
    Break,
    /// A longer break after completing a full interval of work sessions.
    LongBreak,
}

/// The human-readable label of a phase.
pub open spec fn phase_label(p: Phase) -> Seq<char> {
    match p {
        Phase::Work => "Work Session"@,
        Phase::Break => "Short Break"@,
        Phase::LongBreak => "Long Break"@,
    }
}

/// The name under which a phase is stored in the database.
pub open spec fn phase_db_name(p: Phase) -> Seq<char> {
    match p {
        Phase::Work => "work"@,
        Phase::Break => "break"@,
        Phase::LongBreak => "long_break"@,
    }
}

/// The phase stored in the database under `s`, if any.
pub open spec fn phase_from_db_name(s: Seq<char>) -> Option<Phase> {
    if s == "work"@ {
        Some(Phase::Work)
    } else if s == "break"@ {
        Some(Phase::Break)
    } else if s == "long_break"@ {
        Some(Phase::LongBreak)
    } else {
        None
    }
}

impl Phase {
    pub fn label(&self) -> (res: &str)
        ensures
            res@ == phase_label(*self),
    {
        match self {
            Phase::Work => "Work Session",
            Phase::Break => "Short Break",
            Phase::LongBreak => "Long Break",
        }
    }

    pub fn color(&self) -> (res: Color)
        ensures
            res == (match *self {
                Phase::Work => Color::Red,
                Phase::Break => Color::Green,
                Phase::LongBreak => Color::Cyan,
            }),
    {
        match self {
            Phase::Work => Color::Red,
            Phase::Break => Color::Green,
            Phase::LongBreak => Color::Cyan,
        }
    }

    pub fn to_db_str(&self) -> (res: &str)
        ensures
            res@ == phase_db_name(*self),
    {
        match self {
            Phase::Work => "work",
            Phase::Break => "break",
            Phase::LongBreak => "long_break",
        }
    }

    pub fn from_db_str(s: &str) -> (res: Option<Phase>)
        ensures
            res == phase_from_db_name(s@),
    {
        if str_eq(s, "work") {
            Some(Phase::Work)
        } else if str_eq(s, "break") {
            Some(Phase::Break)
        } else if str_eq(s, "long_break") {
            Some(Phase::LongBreak)
        } else {
            None
        }
    }

    /// Configured duration in milliseconds.
    pub fn duration(&self, timer_config: &TimerConfig) -> (res: u32)
        ensures
            res == (match *self {
                Phase::Work => timer_config.spec_work_duration(),
                Phase::Break => timer_config.spec_break_duration(),
                Phase::LongBreak => timer_config.spec_long_break_duration(),
            }),
    {
        match self {
            Phase::Work => timer_config.work_duration(),
            Phase::Break => timer_config.break_duration(),
            Phase::LongBreak => timer_config.long_break_duration(),
        }
    }
}

/// Storing a phase and reading it back gives the same phase, and a stored name that reads
/// back as a phase is exactly that phase's name.
pub proof fn lemma_db_name_round_trip(p: Phase, s: Seq<char>)
    ensures
        phase_from_db_name(phase_db_name(p)) == Some(p),
        phase_from_db_name(s) == Some(p) ==> phase_db_name(p) == s,
{
    reveal_strlit("work");
    reveal_strlit("break");
    reveal_strlit("long_break");
    assert("work"@.len() == 4 && "break"@.len() == 5 && "long_break"@.len() == 10);
    assert("work"@ != "break"@);
    assert("work"@ != "long_break"@);
    assert("break"@ != "long_break"@);
}

/// The stored names are fixed: a work session is stored as `work`, a short break as
/// `break` and a long break as `long_break`, and each of those names reads back as that
/// phase.
pub proof fn lemma_db_names_are_fixed()
    ensures
        phase_db_name(Phase::Work) == seq!['w', 'o', 'r', 'k'],
        phase_db_name(Phase::Break) == seq!['b', 'r', 'e', 'a', 'k'],
        phase_db_name(Phase::LongBreak) == seq!['l', 'o', 'n', 'g', '_', 'b', 'r', 'e', 'a', 'k'],
        phase_from_db_name(seq!['w', 'o', 'r', 'k']) == Some(Phase::Work),
        phase_from_db_name(seq!['b', 'r', 'e', 'a', 'k']) == Some(Phase::Break),
        phase_from_db_name(seq!['l', 'o', 'n', 'g', '_', 'b', 'r', 'e', 'a', 'k']) == Some(
            Phase::LongBreak,
        ),
{
    reveal_strlit("work");
    reveal_strlit("break");
    reveal_strlit("long_break");
    assert("work"@ =~= seq!['w', 'o', 'r', 'k']);
    assert("break"@ =~= seq!['b', 'r', 'e', 'a', 'k']);
    assert("long_break"@ =~= seq!['l', 'o', 'n', 'g', '_', 'b', 'r', 'e', 'a', 'k']);
}

} // verus!
