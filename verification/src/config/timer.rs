use vstd::prelude::*;

verus! {

/// `v` limited to the closed range `lo..=hi`.
pub open spec fn clamped(v: u32, lo: u32, hi: u32) -> u32 {
    if v < lo {
        lo
    } else if v > hi {
        hi
    } else {
        v
    }
}

fn clamp(v: u32, lo: u32, hi: u32) -> (res: u32)
    requires
        lo <= hi,
    ensures
        res == clamped(v, lo, hi),
{
    if v < lo {
        lo
    } else if v > hi {
        hi
    } else {
        v
    }
}

pub fn default_work_duration() -> (res: u32)
    ensures
        res == 25,
{
    25
}

pub fn default_break_duration() -> (res: u32)
    ensures
        res == 5,
{
    5
}

pub fn default_long_break_duration() -> (res: u32)
    ensures
        res == 15,
{
    15
}

pub fn default_long_break_interval() -> (res: u32)
    ensures
        res == 4,
{
    4
}

pub fn default_daily_session_goal() -> (res: u32)
    ensures
        res == 16,
{
    16
}

/// Configuration for the pomodoro timer, as read from the user's config file.
/// The raw values are kept as written; the accessors clamp them.
#[derive(Debug)]
pub struct TimerConfig {
    pub show_millis: bool,
    /// Work session duration in minutes.
    pub work_duration: u32,
    /// Short break duration in minutes.
    pub break_duration: u32,
    /// Long break duration in minutes.
    pub long_break_duration: u32,
    /// Number of work sessions before a long break.
    pub long_break_interval: u32,
    /// Target number of work sessions to complete each day.
    pub daily_session_goal: u32,
}

impl Default for TimerConfig {
    fn default() -> (res: Self)
        ensures
            res.is_default(),
    {
        TimerConfig {
            show_millis: false,
            work_duration: default_work_duration(),
            break_duration: default_break_duration(),
            long_break_duration: default_long_break_duration(),
            long_break_interval: default_long_break_interval(),
            daily_session_goal: default_daily_session_goal(),
        }
    }
}

impl TimerConfig {
    /// Whether every raw value is the one a missing entry defaults to.
    pub open spec fn is_default(&self) -> bool {
        &&& !self.show_millis
        &&& self.work_duration == 25
        &&& self.break_duration == 5
        &&& self.long_break_duration == 15
        &&& self.long_break_interval == 4
        &&& self.daily_session_goal == 16
    }

    /// Builds a config from the entries of a config file; a missing entry takes its default.
    pub fn from_entries(
        show_millis: Option<bool>,
        work_duration: Option<u32>,
        break_duration: Option<u32>,
        long_break_duration: Option<u32>,
        long_break_interval: Option<u32>,
        daily_session_goal: Option<u32>,
    ) -> (res: Self)
        ensures
            res.show_millis == show_millis.unwrap_or(false),
            res.work_duration == work_duration.unwrap_or(25),
            res.break_duration == break_duration.unwrap_or(5),
            res.long_break_duration == long_break_duration.unwrap_or(15),
            res.long_break_interval == long_break_interval.unwrap_or(4),
            res.daily_session_goal == daily_session_goal.unwrap_or(16),
    {
        TimerConfig {
            show_millis: match show_millis {
                Some(v) => v,
                None => false,
            },
            work_duration: match work_duration {
                Some(v) => v,
                None => default_work_duration(),
            },
            break_duration: match break_duration {
                Some(v) => v,
                None => default_break_duration(),
            },
            long_break_duration: match long_break_duration {
                Some(v) => v,
                None => default_long_break_duration(),
            },
            long_break_interval: match long_break_interval {
                Some(v) => v,
                None => default_long_break_interval(),
            },
            daily_session_goal: match daily_session_goal {
                Some(v) => v,
                None => default_daily_session_goal(),
            },
        }
    }

    pub open spec fn spec_work_duration(&self) -> u32 {
        (clamped(self.work_duration, 1, 120) * 60 * 1000) as u32
    }

    pub open spec fn spec_break_duration(&self) -> u32 {
        (clamped(self.break_duration, 1, 60) * 60 * 1000) as u32
    }

    pub open spec fn spec_long_break_duration(&self) -> u32 {
        (clamped(self.long_break_duration, 1, 60) * 60 * 1000) as u32
    }

    pub fn show_millis(&self) -> (res: bool)
        ensures
            res == self.show_millis,
    {
        self.show_millis
    }

    /// Work duration in ms, clamped to 1–120 min.
    pub fn work_duration(&self) -> (res: u32)
        ensures
            res == self.spec_work_duration(),
            60_000 <= res <= 7_200_000,
    {
        clamp(self.work_duration, 1, 120) * 60 * 1000
    }

    /// Short break duration in ms, clamped to 1–60 min.
    pub fn break_duration(&self) -> (res: u32)
        ensures
            res == self.spec_break_duration(),
            60_000 <= res <= 3_600_000,
    {
        clamp(self.break_duration, 1, 60) * 60 * 1000
    }

    /// Long break duration in ms, clamped to 1–60 min.
    pub fn long_break_duration(&self) -> (res: u32)
        ensures
            res == self.spec_long_break_duration(),
            60_000 <= res <= 3_600_000,
    {
        clamp(self.long_break_duration, 1, 60) * 60 * 1000
    }

    /// Work sessions between long breaks, clamped to 1–10.
    pub fn long_break_interval(&self) -> (res: u32)
        ensures
            res == clamped(self.long_break_interval, 1, 10),
    {
        clamp(self.long_break_interval, 1, 10)
    }

    /// Daily session goal, clamped to 1–24.
    pub fn daily_session_goal(&self) -> (res: u32)
        ensures
            res == clamped(self.daily_session_goal, 1, 24),
    {
        clamp(self.daily_session_goal, 1, 24)
    }

    /// Tick interval in ms: 10 when showing millis, 1000 otherwise.
    pub fn tick_interval(show_millis: bool) -> (res: u32)
        ensures
            res == (if show_millis { 10u32 } else { 1000u32 }),
    {
        if show_millis {
            10
        } else {
            1000
        }
    }
}

} // verus!
