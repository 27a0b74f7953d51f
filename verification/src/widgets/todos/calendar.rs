use vstd::prelude::*;

use crate::kinds::key::{KeyCode, KeyEvent};
use crate::utils::date::{
    calendar_of_day, day_of_calendar, days_in_month, from_calendar_date, to_calendar_date,
    today, valid_calendar_date, valid_day, MAX_JULIAN_DAY, MIN_JULIAN_DAY,
};

verus! {

/// The day after `day`, unless `day` is the last date represented.
pub open spec fn next_day(day: i32) -> Option<i32> {
    if day < MAX_JULIAN_DAY {
        Some((day + 1) as i32)
    } else {
        None
    }
}

/// The day before `day`, unless `day` is the first date represented.
pub open spec fn previous_day(day: i32) -> Option<i32> {
    if day > MIN_JULIAN_DAY {
        Some((day - 1) as i32)
    } else {
        None
    }
}

/// `day` moved by `n` days, unless that leaves the dates represented.
pub open spec fn add_days(day: i32, n: int) -> Option<i32> {
    if valid_day(day + n) {
        Some((day + n) as i32)
    } else {
        None
    }
}

/// The year and month `months` months after `year`/`month`.
pub open spec fn month_after(year: int, month: int, months: int) -> (int, int) {
    let total = year * 12 + (month - 1) + months;
    (total / 12, total % 12 + 1)
}

/// `day` moved by `months` months, keeping the day of the month where the target month
/// has it and taking its last day otherwise; unchanged when the target lies outside the
/// dates represented.
pub open spec fn month_shifted(day: i32, months: int) -> i32 {
    let (y, m, d) = calendar_of_day(day as int);
    let (ny, nm) = month_after(y, m, months);
    let nd = if d <= days_in_month(ny, nm) {
        d
    } else {
        days_in_month(ny, nm)
    };
    if valid_calendar_date(ny, nm, nd) {
        day_of_calendar(ny, nm, nd) as i32
    } else {
        day
    }
}

fn days_in_month_exec(year: i64, month: i64) -> (res: u8)
    requires
        1 <= month <= 12,
        -1_000_000_000 <= year <= 1_000_000_000,
    ensures
        res as int == days_in_month(year as int, month as int),
{
    if month == 2 {
        let y = year + 1_000_000_000;
        assert(y % 4 == year % 4 && y % 100 == year % 100 && y % 400 == year % 400) by {
            assert(1_000_000_000int % 400 == 0);
        }
        if (y as u64 % 4 == 0 && y as u64 % 100 != 0) || y as u64 % 400 == 0 {
            29
        } else {
            28
        }
    } else if month == 4 || month == 6 || month == 9 || month == 11 {
        30
    } else {
        31
    }
}

/// Moves `day` by `months` months (see `month_shifted`).
pub fn shift_month(day: i32, months: i32) -> (res: i32)
    requires
        valid_day(day as int),
    ensures
        res == month_shifted(day, months as int),
        valid_day(res as int),
{
    let (y, m, d) = to_calendar_date(day);
    // Offset by a multiple of twelve months so the month count stays non-negative.
    let total: i64 = y as i64 * 12 + (m as i64 - 1) + months as i64 + 3_600_000_000;
    assert(total >= 0);
    let ny: i64 = total / 12 - 300_000_000;
    let nm: i64 = total % 12 + 1;
    assert(ny == (y * 12 + (m - 1) + months) / 12 && nm == (y * 12 + (m - 1) + months) % 12 + 1)
        by {
        let t = y * 12 + (m - 1) + months;
        assert(total == t + 300_000_000 * 12);
    }
    let dim = days_in_month_exec(ny, nm);
    let nd: u8 = if d <= dim {
        d
    } else {
        dim
    };
    if ny < i32::MIN as i64 || ny > i32::MAX as i64 {
        return day;
    }
    match from_calendar_date(ny as i32, nm as u8, nd) {
        Some(j) => j,
        None => day,
    }
}

pub enum CalendarAction {
    /// User confirmed; carries the selected date as a Julian day (None = clear date).
    Confirm(Option<i32>),
    Cancel,
    /// The key changed nothing the caller has to act on.
    Nothing,
}

pub struct CalendarProps {
    /// Currently highlighted date in the calendar, as a Julian day.
    date: i32,
}

impl CalendarProps {
    #[verifier::type_invariant]
    spec fn inv(self) -> bool {
        valid_day(self.date as int)
    }

    /// The highlighted date.
    pub closed spec fn day(&self) -> i32 {
        self.date
    }

    /// Highlights `date`, or today when there is none.
    pub fn new(date: Option<i32>) -> (res: Self)
        requires
            date matches Some(d) ==> valid_day(d as int),
        ensures
            date matches Some(d) ==> res.day() == d,
            valid_day(res.day() as int),
    {
        match date {
            Some(d) => CalendarProps { date: d },
            None => CalendarProps { date: today() },
        }
    }

    pub fn date(&self) -> (res: i32)
        ensures
            res == self.day(),
            valid_day(res as int),
    {
        proof {
            use_type_invariant(self);
        }
        self.date
    }
}

/// Where the highlight moves for a key, given today's date; `None` when it stays.
pub open spec fn target_day(date: i32, code: KeyCode, today: i32) -> Option<i32> {
    match code {
        KeyCode::Char('t') => Some(today),
        KeyCode::Char('y') => previous_day(today),
        KeyCode::Char('n') => next_day(today),
        KeyCode::Char('h') | KeyCode::Left => previous_day(date),
        KeyCode::Char('l') | KeyCode::Right => next_day(date),
        KeyCode::Char('k') | KeyCode::Up => add_days(date, -7),
        KeyCode::Char('j') | KeyCode::Down => add_days(date, 7),
        KeyCode::Char('H') => Some(month_shifted(date, -1)),
        KeyCode::Char('L') => Some(month_shifted(date, 1)),
        _ => None,
    }
}

/// The highlighted date after a key, given today's date.
pub open spec fn day_after(date: i32, code: KeyCode, today: i32) -> i32 {
    match target_day(date, code, today) {
        Some(d) => d,
        None => date,
    }
}

/// The action a key gives: `x` clears the date, Enter confirms the highlighted one, Esc
/// cancels; every other key only moves the highlight.
pub open spec fn calendar_action(date: i32, code: KeyCode) -> CalendarAction {
    match code {
        KeyCode::Char('x') => CalendarAction::Confirm(None),
        KeyCode::Enter => CalendarAction::Confirm(Some(date)),
        KeyCode::Esc => CalendarAction::Cancel,
        _ => CalendarAction::Nothing,
    }
}

/// Keys whose effect depends on today's date.
pub open spec fn reads_today(code: KeyCode) -> bool {
    code == KeyCode::Char('t') || code == KeyCode::Char('y') || code == KeyCode::Char('n')
}

pub struct CalendarState {
    props: CalendarProps,
    /// Today's date as last read from the clock by `handle`, if it has read it yet.
    clock_today: Ghost<Option<i32>>,
}

impl CalendarState {
    pub closed spec fn spec_props(&self) -> &CalendarProps {
        &self.props
    }

    /// Today's date as `handle` last read it from the clock (`None` before any read).
    pub closed spec fn last_read_today(&self) -> Option<i32> {
        self.clock_today@
    }

    pub fn new(props: CalendarProps) -> (res: Self)
        ensures
            res.spec_props() == props,
            res.last_read_today() is None,
    {
        CalendarState { props, clock_today: Ghost(None) }
    }

    pub fn props(&self) -> (res: &CalendarProps)
        ensures
            res == self.spec_props(),
    {
        &self.props
    }

    /// Applies a key, reading today's date from the clock for `t`, `y` and `n`: those keys
    /// read the clock once and move the highlight to that day, the day before it or the day
    /// after it.
    pub fn handle(&mut self, key: KeyEvent) -> (res: CalendarAction)
        ensures
            res == calendar_action(old(self).spec_props().day(), key.code),
            !reads_today(key.code) ==> final(self).spec_props().day() == day_after(
                old(self).spec_props().day(),
                key.code,
                0,
            ),
            !reads_today(key.code) ==> final(self).last_read_today() == old(self).last_read_today(),
            reads_today(key.code) ==> (final(self).last_read_today() matches Some(t) && valid_day(
                t as int,
            ) && final(self).spec_props().day() == day_after(
                old(self).spec_props().day(),
                key.code,
                t,
            )),
    {
        if key.code == KeyCode::Char('t') || key.code == KeyCode::Char('y') || key.code
            == KeyCode::Char('n') {
            let current = self.read_today();
            self.handle_at(key, current)
        } else {
            // Only `t`, `y` and `n` look at the clock; any valid date serves the other keys.
            let res = self.handle_at(key, MIN_JULIAN_DAY);
            proof {
                assert(day_after(old(self).spec_props().day(), key.code, MIN_JULIAN_DAY)
                    == day_after(old(self).spec_props().day(), key.code, 0));
            }
            res
        }
    }

    /// Reads today's date from the clock and records the reading.
    fn read_today(&mut self) -> (res: i32)
        ensures
            final(self).last_read_today() == Some(res),
            valid_day(res as int),
            final(self).spec_props() == old(self).spec_props(),
    {
        let current = today();
        self.clock_today = Ghost(Some(current));
        current
    }

    /// Applies a key, taking `today` as today's date.
    pub fn handle_at(&mut self, key: KeyEvent, today: i32) -> (res: CalendarAction)
        requires
            valid_day(today as int),
        ensures
            res == calendar_action(old(self).spec_props().day(), key.code),
            final(self).spec_props().day() == day_after(
                old(self).spec_props().day(),
                key.code,
                today,
            ),
            final(self).last_read_today() == old(self).last_read_today(),
    {
        proof {
            use_type_invariant(&self.props);
        }
        let date = self.props.date;
        match key.code {
            KeyCode::Char('x') => return CalendarAction::Confirm(None),
            KeyCode::Char('t') => self.navigate(Some(today)),
            KeyCode::Char('y') => self.navigate(step_back(today)),
            KeyCode::Char('n') => self.navigate(step_forward(today)),
            KeyCode::Char('h') | KeyCode::Left => self.navigate(step_back(date)),
            KeyCode::Char('l') | KeyCode::Right => self.navigate(step_forward(date)),
            KeyCode::Char('k') | KeyCode::Up => self.navigate(step_days(date, -7)),
            KeyCode::Char('j') | KeyCode::Down => self.navigate(step_days(date, 7)),
            KeyCode::Char('H') => self.navigate(Some(shift_month(date, -1))),
            KeyCode::Char('L') => self.navigate(Some(shift_month(date, 1))),
            KeyCode::Enter => return CalendarAction::Confirm(Some(date)),
            KeyCode::Esc => return CalendarAction::Cancel,
            _ => {},
        }
        CalendarAction::Nothing
    }

    /// Moves the highlighted date to `date`, ignoring `None` (no-date case).
    fn navigate(&mut self, date: Option<i32>)
        requires
            date matches Some(d) ==> valid_day(d as int),
        ensures
            final(self).spec_props().day() == match date {
                Some(d) => d,
                None => old(self).spec_props().day(),
            },
            final(self).last_read_today() == old(self).last_read_today(),
    {
        if let Some(date) = date {
            self.props = CalendarProps { date };
        }
    }
}

fn step_forward(day: i32) -> (res: Option<i32>)
    requires
        valid_day(day as int),
    ensures
        res == next_day(day),
        res matches Some(d) ==> valid_day(d as int),
{
    if day < MAX_JULIAN_DAY {
        Some(day + 1)
    } else {
        None
    }
}

fn step_back(day: i32) -> (res: Option<i32>)
    requires
        valid_day(day as int),
    ensures
        res == previous_day(day),
        res matches Some(d) ==> valid_day(d as int),
{
    if day > MIN_JULIAN_DAY {
        Some(day - 1)
    } else {
        None
    }
}

fn step_days(day: i32, n: i32) -> (res: Option<i32>)
    requires
        valid_day(day as int),
        -1000 <= n <= 1000,
    ensures
        res == add_days(day, n as int),
        res matches Some(d) ==> valid_day(d as int),
{
    let target = day as i64 + n as i64;
    if MIN_JULIAN_DAY as i64 <= target && target <= MAX_JULIAN_DAY as i64 {
        Some(target as i32)
    } else {
        None
    }
}

/// Moving a day forward and back again, or back and forward, returns to the same date.
pub proof fn lemma_day_steps_undo(day: i32)
    requires
        valid_day(day as int),
    ensures
        next_day(day) matches Some(n) ==> previous_day(n) == Some(day),
        previous_day(day) matches Some(p) ==> next_day(p) == Some(day),
        add_days(day, 7) matches Some(w) ==> add_days(w, -7) == Some(day),
{
}

/// With today's date `today`: `t` highlights today, `n` the day after it and `y` the day
/// before it (the highlight stays where it was when that day lies outside the dates
/// represented), whatever date was highlighted before.
pub proof fn lemma_today_keys(date: i32, today: i32)
    requires
        valid_day(today as int),
    ensures
        day_after(date, KeyCode::Char('t'), today) == today,
        today < MAX_JULIAN_DAY ==> day_after(date, KeyCode::Char('n'), today) == today + 1,
        today > MIN_JULIAN_DAY ==> day_after(date, KeyCode::Char('y'), today) == today - 1,
        today == MAX_JULIAN_DAY ==> day_after(date, KeyCode::Char('n'), today) == date,
        today == MIN_JULIAN_DAY ==> day_after(date, KeyCode::Char('y'), today) == date,
{
}

pub struct CalendarWidget<'a> {
    props: &'a CalendarProps,
}

impl<'a> CalendarWidget<'a> {
    pub closed spec fn spec_props(&self) -> &'a CalendarProps {
        self.props
    }

    pub fn new(props: &'a CalendarProps) -> (res: Self)
        ensures
            res.spec_props() == props,
    {
        CalendarWidget { props }
    }

    pub fn props(&self) -> (res: &'a CalendarProps)
        ensures
            res == self.spec_props(),
    {
        self.props
    }
}

} // verus!
