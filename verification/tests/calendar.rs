use orivo::kinds::key::{KeyCode, KeyEvent};
use orivo::utils::date::{MAX_JULIAN_DAY, MIN_JULIAN_DAY};
use orivo::widgets::todos::calendar::{
    shift_month, CalendarAction, CalendarProps, CalendarState, CalendarWidget,
};

fn day(y: i32, m: u8, d: u8) -> i32 {
    time::Date::from_calendar_date(y, time::Month::try_from(m).unwrap(), d).unwrap().to_julian_day()
}

fn state_at(y: i32, m: u8, d: u8) -> CalendarState {
    CalendarState::new(CalendarProps::new(Some(day(y, m, d))))
}

fn at(state: &mut CalendarState, code: KeyCode) -> CalendarAction {
    state.handle(KeyEvent::new(code))
}

#[test]
fn julian_day_range_matches_the_date_library() {
    assert_eq!(time::Date::MIN.to_julian_day(), MIN_JULIAN_DAY);
    assert_eq!(time::Date::MAX.to_julian_day(), MAX_JULIAN_DAY);
    assert_eq!(day(2000, 1, 1), 2_451_545);
}

#[test]
fn moves_by_days_and_weeks() {
    let mut s = state_at(2024, 3, 1);
    assert!(matches!(at(&mut s, KeyCode::Char('h')), CalendarAction::Nothing));
    assert_eq!(s.props().date(), day(2024, 2, 29));
    at(&mut s, KeyCode::Right);
    assert_eq!(s.props().date(), day(2024, 3, 1));
    at(&mut s, KeyCode::Char('j'));
    assert_eq!(s.props().date(), day(2024, 3, 8));
    at(&mut s, KeyCode::Up);
    at(&mut s, KeyCode::Char('k'));
    assert_eq!(s.props().date(), day(2024, 2, 23));
    at(&mut s, KeyCode::Char('l'));
    assert_eq!(s.props().date(), day(2024, 2, 24));
    at(&mut s, KeyCode::Down);
    assert_eq!(s.props().date(), day(2024, 3, 2));
}

#[test]
fn stops_at_the_edges_of_the_calendar() {
    let mut s = CalendarState::new(CalendarProps::new(Some(MAX_JULIAN_DAY)));
    at(&mut s, KeyCode::Char('l'));
    assert_eq!(s.props().date(), MAX_JULIAN_DAY);
    at(&mut s, KeyCode::Char('j'));
    assert_eq!(s.props().date(), MAX_JULIAN_DAY);
    at(&mut s, KeyCode::Char('L'));
    assert_eq!(s.props().date(), MAX_JULIAN_DAY);
    let mut s = CalendarState::new(CalendarProps::new(Some(MIN_JULIAN_DAY)));
    at(&mut s, KeyCode::Left);
    at(&mut s, KeyCode::Char('k'));
    at(&mut s, KeyCode::Char('H'));
    assert_eq!(s.props().date(), MIN_JULIAN_DAY);
}

#[test]
fn moves_by_months_keeping_the_day_where_it_can() {
    assert_eq!(shift_month(day(2024, 1, 31), 1), day(2024, 2, 29));
    assert_eq!(shift_month(day(2023, 1, 31), 1), day(2023, 2, 28));
    assert_eq!(shift_month(day(2024, 3, 31), -1), day(2024, 2, 29));
    assert_eq!(shift_month(day(2024, 12, 15), 1), day(2025, 1, 15));
    assert_eq!(shift_month(day(2024, 1, 15), -1), day(2023, 12, 15));
    assert_eq!(shift_month(day(2024, 5, 31), 1), day(2024, 6, 30));
    assert_eq!(shift_month(day(-1, 1, 10), -1), day(-2, 12, 10));
    assert_eq!(shift_month(day(2024, 1, 10), 25), day(2026, 2, 10));
    assert_eq!(shift_month(day(2024, 1, 10), -25), day(2021, 12, 10));
    let mut s = state_at(2024, 1, 31);
    at(&mut s, KeyCode::Char('L'));
    assert_eq!(s.props().date(), day(2024, 2, 29));
    at(&mut s, KeyCode::Char('H'));
    assert_eq!(s.props().date(), day(2024, 1, 29));
}

#[test]
fn today_keys_and_actions() {
    let t = CalendarProps::new(None).date();
    let mut s = state_at(2000, 6, 15);
    at(&mut s, KeyCode::Char('t'));
    let now = s.props().date();
    assert!(now == t || now == t + 1);
    at(&mut s, KeyCode::Char('y'));
    assert_eq!(s.props().date(), now - 1);
    at(&mut s, KeyCode::Char('n'));
    assert!(s.props().date() == now + 1 || s.props().date() == now + 2);
    let mut s = state_at(2000, 6, 15);
    assert!(matches!(at(&mut s, KeyCode::Char('x')), CalendarAction::Confirm(None)));
    match at(&mut s, KeyCode::Enter) {
        CalendarAction::Confirm(Some(d)) => assert_eq!(d, day(2000, 6, 15)),
        _ => panic!("expected a confirmed date"),
    }
    assert!(matches!(at(&mut s, KeyCode::Esc), CalendarAction::Cancel));
    assert!(matches!(at(&mut s, KeyCode::Char('q')), CalendarAction::Nothing));
    assert_eq!(s.props().date(), day(2000, 6, 15));
    let widget = CalendarWidget::new(s.props());
    assert_eq!(widget.props().date(), day(2000, 6, 15));
    let fresh = CalendarProps::new(None);
    assert!(fresh.date() >= t);
}

#[test]
fn handle_at_uses_the_given_today() {
    let mut s = state_at(2000, 6, 15);
    s.handle_at(KeyEvent::new(KeyCode::Char('y')), day(2024, 3, 1));
    assert_eq!(s.props().date(), day(2024, 2, 29));
    s.handle_at(KeyEvent::new(KeyCode::Char('n')), day(2024, 2, 28));
    assert_eq!(s.props().date(), day(2024, 2, 29));
    s.handle_at(KeyEvent::new(KeyCode::Char('t')), day(1999, 12, 31));
    assert_eq!(s.props().date(), day(1999, 12, 31));
}
