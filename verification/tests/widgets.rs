use orivo::kinds::color::Color;
use orivo::kinds::key::{KeyCode, KeyEvent};
use orivo::models::session::Stat;
use orivo::widgets::popup::{centered_rect, Rect};
use orivo::widgets::timer::reduce_picker::{
    ReducePickerAction, ReducePickerProps, ReducePickerState, ReducePickerWidget,
};
use orivo::widgets::timer::status::{StatusProps as TimerStatusProps, StatusWidget as TimerStatusWidget};
use orivo::widgets::timer::todo_show::{TodoShowProps, TodoShowWidget};
use orivo::widgets::todos::search::{SearchAction, SearchProps, SearchState, SearchWidget};
use orivo::widgets::todos::status::{StatusProps, StatusWidget};

fn key(code: KeyCode) -> KeyEvent {
    KeyEvent::new(code)
}

fn press(state: &mut ReducePickerState, c: char) -> ReducePickerAction {
    state.handle(key(KeyCode::Char(c)))
}

#[test]
fn reduce_picker_reads_minutes_and_seconds() {
    let mut state = ReducePickerState::new(ReducePickerProps::new(Color::Red));
    assert_eq!(state.props().display(), "__:__");
    for c in ['1', '2', '3', '4'] {
        assert!(matches!(press(&mut state, c), ReducePickerAction::Nothing));
    }
    assert_eq!(state.props().digits(), &[1, 2, 3, 4]);
    assert_eq!(state.props().display(), "12:34");
    // A fifth digit is ignored.
    press(&mut state, '9');
    assert_eq!(state.props().digits(), &[1, 2, 3, 4]);
    match state.handle(key(KeyCode::Enter)) {
        ReducePickerAction::Reduce(ms) => assert_eq!(ms, (12 * 60 + 34) * 1000),
        _ => panic!("expected a reduction"),
    }
}

#[test]
fn reduce_picker_rejects_tens_of_seconds_above_five() {
    let mut state = ReducePickerState::new(ReducePickerProps::new(Color::Green));
    press(&mut state, '0');
    press(&mut state, '5');
    press(&mut state, '7');
    assert_eq!(state.props().digits(), &[0, 5]);
    press(&mut state, '5');
    assert_eq!(state.props().display(), "05:5_");
    match state.handle(key(KeyCode::Enter)) {
        ReducePickerAction::Reduce(ms) => assert_eq!(ms, 5 * 60_000 + 50_000),
        _ => panic!("expected a reduction"),
    }
}

#[test]
fn reduce_picker_backspace_enter_and_escape() {
    let mut state = ReducePickerState::new(ReducePickerProps::new(Color::Cyan));
    assert!(matches!(state.handle(key(KeyCode::Enter)), ReducePickerAction::Cancel));
    assert!(matches!(state.handle(key(KeyCode::Backspace)), ReducePickerAction::Nothing));
    press(&mut state, '3');
    assert!(matches!(press(&mut state, 'a'), ReducePickerAction::Nothing));
    assert_eq!(state.props().digits(), &[3]);
    match state.handle(key(KeyCode::Enter)) {
        ReducePickerAction::Reduce(ms) => assert_eq!(ms, 30 * 60_000),
        _ => panic!("expected a reduction"),
    }
    state.handle(key(KeyCode::Backspace));
    assert!(state.props().digits().is_empty());
    assert!(matches!(state.handle(key(KeyCode::Esc)), ReducePickerAction::Cancel));
    assert!(matches!(state.handle(key(KeyCode::Left)), ReducePickerAction::Nothing));
    assert_eq!(state.props().color(), Color::Cyan);
    let widget = ReducePickerWidget::new(state.props());
    assert_eq!(widget.props().display(), "__:__");
}

#[test]
fn reduce_picker_maximum() {
    let mut state = ReducePickerState::new(ReducePickerProps::new(Color::Red));
    for c in ['9', '9', '5', '9'] {
        press(&mut state, c);
    }
    match state.handle(key(KeyCode::Enter)) {
        ReducePickerAction::Reduce(ms) => assert_eq!(ms, 5_999_000),
        _ => panic!("expected a reduction"),
    }
}

#[test]
fn search_edits_the_query() {
    let mut state = SearchState::new("ab");
    assert_eq!(state.props().query, "ab");
    assert!(state.props().active);
    match state.handle(key(KeyCode::Char('c'))) {
        SearchAction::QueryChanged(q) => assert_eq!(q, "abc"),
        _ => panic!("expected a query change"),
    }
    match state.handle(key(KeyCode::Backspace)) {
        SearchAction::QueryChanged(q) => assert_eq!(q, "ab"),
        _ => panic!("expected a query change"),
    }
    assert!(matches!(state.handle(key(KeyCode::Enter)), SearchAction::Confirm));
    assert!(matches!(state.handle(key(KeyCode::Esc)), SearchAction::Cancel));
    assert!(matches!(state.handle(key(KeyCode::Up)), SearchAction::Nothing));
    assert_eq!(state.props().query, "ab");

    let mut empty = SearchState::new("");
    match empty.handle(key(KeyCode::Backspace)) {
        SearchAction::QueryChanged(q) => assert_eq!(q, ""),
        _ => panic!("expected a query change"),
    }
    let props = SearchProps::new("q", false);
    let widget = SearchWidget::new(&props);
    assert_eq!(widget.props().query, "q");
    assert!(!widget.props().active);
    assert_eq!(widget.line(), "/q");
    let active = SearchProps::new("todo", true);
    assert_eq!(SearchWidget::new(&active).line(), "/todo█");
}

#[test]
fn timer_status_shows_running_or_paused() {
    let running = TimerStatusProps::new(true, Color::Red);
    assert_eq!(TimerStatusWidget::new(&running).content(), ("Running", Color::Red));
    let paused = TimerStatusProps::new(false, Color::Red);
    assert_eq!(TimerStatusWidget::new(&paused).content(), ("Paused", Color::DarkGray));
}

#[test]
fn todo_show_text() {
    let stat = Stat::new(3, 125);
    let props = TodoShowProps::new(Some("Write tests"), Some(&stat), Color::Green);
    assert_eq!(TodoShowWidget::new(&props).text(), "Write tests  ·  3 sessions  ·  2 min");
    let props = TodoShowProps::new(Some("Write tests"), None, Color::Green);
    assert_eq!(TodoShowWidget::new(&props).text(), "Write tests");
    let props = TodoShowProps::new(None, Some(&stat), Color::Green);
    assert_eq!(TodoShowWidget::new(&props).text(), "No todo selected  [t] pick");
    assert_eq!(TodoShowWidget::new(&props).color(), Color::Green);
    let big = Stat::new(u32::MAX, u32::MAX);
    let props = TodoShowProps::new(Some("x"), Some(&big), Color::Red);
    assert_eq!(TodoShowWidget::new(&props).text(), format!("x  ·  {} sessions  ·  {} min", u32::MAX, u32::MAX / 60));
}

#[test]
fn todo_status_line() {
    let props = StatusProps::new(42, 10, 20, 2);
    assert_eq!(StatusWidget::new(&props).text(), "Page 2 • Range 10-20 • Showing 10/42 items");
    let props = StatusProps::new(0, 0, 0, 1);
    assert_eq!(StatusWidget::new(&props).text(), "Page 1 • Range 0-0 • Showing 0/0 items");
}

#[test]
fn popups_are_centered() {
    let area = Rect { x: 0, y: 0, width: 80, height: 24 };
    assert_eq!(centered_rect(area, 36, 7), Rect { x: 22, y: 8, width: 36, height: 7 });
    let small = Rect { x: 5, y: 3, width: 20, height: 10 };
    assert_eq!(centered_rect(small, 24, 20), Rect { x: 5, y: 3, width: 20, height: 10 });
    let odd = Rect { x: 1, y: 1, width: 11, height: 4 };
    assert_eq!(centered_rect(odd, 4, 1), Rect { x: 4, y: 2, width: 4, height: 1 });
}
