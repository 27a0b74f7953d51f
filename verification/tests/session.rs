use orivo::kinds::phase::Phase;
use orivo::models::session::{Model, Session, Stat};
use orivo::utils::date::{now_text, MAX_TIMESTAMP, MIN_TIMESTAMP};

fn session(phase: Phase, secs: u32) -> Session {
    Session::new_at(&phase, secs * 1000 + 999, 100, Some(7), 200)
}

#[test]
fn new_sessions_end_now() {
    let s = Session::new_at(&Phase::Break, 300_999, 1_000, None, 1_300);
    assert_eq!(s.id, None);
    assert_eq!(s.duration_secs, 300);
    assert_eq!(s.started_at, 1_000);
    assert_eq!((s.ended_at, s.created_at, s.updated_at), (1_300, 1_300, 1_300));
    let live = Session::new(&Phase::Work, 1_500, 0, Some(1));
    assert_eq!(live.duration_secs, 1);
    assert_eq!(live.ended_at, live.created_at);
    assert!(live.ended_at >= 1_600_000_000);
}

#[test]
fn stat_counts_work_sessions_only() {
    let sessions = vec![
        session(Phase::Work, 1500),
        session(Phase::Break, 300),
        session(Phase::Work, 1200),
        session(Phase::LongBreak, 900),
    ];
    assert_eq!(Session::stat(&sessions), Stat::new(2, 2700));
    assert_eq!(Session::stat(&[]), Stat::new(0, 0));
}

#[test]
fn rows_round_trip() {
    let mut s = Session::new_at(&Phase::LongBreak, 900_000, 1_714_557_600, Some(3), 1_714_558_500);
    s.id = Some(12);
    let row = s.to_model(1_714_600_000).unwrap();
    assert_eq!(row.id, Some(12));
    assert_eq!(row.phase, "long_break");
    assert_eq!(row.duration_secs, 900);
    assert_eq!(row.started_at, "2024-05-01 10:00:00");
    assert_eq!(row.updated_at, "2024-05-01 21:46:40");
    let model = Model {
        id: 12,
        phase: row.phase,
        duration_secs: row.duration_secs,
        started_at: row.started_at,
        ended_at: row.ended_at,
        todo_id: row.todo_id,
        created_at: row.created_at,
        updated_at: row.updated_at,
    };
    let back = Session::from_model(model, 0);
    assert_eq!(back, Session { updated_at: 1_714_600_000, ..s });
}

#[test]
fn unreadable_rows_fall_back() {
    let model = Model {
        id: 1,
        phase: "nap".to_string(),
        duration_secs: -5,
        started_at: "yesterday".to_string(),
        ended_at: "1970-01-01 00:00:10".to_string(),
        todo_id: None,
        created_at: String::new(),
        updated_at: "2024-13-01 00:00:00".to_string(),
    };
    let s = Session::from_model(model, 99);
    assert_eq!(s.id, Some(1));
    assert_eq!(s.phase, Phase::Work);
    assert_eq!(s.duration_secs, 0);
    assert_eq!(s.started_at, 99);
    assert_eq!(s.ended_at, 10);
    assert_eq!(s.created_at, 99);
    assert_eq!(s.updated_at, 99);
}

fn row_of(s: &Session, now: i64) -> Option<Model> {
    s.to_model(now).map(|row| Model {
        id: row.id.unwrap_or(0),
        phase: row.phase,
        duration_secs: row.duration_secs,
        started_at: row.started_at,
        ended_at: row.ended_at,
        todo_id: row.todo_id,
        created_at: row.created_at,
        updated_at: row.updated_at,
    })
}

#[test]
fn timestamps_are_written_and_read_back() {
    let mut s = Session::new_at(&Phase::Work, 0, 0, None, 951_827_405);
    s.id = Some(1);
    let row = row_of(&s, 0).unwrap();
    assert_eq!(row.started_at, "1970-01-01 00:00:00");
    assert_eq!(row.ended_at, "2000-02-29 12:30:05");
    assert_eq!(row.updated_at, "1970-01-01 00:00:00");
    for ts in [MIN_TIMESTAMP, -62_198_755_200, -62_167_219_200, -1, 0, 1_700_000_000, MAX_TIMESTAMP] {
        let mut s = Session::new_at(&Phase::Work, 1000, ts, None, ts);
        s.id = Some(5);
        let back = Session::from_model(row_of(&s, ts).unwrap(), 42);
        assert_eq!(back, s);
    }
    let late = Session::new_at(&Phase::Work, 0, MAX_TIMESTAMP + 1, None, 0);
    assert!(late.to_model(0).is_none());
    let text = now_text().unwrap();
    assert_eq!(text.len(), "2024-05-01 10:00:00".len());
    let live = Session::new(&Phase::Work, 0, 0, None);
    assert!((MIN_TIMESTAMP..=MAX_TIMESTAMP).contains(&live.ended_at));
}

#[test]
fn timestamp_range_matches_the_date_library() {
    assert_eq!(
        time::OffsetDateTime::new_utc(time::Date::MIN, time::Time::MIDNIGHT).unix_timestamp(),
        MIN_TIMESTAMP
    );
    assert_eq!(
        time::OffsetDateTime::new_utc(time::Date::MAX, time::Time::MAX).unix_timestamp(),
        MAX_TIMESTAMP
    );
}
