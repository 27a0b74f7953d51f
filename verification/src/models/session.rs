use vstd::prelude::*;

use crate::kinds::phase::{phase_db_name, phase_from_db_name, Phase};
use crate::utils::date::{
    datetime_from_text, datetime_text, format_datetime, now_timestamp, parse_datetime,
    valid_timestamp, DATETIME_LAYOUT,
};

verus! {

/// Aggregated work session statistics for a single todo.
#[derive(Clone, Copy, Debug, PartialEq, Eq, Structural)]
pub struct Stat {
    pub completed_sessions: u32,
    /// Total time spent in seconds across all completed work sessions.
    pub completed_secs: u32,
}

impl Stat {
    pub fn new(completed_sessions: u32, completed_secs: u32) -> (res: Self)
        ensures
            res.completed_sessions == completed_sessions,
            res.completed_secs == completed_secs,
    {
        Stat { completed_sessions, completed_secs }
    }
}

/// A recorded pomodoro session. Instants are unix timestamps (seconds, UTC).
#[derive(Clone, Copy, Debug, PartialEq, Eq, Structural)]
pub struct Session {
    /// Database primary key, `None` before the record is saved.
    pub id: Option<i32>,
    pub phase: Phase,
    /// Duration of the session in seconds.
    pub duration_secs: u32,
    /// When the session started.
    pub started_at: i64,
    /// When the session ended.
    pub ended_at: i64,
    pub todo_id: Option<i32>,
    pub created_at: i64,
    pub updated_at: i64,
}

/// The row of the `sessions` table, with instants stored as `YYYY-MM-DD HH:MM:SS` text (`DATETIME_LAYOUT`).
#[derive(Debug, PartialEq, Eq)]
pub struct Model {
    pub id: i32,
    pub phase: String,
    pub duration_secs: i32,
    pub started_at: String,
    pub ended_at: String,
    pub todo_id: Option<i32>,
    pub created_at: String,
    pub updated_at: String,
}

/// The row as the database holds it, without the auto-assigned key of an unsaved session.
pub struct NewModel {
    /// The key to update, or `None` to let the database assign one.
    pub id: Option<i32>,
    pub phase: String,
    pub duration_secs: i32,
    pub started_at: String,
    pub ended_at: String,
    pub todo_id: Option<i32>,
    pub created_at: String,
    pub updated_at: String,
}

/// A freshly finished session: it ends, and is created and updated, at `now`.
pub open spec fn fresh_session(
    phase: Phase,
    duration_millis: u32,
    started_at: i64,
    todo_id: Option<i32>,
    now: i64,
) -> Session {
    Session {
        id: None,
        phase,
        duration_secs: duration_millis / 1000,
        started_at,
        ended_at: now,
        todo_id,
        created_at: now,
        updated_at: now,
    }
}

/// An instant read from stored text, or `now` when the text does not read as one.
pub open spec fn instant_or(text: Seq<char>, now: i64) -> i64 {
    match datetime_from_text(DATETIME_LAYOUT@, text) {
        Some(t) => t as i64,
        None => now,
    }
}

/// The session a stored row reads as, at time `now`: an unknown phase reads as work, a
/// negative duration as 0, an unreadable instant as `now`.
pub open spec fn session_of_row(
    id: i32,
    phase: Seq<char>,
    duration_secs: i32,
    started_at: Seq<char>,
    ended_at: Seq<char>,
    todo_id: Option<i32>,
    created_at: Seq<char>,
    updated_at: Seq<char>,
    now: i64,
) -> Session {
    Session {
        id: Some(id),
        phase: match phase_from_db_name(phase) {
            Some(p) => p,
            None => Phase::Work,
        },
        duration_secs: if duration_secs < 0 {
            0
        } else {
            duration_secs as u32
        },
        started_at: instant_or(started_at, now),
        ended_at: instant_or(ended_at, now),
        todo_id,
        created_at: instant_or(created_at, now),
        updated_at: instant_or(updated_at, now),
    }
}

pub open spec fn session_of_model(m: Model, now: i64) -> Session {
    session_of_row(
        m.id,
        m.phase@,
        m.duration_secs,
        m.started_at@,
        m.ended_at@,
        m.todo_id,
        m.created_at@,
        m.updated_at@,
        now,
    )
}

/// The work sessions among `sessions`.
pub open spec fn work_sessions(sessions: Seq<Session>) -> Seq<Session> {
    sessions.filter(|s: Session| s.phase == Phase::Work)
}

/// Total seconds of `sessions`.
pub open spec fn total_secs(sessions: Seq<Session>) -> int
    decreases sessions.len(),
{
    if sessions.len() == 0 {
        0
    } else {
        total_secs(sessions.drop_last()) + sessions.last().duration_secs
    }
}

fn read_instant(text: &String, now: i64) -> (res: i64)
    ensures
        res == instant_or(text@, now),
{
    match parse_datetime(DATETIME_LAYOUT, text.as_str()) {
        Some(t) => t,
        None => now,
    }
}

impl Session {
    /// A session that has just finished, after running `duration_millis` since `started_at`.
    pub fn new(phase: &Phase, duration_millis: u32, started_at: i64, todo_id: Option<i32>) -> (res:
        Self)
        ensures
            res == fresh_session(*phase, duration_millis, started_at, todo_id, res.ended_at),
            valid_timestamp(res.ended_at as int),
    {
        let now = now_timestamp();
        Self::new_at(phase, duration_millis, started_at, todo_id, now)
    }

    /// A session that finished at `now`, after running `duration_millis` since `started_at`.
    pub fn new_at(
        phase: &Phase,
        duration_millis: u32,
        started_at: i64,
        todo_id: Option<i32>,
        now: i64,
    ) -> (res: Self)
        ensures
            res == fresh_session(*phase, duration_millis, started_at, todo_id, now),
    {
        Session {
            id: None,
            phase: *phase,
            duration_secs: duration_millis / 1000,
            started_at,
            ended_at: now,
            todo_id,
            created_at: now,
            updated_at: now,
        }
    }

    /// Aggregated work session stats over the sessions of one todo.
    pub fn stat(sessions: &[Session]) -> (res: Stat)
        requires
            total_secs(work_sessions(sessions@)) <= u32::MAX,
            sessions@.len() <= u32::MAX,
        ensures
            res.completed_sessions == work_sessions(sessions@).len(),
            res.completed_secs == total_secs(work_sessions(sessions@)),
    {
        let mut count: u32 = 0;
        let mut secs: u32 = 0;
        let mut i: usize = 0;
        while i < sessions.len()
            invariant
                i <= sessions@.len(),
                sessions@.len() <= u32::MAX,
                total_secs(work_sessions(sessions@)) <= u32::MAX,
                count == work_sessions(sessions@.take(i as int)).len(),
                secs == total_secs(work_sessions(sessions@.take(i as int))),
            decreases sessions.len() - i,
        {
            let ghost before = sessions@.take(i as int);
            let ghost after = sessions@.take(i + 1);
            proof {
                assert(after.drop_last() =~= before);
                lemma_work_sessions_push(before, sessions@[i as int]);
                assert(after =~= before.push(sessions@[i as int]));
                lemma_work_sessions_prefix_bounded(sessions@, i as int + 1);
            }
            if sessions[i].phase == Phase::Work {
                count = count + 1;
                secs = secs + sessions[i].duration_secs;
            }
            i = i + 1;
        }
        assert(sessions@.take(sessions@.len() as int) =~= sessions@);
        Stat::new(count, secs)
    }

    /// The row to write for this session, stamped as updated at `now`; `None` only when an
    /// instant lies outside the range the date library represents, so it cannot be written
    /// as text. Reading the row back gives this session again (updated at `now`) when it has
    /// a key and its duration fits the column.
    pub fn to_model(&self, now: i64) -> (res: Option<NewModel>)
        ensures
            valid_timestamp(self.started_at as int) && valid_timestamp(self.ended_at as int)
                && valid_timestamp(self.created_at as int) && valid_timestamp(now as int)
                ==> res is Some,
            res matches Some(m) ==> {
                &&& m.id == self.id
                &&& m.phase@ == phase_db_name(self.phase)
                &&& m.duration_secs == self.duration_secs as i32
                &&& m.started_at@ == datetime_text(DATETIME_LAYOUT@, self.started_at as int)
                &&& m.ended_at@ == datetime_text(DATETIME_LAYOUT@, self.ended_at as int)
                &&& m.todo_id == self.todo_id
                &&& m.created_at@ == datetime_text(DATETIME_LAYOUT@, self.created_at as int)
                &&& m.updated_at@ == datetime_text(DATETIME_LAYOUT@, now as int)
                &&& forall|later: i64|
                    self.id is Some && self.duration_secs <= i32::MAX ==> #[trigger]
                    session_of_row(
                        self.id->0,
                        m.phase@,
                        m.duration_secs,
                        m.started_at@,
                        m.ended_at@,
                        m.todo_id,
                        m.created_at@,
                        m.updated_at@,
                        later,
                    ) == Session { updated_at: now, ..*self }
            },
    {
        let started_at = format_datetime(DATETIME_LAYOUT, self.started_at)?;
        let ended_at = format_datetime(DATETIME_LAYOUT, self.ended_at)?;
        let created_at = format_datetime(DATETIME_LAYOUT, self.created_at)?;
        let updated_at = format_datetime(DATETIME_LAYOUT, now)?;
        let phase = self.phase.to_db_str().to_owned();
        proof {
            crate::kinds::phase::lemma_db_name_round_trip(self.phase, phase@);
        }
        Some(
            NewModel {
                id: self.id,
                phase,
                duration_secs: self.duration_secs as i32,
                started_at,
                ended_at,
                todo_id: self.todo_id,
                created_at,
                updated_at,
            },
        )
    }

    /// The session a stored row reads as, with `now` standing in for unreadable instants.
    pub fn from_model(m: Model, now: i64) -> (res: Self)
        ensures
            res == session_of_model(m, now),
    {
        let phase = match Phase::from_db_str(m.phase.as_str()) {
            Some(p) => p,
            None => Phase::Work,
        };
        let duration_secs: u32 = if m.duration_secs < 0 {
            0
        } else {
            m.duration_secs as u32
        };
        Session {
            id: Some(m.id),
            phase,
            duration_secs,
            started_at: read_instant(&m.started_at, now),
            ended_at: read_instant(&m.ended_at, now),
            todo_id: m.todo_id,
            created_at: read_instant(&m.created_at, now),
            updated_at: read_instant(&m.updated_at, now),
        }
    }
}

proof fn lemma_work_sessions_push(s: Seq<Session>, x: Session)
    ensures
        work_sessions(s.push(x)) == (if x.phase == Phase::Work {
            work_sessions(s).push(x)
        } else {
            work_sessions(s)
        }),
        total_secs(work_sessions(s.push(x))) == total_secs(work_sessions(s)) + (if x.phase
            == Phase::Work {
            x.duration_secs as int
        } else {
            0
        }),
{
    reveal_with_fuel(Seq::filter, 1);
    assert(s.push(x).drop_last() =~= s);
    if x.phase == Phase::Work {
        assert(work_sessions(s).push(x).drop_last() =~= work_sessions(s));
    }
}

/// The work seconds of a prefix never exceed those of the whole list.
proof fn lemma_work_sessions_prefix_bounded(s: Seq<Session>, k: int)
    requires
        0 <= k <= s.len(),
    ensures
        total_secs(work_sessions(s.take(k))) <= total_secs(work_sessions(s)),
    decreases s.len() - k,
{
    if k < s.len() {
        lemma_work_sessions_prefix_bounded(s, k + 1);
        lemma_work_sessions_push(s.take(k), s[k]);
        assert(s.take(k + 1) =~= s.take(k).push(s[k]));
    } else {
        assert(s.take(k) =~= s);
    }
}

} // verus!
