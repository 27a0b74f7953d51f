use orivo::cmds::sync::Sync;
use orivo::config::timer::TimerConfig;
use orivo::kinds::color::Color;
use orivo::kinds::phase::Phase;

#[test]
fn phase_labels_and_colors() {
    assert_eq!(Phase::Work.label(), "Work Session");
    assert_eq!(Phase::Break.label(), "Short Break");
    assert_eq!(Phase::LongBreak.label(), "Long Break");
    assert_eq!(Phase::Work.color(), Color::Red);
    assert_eq!(Phase::Break.color(), Color::Green);
    assert_eq!(Phase::LongBreak.color(), Color::Cyan);
}

#[test]
fn phase_db_names_round_trip() {
    for p in [Phase::Work, Phase::Break, Phase::LongBreak] {
        assert_eq!(Phase::from_db_str(p.to_db_str()), Some(p));
    }
    assert_eq!(Phase::LongBreak.to_db_str(), "long_break");
    assert_eq!(Phase::from_db_str("Work"), None);
    assert_eq!(Phase::from_db_str(""), None);
    assert_eq!(Phase::from_db_str("long break"), None);
}

#[test]
fn phase_durations_come_from_the_config() {
    let config = TimerConfig::from_entries(None, Some(50), Some(10), Some(30), None, None);
    assert_eq!(Phase::Work.duration(&config), 50 * 60_000);
    assert_eq!(Phase::Break.duration(&config), 10 * 60_000);
    assert_eq!(Phase::LongBreak.duration(&config), 30 * 60_000);
}

#[test]
fn sync_command_help() {
    let _cmd = Sync::new();
    assert_eq!(Sync::help(), &["sync", "Sync your data with GitHub (pulls and/or pushes as needed)"]);
}
