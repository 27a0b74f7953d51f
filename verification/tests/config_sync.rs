use orivo::config::sync::{default_file_name, default_repo_name, is_safe_segment, SyncConfig};
use orivo::config::timer::TimerConfig;
use orivo::config::Config;

#[test]
fn accepts_the_defaults() {
    assert!(is_safe_segment("Notes"));
    assert!(is_safe_segment("orivo.sqlite.gz"));
}

#[test]
fn rejects_path_traversal() {
    assert!(!is_safe_segment("../../../.bashrc"));
    assert!(!is_safe_segment(".."));
    assert!(!is_safe_segment("."));
    assert!(!is_safe_segment("a/b"));
}

#[test]
fn rejects_values_gh_and_git_would_read_as_flags() {
    assert!(!is_safe_segment("--upload-pack=touch /tmp/pwn"));
    assert!(!is_safe_segment("-c core.sshCommand=id"));
    assert!(!is_safe_segment("-x"));
}

#[test]
fn rejects_empty_overlong_and_shell_metacharacters() {
    assert!(!is_safe_segment(""));
    assert!(!is_safe_segment(&"a".repeat(101)));
    assert!(!is_safe_segment("x;id"));
    assert!(!is_safe_segment("x$(id)"));
    assert!(!is_safe_segment("x y"));
}

#[test]
fn unsafe_values_fall_back_to_the_defaults() {
    let config = SyncConfig {
        repo_name: "../../evil".to_string(),
        file_name: "--upload-pack=id".to_string(),
    };
    assert_eq!(config.repo_name(), default_repo_name());
    assert_eq!(config.file_name(), "orivo.sqlite.gz");
}

#[test]
fn rejected_names_are_reported() {
    let config = SyncConfig { repo_name: "../../evil".to_string(), file_name: "db.gz".to_string() };
    assert!(config.repo_name_rejected());
    assert!(!config.file_name_rejected());
}

#[test]
fn accepts_names_up_to_a_hundred_characters() {
    assert!(is_safe_segment(&"a".repeat(100)));
    assert!(is_safe_segment("..."));
    assert!(is_safe_segment("a-b_c.d9"));
    assert!(is_safe_segment("x-"));
}

#[test]
fn rejects_non_ascii_names() {
    assert!(!is_safe_segment("notés"));
    assert!(!is_safe_segment("é"));
}

#[test]
fn safe_values_are_kept() {
    let config = SyncConfig { repo_name: "my-data".to_string(), file_name: "db.gz".to_string() };
    assert_eq!(config.repo_name(), "my-data");
    assert_eq!(config.file_name(), "db.gz");
}

#[test]
fn sync_config_defaults() {
    let config = SyncConfig::default();
    assert_eq!(config.repo_name, "orivo-data");
    assert_eq!(config.repo_name(), "orivo-data");
    assert!(is_safe_segment("orivo-data"));
    assert_eq!(config.file_name, "orivo.sqlite.gz");
    assert_eq!(default_file_name(), "orivo.sqlite.gz");
    let partial = SyncConfig::from_entries(Some("other".to_string()), None);
    assert_eq!(partial.repo_name(), "other");
    assert_eq!(partial.file_name(), "orivo.sqlite.gz");
}

#[test]
fn timer_durations_are_clamped_to_milliseconds() {
    let config = TimerConfig::default();
    assert_eq!(config.work_duration(), 25 * 60 * 1000);
    assert_eq!(config.break_duration(), 5 * 60 * 1000);
    assert_eq!(config.long_break_duration(), 15 * 60 * 1000);
    assert_eq!(config.long_break_interval(), 4);
    assert_eq!(config.daily_session_goal(), 16);
    assert!(!config.show_millis());

    let low = TimerConfig::from_entries(Some(true), Some(0), Some(0), Some(0), Some(0), Some(0));
    assert_eq!(low.work_duration(), 60_000);
    assert_eq!(low.break_duration(), 60_000);
    assert_eq!(low.long_break_duration(), 60_000);
    assert_eq!(low.long_break_interval(), 1);
    assert_eq!(low.daily_session_goal(), 1);
    assert!(low.show_millis());

    let high = TimerConfig::from_entries(None, Some(500), Some(61), Some(u32::MAX), Some(11), Some(25));
    assert_eq!(high.work_duration(), 120 * 60_000);
    assert_eq!(high.break_duration(), 60 * 60_000);
    assert_eq!(high.long_break_duration(), 60 * 60_000);
    assert_eq!(high.long_break_interval(), 10);
    assert_eq!(high.daily_session_goal(), 24);
    assert!(!high.show_millis());
}

#[test]
fn tick_interval_follows_show_millis() {
    assert_eq!(TimerConfig::tick_interval(true), 10);
    assert_eq!(TimerConfig::tick_interval(false), 1000);
}

#[test]
fn config_defaults_and_parts() {
    let config = Config::default();
    assert!(!config.show_fps);
    assert_eq!(config.timer.work_duration(), 25 * 60_000);
    assert_eq!(config.sync.repo_name(), "orivo-data");
    let config = Config::from_parts(Some(true), TimerConfig::default(), SyncConfig::default());
    assert!(config.show_fps);
    let config = Config::from_parts(None, TimerConfig::default(), SyncConfig::default());
    assert!(!config.show_fps);
}
