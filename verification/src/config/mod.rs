pub mod sync;
pub mod timer;

use vstd::prelude::*;

use crate::config::sync::{spec_default_file_name, spec_default_repo_name, SyncConfig};
use crate::config::timer::TimerConfig;

verus! {

/// Top-level application configuration, as read from `~/.config/orivo/config.toml`.
#[derive(Debug)]
pub struct Config {
    pub show_fps: bool,
    pub timer: TimerConfig,
    pub sync: SyncConfig,
}

impl Default for Config {
    fn default() -> (res: Self)
        ensures
            !res.show_fps,
            res.timer.is_default(),
            res.sync.repo_name@ == spec_default_repo_name(),
            res.sync.file_name@ == spec_default_file_name(),
    {
        Config { show_fps: false, timer: TimerConfig::default(), sync: SyncConfig::default() }
    }
}

impl Config {
    /// Builds the config from the top-level `show_fps` entry (false when missing) and the
    /// `[timer]` and `[sync]` sections.
    pub fn from_parts(show_fps: Option<bool>, timer: TimerConfig, sync: SyncConfig) -> (res: Self)
        ensures
            res.show_fps == show_fps.unwrap_or(false),
            res.timer == timer,
            res.sync == sync,
    {
        let show_fps = match show_fps {
            Some(v) => v,
            None => false,
        };
        Config { show_fps, timer, sync }
    }
}

} // verus!
