//! Verified core of orivo, a terminal pomodoro timer and todo list that keeps
//! its database in sync with a private GitHub repository.

pub mod cmds;
pub mod config;
pub mod domains;
pub mod kinds;
pub mod models;
pub mod utils;
pub mod widgets;
