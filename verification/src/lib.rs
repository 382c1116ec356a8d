//! The decisions behind a full-screen fade overlay that runs a command:
//! when the fade counts as finished, when the command is started, and when
//! the application leaves. Nothing here draws, spawns or waits.

pub mod command;
pub mod duration;
pub mod input;
pub mod orchestrator;
pub mod process;
pub mod trace;
pub mod watcher;
