//! Live code reloading for a game whose logic is rebuilt and swapped in
//! while it runs: how to rebuild it, when a burst of source changes turns
//! into one rebuild, how one reload attempt proceeds, and the history of
//! dispatch tables that readers call through.

pub mod color;
pub mod coordinator;
pub mod derive;
pub mod game;
pub mod history;
pub mod input;
pub mod laws;
pub mod plan;
pub mod watch;
