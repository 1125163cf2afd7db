//! Scheduling of user commands at a given moment: the job records that a
//! client sends to the daemon, the daemon's queue of pending jobs ordered by
//! their start time, and the texts and paths that both sides share.

pub mod client;
pub mod clock;
pub mod daemon_error;
pub mod error;
pub mod job;
mod order;
pub mod paths;
pub mod text;
pub mod scheduler;
