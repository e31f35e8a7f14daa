//! Weekly access schedules: resolving recurring open periods into local
//! time windows, and the lock-state machine that a periodic tick drives.

pub mod config;
pub mod os;
pub mod runloop;
pub mod schedule;
pub mod text;
