//! A personal task list: tasks, the stored collection, and the commands
//! that work on it.

pub mod clock;
pub mod commands;
pub mod identity;
pub mod storage;
pub mod task;
