//! A personal task tracker: a store of short textual tasks with due dates,
//! the rule that decides when a task is overdue, and the rendering of the
//! task list for a terminal.
//!
//! - `task`: the task record.
//! - `store`: the record set with its operations, and what holds of them.
//! - `date`: calendar days, read with chrono, and the expiry rule.
//! - `render`: the line and style of each task, coloured with console.
//! - `command`: the commands of the command line and what each one does.
//! - `notification`: what is announced on the desktop after a change.
//! - `sync`: the call of the external copy tool and the meaning of its
//!   outcome.
//! - `error`: the failures and their messages.
//! - `text`: helpers on text.
//!
//! The library keeps no file and starts no process: reading and writing the
//! stored records, delivering notifications and running the copy tool are
//! left to the program around it.

pub mod error;
pub mod date;
pub mod text;
pub mod task;
pub mod render;
pub mod store;
pub mod notification;
pub mod sync;
pub mod command;
