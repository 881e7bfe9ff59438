//! The job-dispatch core of a parallel command runner: input lines become
//! numbered jobs, a work queue hands each job out exactly once, a fixed pool
//! of workers drains the queue, and each job's command is produced by pure
//! template expansion and classified after it ran. The queue and pool here
//! are the model that makes every decision; the execution contexts that
//! drive them concurrently, and all I/O, live outside this crate.

pub mod args;
pub mod command;
pub mod job;
pub mod naming;
pub mod pool;
pub mod queue;
pub mod template;
pub mod text;
pub mod utils;
