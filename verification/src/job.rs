//! Interfaces for scheduled jobs, which users of the library implement.

use vstd::prelude::*;

use crate::errors::WithBacktrace;

verus! {

/// Work that can be run.
pub trait Job {
    fn run(&self) -> Result<(), WithBacktrace>;
}

/// When a job runs next: the next time after `now`.
pub trait Trigger {
    fn next(self, now: i64) -> Result<i64, WithBacktrace>;
}

/// Keeps jobs and runs them as their triggers say.
pub trait Scheduler {
    fn start() -> Result<(), WithBacktrace>;

    fn schedule<J: Job, T: Trigger>(&self, job: J, trigger: T) -> Result<(), WithBacktrace>;

    fn get_keys(&self) -> Vec<String>;

    fn get_job(&self, key: &str) -> Option<()>;

    fn delete(&self, key: &str) -> Result<(), WithBacktrace>;

    fn has(&self, key: &str) -> bool;
}

} // verus!
