//! The application: what it starts, and in which order.

use crate::config::Config;
use vstd::prelude::*;

verus! {

/// The application.
pub struct App;

/// A part of the application that runs for the life of the process.
#[derive(Clone, Copy, Debug, PartialEq, Eq, Structural)]
pub enum Task {
    Watchdog,
    TrashMonitor,
    Listener,
}

/// The parts that start under a configuration, in order: the watchdog where it
/// is enabled, the trash monitor, and last the listener, which the
/// application then waits on.
pub open spec fn startup(watchdog_enabled: bool) -> Seq<Task> {
    if watchdog_enabled {
        seq![Task::Watchdog, Task::TrashMonitor, Task::Listener]
    } else {
        seq![Task::TrashMonitor, Task::Listener]
    }
}

impl App {
    pub fn new() -> (app: Self) {
        Self
    }

    /// The parts to start, in order.
    pub fn start(&self, config: &Config) -> (tasks: Vec<Task>)
        ensures
            tasks@ == startup(config.watchdog.enabled),
    {
        let mut tasks = Vec::new();
        if config.watchdog.enabled {
            tasks.push(Task::Watchdog);
        }
        tasks.push(Task::TrashMonitor);
        tasks.push(Task::Listener);
        assert(tasks@ =~= startup(config.watchdog.enabled));
        tasks
    }
}

impl Default for App {
    fn default() -> (app: Self) {
        Self::new()
    }
}

} // verus!
