//! Tasks and the settings that drive the timers.
use vstd::prelude::*;

verus! {

/// One configured unit of work. Its identity is its URL.
#[derive(Clone, Debug)]
pub struct Task {
    /// Where the content is fetched from; also the task's key in the store.
    pub url: String,
    /// Shell program that turns the fetched body into the extracted value.
    pub parse: String,
    /// Shell program run when the extracted value changes.
    pub command: String,
    /// Seconds between two ticks of the per-task timer.
    pub check_every: u64,
}

/// The loaded configuration: an optional global sweep period, and the tasks.
#[derive(Clone, Debug)]
pub struct Config {
    pub global_check_every: Option<u64>,
    pub tasks: Vec<Task>,
}

/// The global period in force: one given on the command line overrides the
/// configuration's.
pub open spec fn spec_resolve_global(cli: Option<u64>, configured: Option<u64>) -> Option<u64> {
    if cli is Some {
        cli
    } else {
        configured
    }
}

/// The global period in force, the command line's taking precedence.
pub fn resolve_global(cli: Option<u64>, configured: Option<u64>) -> (r: Option<u64>)
    ensures
        r == spec_resolve_global(cli, configured),
{
    match cli {
        Some(s) => Some(s),
        None => configured,
    }
}

impl Config {
    /// The configuration used when no file is given: no tasks, and the
    /// command line's global period.
    pub fn without_file(cli_global: Option<u64>) -> (r: Config)
        ensures
            r.global_check_every == cli_global,
            r.tasks@.len() == 0,
    {
        Config { global_check_every: cli_global, tasks: Vec::new() }
    }

    /// The configuration with the command line's global period applied over
    /// the one it holds.
    pub fn with_cli_global(self, cli_global: Option<u64>) -> (r: Config)
        ensures
            r.global_check_every == spec_resolve_global(cli_global, self.global_check_every),
            r.tasks == self.tasks,
    {
        let g = resolve_global(cli_global, self.global_check_every);
        Config { global_check_every: g, tasks: self.tasks }
    }

    /// The period of the global sweep timer: only a positive one starts it.
    pub fn global_sweep_period(&self) -> (r: Option<u64>)
        ensures
            r == (match self.global_check_every {
                Some(s) => if s > 0 {
                    Some(s)
                } else {
                    None
                },
                None => None,
            }),
    {
        match self.global_check_every {
            Some(s) => if s > 0 {
                Some(s)
            } else {
                None
            },
            None => None,
        }
    }

    /// Whether there is anything to schedule at all.
    pub fn has_tasks(&self) -> (r: bool)
        ensures
            r == (self.tasks@.len() > 0),
    {
        self.tasks.len() > 0
    }
}

} // verus!
