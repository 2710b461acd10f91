//! One tick of one task: fetch, extract, compare, and on a change record
//! the value and run the action.
//!
//! The tick is a state machine. The caller performs each `Request` (a GET, a
//! run of the extraction program, a run of the action) and hands back what
//! came of it as an `Event`; the machine decides what happens next and makes
//! the store mutation itself.
use vstd::prelude::*;
use crate::config::Task;
use crate::detect::{detect, is_change, observe};
use crate::outcome::{
    classify_extract, classify_fetch, ExtractError, ExtractOutcome, FetchError, FetchOutcome,
};
use crate::store::ResultStore;

verus! {

/// Where a tick stands.
#[derive(Clone, Copy, Debug, PartialEq, Eq, Structural)]
pub enum Phase {
    /// Waiting for the fetch.
    Fetching,
    /// Waiting for the extraction program.
    Extracting,
    /// A change was recorded; waiting for the action.
    Acting,
    /// The tick is over.
    Finished,
}

/// A failure that abandons the tick before any store mutation.
#[derive(Debug)]
pub enum TickError {
    Fetch(FetchError),
    Extract(ExtractError),
}

/// How a tick ended.
#[derive(Debug)]
pub enum TickEnd {
    /// The extracted value equals the recorded one; nothing was done.
    Unchanged,
    /// A new value was recorded and the action was run. A failing action is
    /// only worth a warning: the recorded value stays.
    Changed { action_succeeded: bool },
    /// The fetch or the extraction failed; nothing was recorded or run.
    Failed(TickError),
}

impl TickEnd {
    /// The tick recorded a new value.
    pub open spec fn changed(&self) -> bool {
        self is Changed
    }

    /// Whether the tick recorded a new value.
    pub fn is_changed(&self) -> (r: bool)
        ensures
            r == self.changed(),
    {
        match self {
            TickEnd::Changed { .. } => true,
            _ => false,
        }
    }
}

/// The work a tick asks of its caller next.
pub enum Request {
    /// GET this URL.
    Fetch { url: String },
    /// Run the extraction program with `input` on its standard input.
    Extract { program: String, input: String },
    /// Run the action program with `parsed` in its environment.
    RunAction { program: String, parsed: String },
    /// Nothing more: the tick ended so.
    Done(TickEnd),
}

/// What came of the work last asked for.
pub enum Event {
    Fetched(FetchOutcome),
    Extracted(ExtractOutcome),
    /// The action finished; whether it exited successfully.
    ActionExited(bool),
}

impl Event {
    /// The event answers the request that `phase` waits on.
    pub open spec fn fits(&self, phase: Phase) -> bool {
        match self {
            Event::Fetched(_) => phase == Phase::Fetching,
            Event::Extracted(_) => phase == Phase::Extracting,
            Event::ActionExited(_) => phase == Phase::Acting,
        }
    }
}

/// A tick in progress.
pub struct TaskRun {
    pub phase: Phase,
}

impl TaskRun {
    /// Begins a tick of `task`: the first thing to do is to fetch its URL.
    pub fn start(task: &Task) -> (r: (TaskRun, Request))
        ensures
            r.0.phase == Phase::Fetching,
            r.1 matches Request::Fetch { url } && url@ == task.url@,
    {
        (TaskRun { phase: Phase::Fetching }, Request::Fetch { url: task.url.clone() })
    }

    /// Whether `event` answers what this tick waits on.
    pub fn accepts(&self, event: &Event) -> (r: bool)
        ensures
            r == event.fits(self.phase),
    {
        match event {
            Event::Fetched(_) => self.phase == Phase::Fetching,
            Event::Extracted(_) => self.phase == Phase::Extracting,
            Event::ActionExited(_) => self.phase == Phase::Acting,
        }
    }

    /// Takes in what came of the last request and says what to do next.
    ///
    /// A failed fetch or extraction ends the tick with the store untouched
    /// and no action. A successful extraction is compared with the store;
    /// on a change the store records the new value before the action is
    /// asked for, and the action's outcome never undoes that.
    pub fn handle(&mut self, task: &Task, store: &mut ResultStore, event: Event) -> (req: Request)
        requires
            old(store).wf(),
            event.fits(old(self).phase),
        ensures
            final(store).wf(),
            match event {
                Event::Fetched(o) => {
                    &&& final(store)@ == old(store)@
                    &&& match o.content() {
                        Some(body) => {
                            &&& final(self).phase == Phase::Extracting
                            &&& req matches Request::Extract { program, input } && program@
                                == task.parse@ && input@ == body
                        },
                        None => {
                            &&& final(self).phase == Phase::Finished
                            &&& req matches Request::Done(TickEnd::Failed(TickError::Fetch(e)))
                                && o.judged(Err(e))
                        },
                    }
                },
                Event::Extracted(o) => match o.value() {
                    Some(v) => {
                        &&& final(store)@ == observe(old(store)@, task.url@, v)
                        &&& if is_change(old(store)@, task.url@, v) {
                            &&& final(self).phase == Phase::Acting
                            &&& req matches Request::RunAction { program, parsed } && program@
                                == task.command@ && parsed@ == v
                        } else {
                            &&& final(self).phase == Phase::Finished
                            &&& req matches Request::Done(TickEnd::Unchanged)
                        }
                    },
                    None => {
                        &&& final(store)@ == old(store)@
                        &&& final(self).phase == Phase::Finished
                        &&& req matches Request::Done(TickEnd::Failed(TickError::Extract(e)))
                            && o.judged(Err(e))
                    },
                },
                Event::ActionExited(ok) => {
                    &&& final(store)@ == old(store)@
                    &&& final(self).phase == Phase::Finished
                    &&& req matches Request::Done(TickEnd::Changed { action_succeeded })
                        && action_succeeded == ok
                },
            },
    {
        match event {
            Event::Fetched(o) => match classify_fetch(o) {
                Ok(body) => {
                    self.phase = Phase::Extracting;
                    Request::Extract { program: task.parse.clone(), input: body }
                },
                Err(e) => {
                    self.phase = Phase::Finished;
                    Request::Done(TickEnd::Failed(TickError::Fetch(e)))
                },
            },
            Event::Extracted(o) => match classify_extract(o) {
                Ok(value) => {
                    if detect(store, &task.url, &value) {
                        store.insert(task.url.clone(), value.clone());
                        self.phase = Phase::Acting;
                        Request::RunAction { program: task.command.clone(), parsed: value }
                    } else {
                        self.phase = Phase::Finished;
                        Request::Done(TickEnd::Unchanged)
                    }
                },
                Err(e) => {
                    self.phase = Phase::Finished;
                    Request::Done(TickEnd::Failed(TickError::Extract(e)))
                },
            },
            Event::ActionExited(ok) => {
                self.phase = Phase::Finished;
                Request::Done(TickEnd::Changed { action_succeeded: ok })
            },
        }
    }
}

} // verus!
