//! Running a plan: one operation at a time, in order, stopping for good at the
//! first failure, and the process exit code of each outcome.
use vstd::prelude::*;
use crate::config::Config;
use crate::plan::{plan, refusal, steps, steps_of, Action, PlanError, Step};

verus! {

/// Why the configuration could not be loaded.
#[derive(Clone, Copy, Debug, PartialEq, Eq)]
pub enum LoadError {
    /// The document could not be read; `os_code` is the operating system's
    /// error number when one is known.
    Io { os_code: Option<i32> },
    /// The document is not valid structured data of the expected shape.
    Schema,
}

/// Why an installation run stopped early.
#[derive(Clone, Copy, Debug, PartialEq, Eq)]
pub enum Failure {
    Load(LoadError),
    Plan(PlanError),
    /// The operation at `index` of the plan failed.
    Stage { index: usize },
}

/// Where a run stands.
#[derive(Clone, Copy, Debug, PartialEq, Eq)]
pub enum RunState {
    /// The operation at the current position is to be performed next.
    Running,
    /// Every operation succeeded.
    Finished,
    /// The run stopped; nothing more is performed.
    Failed(Failure),
}

/// Exit code when the configuration cannot be read and no usable operating
/// system error number is known.
pub const EXIT_IO_FALLBACK: i32 = 1;
/// Exit code when the configuration does not match the schema.
pub const EXIT_SCHEMA: i32 = 254;
/// Exit code when the configuration cannot be planned.
pub const EXIT_INVALID: i32 = 253;
/// Exit code when an operation of the plan fails.
pub const EXIT_STAGE: i32 = 252;

/// The exit code of a failure. An operating system error number is passed on
/// when it lies strictly between 0 and the codes reserved above, so that the
/// kinds of failure stay apart.
pub open spec fn spec_failure_code(f: Failure) -> i32 {
    match f {
        Failure::Load(LoadError::Io { os_code }) => match os_code {
            Some(n) => if 0 < n < EXIT_STAGE {
                n
            } else {
                EXIT_IO_FALLBACK
            },
            None => EXIT_IO_FALLBACK,
        },
        Failure::Load(LoadError::Schema) => EXIT_SCHEMA,
        Failure::Plan(_) => EXIT_INVALID,
        Failure::Stage { .. } => EXIT_STAGE,
    }
}

pub fn failure_code(f: Failure) -> (r: i32)
    ensures
        r == spec_failure_code(f),
        r != 0,
{
    match f {
        Failure::Load(LoadError::Io { os_code }) => match os_code {
            Some(n) => if 0 < n && n < EXIT_STAGE {
                n
            } else {
                EXIT_IO_FALLBACK
            },
            None => EXIT_IO_FALLBACK,
        },
        Failure::Load(LoadError::Schema) => EXIT_SCHEMA,
        Failure::Plan(_) => EXIT_INVALID,
        Failure::Stage { .. } => EXIT_STAGE,
    }
}

/// The mathematical value of an [`Installer`]: its plan, how many operations
/// of it have succeeded, and where the run stands.
pub struct InstallerView {
    pub steps: Seq<Step>,
    pub done: nat,
    pub state: RunState,
}

/// A run of an installation plan.
pub struct Installer {
    actions: Vec<Action>,
    done: usize,
    state: RunState,
}

impl View for Installer {
    type V = InstallerView;

    closed spec fn view(&self) -> InstallerView {
        InstallerView { steps: steps_of(self.actions@), done: self.done as nat, state: self.state }
    }
}

impl Installer {
    /// The run's position agrees with where it stands.
    pub open spec fn wf(&self) -> bool {
        &&& self@.done <= self@.steps.len()
        &&& self@.state is Running ==> self@.done < self@.steps.len()
        &&& self@.state is Finished ==> self@.done == self@.steps.len()
        &&& self@.state matches RunState::Failed(f) ==> match f {
            Failure::Stage { index } => index == self@.done && self@.done < self@.steps.len(),
            _ => self@.steps.len() == 0 && self@.done == 0,
        }
    }

    /// Starts a run from the outcome of loading the configuration. A load
    /// failure or a configuration that cannot be planned stops the run before
    /// any operation; otherwise the run is at the first operation of the plan.
    pub fn start(loaded: Result<Config, LoadError>) -> (r: Installer)
        ensures
            r.wf(),
            r@.done == 0,
            match loaded {
                Err(e) => r@.state == RunState::Failed(Failure::Load(e)) && r@.steps.len() == 0,
                Ok(c) => match r@.state {
                    RunState::Failed(Failure::Plan(e)) => refusal(&c, e) && r@.steps.len() == 0,
                    RunState::Running => r@.steps == steps(&c),
                    _ => false,
                },
            },
            loaded matches Ok(c) ==> (r@.state is Running <==> !(exists|e: PlanError|
                refusal(&c, e))),
    {
        match loaded {
            Err(e) => Installer { actions: Vec::new(), done: 0, state: RunState::Failed(Failure::Load(e)) },
            Ok(c) => match plan(&c) {
                Ok(actions) => {
                    assert(steps(&c).len() > 0);
                    proof {
                        if exists|e: PlanError| refusal(&c, e) {
                            let e = choose|e: PlanError| refusal(&c, e);
                            assert(!(e is MalformedPartition));
                        }
                    }
                    Installer { actions, done: 0, state: RunState::Running }
                },
                Err(e) => Installer { actions: Vec::new(), done: 0, state: RunState::Failed(Failure::Plan(e)) },
            },
        }
    }

    /// The operation to perform next, if the run is still going.
    pub fn next_action(&self) -> (r: Option<&Action>)
        requires
            self.wf(),
        ensures
            r is Some <==> self@.state is Running,
            r matches Some(a) ==> a@ == self@.steps[self@.done as int],
    {
        match self.state {
            RunState::Running => {
                assert(self@.steps.len() == self.actions@.len());
                let a = &self.actions[self.done];
                Some(a)
            },
            _ => None,
        }
    }

    /// Records the outcome of the operation returned by `next_action`. A
    /// success moves to the next operation, or finishes the run after the last
    /// one; a failure stops the run for good at that operation.
    pub fn report(&mut self, succeeded: bool)
        requires
            old(self).wf(),
            old(self)@.state is Running,
        ensures
            final(self).wf(),
            final(self)@.steps == old(self)@.steps,
            succeeded ==> final(self)@.done == old(self)@.done + 1,
            succeeded && final(self)@.done == final(self)@.steps.len() ==> final(self)@.state
                == RunState::Finished,
            succeeded && final(self)@.done < final(self)@.steps.len() ==> final(self)@.state
                == RunState::Running,
            !succeeded ==> final(self)@.done == old(self)@.done && final(self)@.state
                == RunState::Failed(Failure::Stage { index: old(self)@.done as usize }),
    {
        assert(self@.steps.len() == self.actions@.len());
        let n = self.actions.len();
        if succeeded {
            self.done = self.done + 1;
            if self.done == n {
                self.state = RunState::Finished;
            }
        } else {
            self.state = RunState::Failed(Failure::Stage { index: self.done });
        }
    }

    /// How many operations have succeeded so far.
    pub fn completed(&self) -> (r: usize)
        ensures
            r == self@.done,
    {
        self.done
    }

    pub fn state(&self) -> (r: RunState)
        ensures
            r == self@.state,
    {
        self.state
    }

    /// The process exit code: none while the run is going, 0 once every
    /// operation succeeded, and the failure's code after a failure.
    pub fn exit_code(&self) -> (r: Option<i32>)
        ensures
            self@.state is Running ==> r is None,
            self@.state is Finished ==> r == Some(0i32),
            self@.state matches RunState::Failed(f) ==> r == Some(spec_failure_code(f)),
    {
        match self.state {
            RunState::Running => None,
            RunState::Finished => Some(0),
            RunState::Failed(f) => Some(failure_code(f)),
        }
    }
}

} // verus!
