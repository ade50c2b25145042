//! The sequencer: which action the host performs next, given how the
//! actions before it ended.
//!
//! The host asks for the pending action, performs it, and reports how it
//! ended. Capabilities are attached in the order of the plan. A failure to
//! attach one is either dropped or remembered, by the capability's policy,
//! and never stops the capabilities after it from being attached. Once all
//! are attached the run loop is entered, unless a remembered failure has made
//! the setup fail as a whole: then the sequence aborts. It also aborts when
//! the run loop fails to start.

use vstd::prelude::*;
use crate::capability::{Capability, FailurePolicy};
use crate::plan::{capability_at, registrations};
use crate::platform::Platform;

verus! {

/// How an action that the host performed ended.
#[derive(Clone, Copy, Debug, PartialEq, Eq, Structural)]
pub enum Outcome {
    /// The action was carried out.
    Succeeded,
    /// The action returned an error.
    Failed,
}

/// What the host is asked to do.
#[derive(Clone, Copy, Debug, PartialEq, Eq, Structural)]
pub enum Action {
    /// Attach a capability to the application instance.
    Register(Capability),
    /// Enter the run loop, which blocks for the lifetime of the process.
    EnterRunLoop,
    /// Leave: the run loop has ended.
    Exit,
    /// Abort the process with the fatal diagnostic.
    Abort,
}

/// Where a bootstrap stands.
#[derive(Clone, Copy, Debug, PartialEq, Eq, Structural)]
pub enum Stage {
    /// Capabilities are being attached.
    Registering,
    /// All capabilities are attached and the run loop is to be entered.
    Launching,
    /// The run loop has ended.
    Exited,
    /// The setup failed as a whole, or the run loop failed to start.
    Aborted,
}

/// The state of a bootstrap.
pub struct State {
    /// The platform the application is built for.
    pub platform: Platform,
    /// Where the bootstrap stands.
    pub stage: Stage,
    /// How many registrations the host has reported on.
    pub position: nat,
    /// Whether a registration failed whose failure is not dropped.
    pub setup_failed: bool,
}

impl Action {
    /// Whether nothing follows this action.
    pub open spec fn spec_is_terminal(self) -> bool {
        self is Exit || self is Abort
    }

    /// Whether nothing follows this action.
    #[verifier::when_used_as_spec(spec_is_terminal)]
    pub fn is_terminal(self) -> (terminal: bool)
        ensures
            terminal == self.spec_is_terminal(),
    {
        match self {
            Action::Exit => true,
            Action::Abort => true,
            _ => false,
        }
    }
}

impl State {
    /// The state before anything was done.
    pub open spec fn initial(platform: Platform) -> State {
        State { platform, stage: Stage::Registering, position: 0, setup_failed: false }
    }

    /// Whether the state is one that a bootstrap can be in.
    pub open spec fn wf(self) -> bool {
        &&& self.stage is Registering ==> self.position < registrations(self.platform).len()
        &&& !(self.stage is Registering) ==> self.position == registrations(self.platform).len()
        &&& (self.stage is Launching || self.stage is Exited) ==> !self.setup_failed
    }

    /// The action that the host is asked to perform in this state.
    pub open spec fn pending(self) -> Action {
        match self.stage {
            Stage::Registering => Action::Register(
                registrations(self.platform)[self.position as int],
            ),
            Stage::Launching => Action::EnterRunLoop,
            Stage::Exited => Action::Exit,
            Stage::Aborted => Action::Abort,
        }
    }

    /// Whether the bootstrap has ended.
    pub open spec fn terminated(self) -> bool {
        self.stage is Exited || self.stage is Aborted
    }

    /// The state after the host has reported how the pending action ended.
    pub open spec fn next(self, outcome: Outcome) -> State {
        match self.stage {
            Stage::Registering => {
                let capability = registrations(self.platform)[self.position as int];
                let setup_failed = self.setup_failed || (outcome is Failed
                    && capability.spec_failure_policy() is Propagate);
                let position = self.position + 1;
                let stage = if position < registrations(self.platform).len() {
                    Stage::Registering
                } else if setup_failed {
                    Stage::Aborted
                } else {
                    Stage::Launching
                };
                State { platform: self.platform, stage, position, setup_failed }
            },
            Stage::Launching => State {
                stage: if outcome is Succeeded {
                    Stage::Exited
                } else {
                    Stage::Aborted
                },
                ..self
            },
            Stage::Exited | Stage::Aborted => self,
        }
    }
}

/// A bootstrap in progress.
pub struct Sequencer {
    platform: Platform,
    stage: Stage,
    position: usize,
    setup_failed: bool,
}

impl View for Sequencer {
    type V = State;

    closed spec fn view(&self) -> State {
        State {
            platform: self.platform,
            stage: self.stage,
            position: self.position as nat,
            setup_failed: self.setup_failed,
        }
    }
}

impl Sequencer {
    #[verifier::type_invariant]
    closed spec fn well_formed(self) -> bool {
        self@.wf()
    }

    /// A bootstrap of which nothing has been done yet.
    pub fn new(platform: Platform) -> (sequencer: Sequencer)
        ensures
            sequencer@ == State::initial(platform),
    {
        Sequencer { platform, stage: Stage::Registering, position: 0, setup_failed: false }
    }

    /// The platform the application is built for.
    pub fn platform(&self) -> (platform: Platform)
        ensures
            platform == self@.platform,
    {
        self.platform
    }

    /// Where the bootstrap stands.
    pub fn stage(&self) -> (stage: Stage)
        ensures
            stage == self@.stage,
    {
        self.stage
    }

    /// Whether a registration failed whose failure is not dropped.
    pub fn setup_failed(&self) -> (failed: bool)
        ensures
            failed == self@.setup_failed,
    {
        self.setup_failed
    }

    /// Whether the bootstrap has ended.
    pub fn is_terminated(&self) -> (terminated: bool)
        ensures
            terminated == self@.terminated(),
    {
        match self.stage {
            Stage::Exited => true,
            Stage::Aborted => true,
            _ => false,
        }
    }

    /// The action that the host is asked to perform now.
    pub fn pending(&self) -> (action: Action)
        ensures
            self@.wf(),
            action == self@.pending(),
    {
        proof {
            use_type_invariant(self);
        }
        match self.stage {
            Stage::Registering => match capability_at(self.platform, self.position) {
                Some(capability) => Action::Register(capability),
                None => Action::Abort,
            },
            Stage::Launching => Action::EnterRunLoop,
            Stage::Exited => Action::Exit,
            Stage::Aborted => Action::Abort,
        }
    }

    /// Takes the host's report on how the pending action ended, and returns
    /// the action that is pending then. A report on a bootstrap that has
    /// ended changes nothing.
    pub fn report(&mut self, outcome: Outcome) -> (action: Action)
        ensures
            final(self)@ == old(self)@.next(outcome),
            final(self)@.wf(),
            action == final(self)@.pending(),
    {
        proof {
            use_type_invariant(&*self);
        }
        match self.stage {
            Stage::Registering => {
                let failed = match capability_at(self.platform, self.position) {
                    Some(capability) => match (outcome, capability.failure_policy()) {
                        (Outcome::Failed, FailurePolicy::Propagate) => true,
                        _ => self.setup_failed,
                    },
                    None => self.setup_failed,
                };
                let position: usize = self.position + 1;
                let stage = if capability_at(self.platform, position).is_some() {
                    Stage::Registering
                } else if failed {
                    Stage::Aborted
                } else {
                    Stage::Launching
                };
                *self = Sequencer { platform: self.platform, stage, position, setup_failed: failed };
            },
            Stage::Launching => {
                let stage = match outcome {
                    Outcome::Succeeded => Stage::Exited,
                    Outcome::Failed => Stage::Aborted,
                };
                *self = Sequencer {
                    platform: self.platform,
                    stage,
                    position: self.position,
                    setup_failed: self.setup_failed,
                };
            },
            Stage::Exited => {},
            Stage::Aborted => {},
        }
        self.pending()
    }
}

/// The diagnostic that a process is aborted with.
pub fn abort_diagnostic() -> (message: &'static str)
    ensures
        message@ == "error while running tauri application"@,
{
    "error while running tauri application"
}

} // verus!
