//! The orchestrator: one state, changed by one function, which takes each
//! event as it arrives and answers with what is to be done.
//!
//! Three sources feed it: the transition watcher (the fade is over), the
//! process launcher (the child runs, could not be started, has ended) and
//! the cancellation source (the user touched something). The event loop
//! hands their events to [`Orchestrator::apply`] one at a time and carries
//! out the action that comes back; a spawn's outcome is handed in as the
//! next event, before any other.

use vstd::prelude::*;
use crate::command::{CommandSpec, CommandSpecView};
use crate::process::{ProcessHandle, ProcessOutcome, ProcessOutcomeView};

verus! {

/// Where the orchestrator stands.
#[derive(Clone, Copy, Debug, PartialEq, Eq, Structural)]
pub enum OrchestratorState {
    /// The surface is shown and the fade is armed; its end was not acted on
    /// yet, or the command's start is still under way.
    Initializing,
    /// The fade is over and there is no command. Passed through on the way
    /// out, never rested in.
    AwaitingCommand,
    /// The command runs; its end is awaited.
    Running(ProcessHandle),
    /// The application is leaving. Nothing changes this state again.
    Terminating,
}

/// What the log is told when the command did not go well.
#[derive(Clone, Debug, PartialEq, Eq)]
pub enum Warning {
    /// The command could not be started; the launcher's message.
    SpawnFailed { message: String },
    /// The command ran and ended with a status other than zero.
    NonZeroExit { program: String, status: i32 },
}

/// A warning as mathematical values.
pub enum WarningView {
    SpawnFailed { message: Seq<char> },
    NonZeroExit { program: Seq<char>, status: i32 },
}

impl View for Warning {
    type V = WarningView;

    open spec fn view(&self) -> WarningView {
        match *self {
            Warning::SpawnFailed { message } => WarningView::SpawnFailed { message: message@ },
            Warning::NonZeroExit { program, status } => WarningView::NonZeroExit {
                program: program@,
                status,
            },
        }
    }
}

/// What the event loop is to do after an event.
#[derive(Clone, Debug, PartialEq, Eq)]
pub enum Action {
    /// Nothing: the event changed nothing that needs work.
    Nothing,
    /// Start the command and report the outcome.
    Spawn,
    /// Wait for this child to end and report its status.
    Await(ProcessHandle),
    /// Leave the application, after logging the warning if there is one.
    Exit(Option<Warning>),
}

/// An action as mathematical values.
pub enum ActionView {
    Nothing,
    Spawn,
    Await(ProcessHandle),
    Exit(Option<WarningView>),
}

impl View for Action {
    type V = ActionView;

    open spec fn view(&self) -> ActionView {
        match *self {
            Action::Nothing => ActionView::Nothing,
            Action::Spawn => ActionView::Spawn,
            Action::Await(handle) => ActionView::Await(handle),
            Action::Exit(None) => ActionView::Exit(None),
            Action::Exit(Some(warning)) => ActionView::Exit(Some(warning@)),
        }
    }
}

/// What can happen to the orchestrator.
#[derive(Clone, Debug, PartialEq, Eq)]
pub enum Event {
    /// The fade is over.
    FadeComplete,
    /// The launcher reports on the child.
    Process(ProcessOutcome),
    /// The user gave some input.
    CancelRequest,
}

/// An event as mathematical values.
pub enum EventView {
    FadeComplete,
    Process(ProcessOutcomeView),
    CancelRequest,
}

impl View for Event {
    type V = EventView;

    open spec fn view(&self) -> EventView {
        match *self {
            Event::FadeComplete => EventView::FadeComplete,
            Event::Process(outcome) => EventView::Process(outcome@),
            Event::CancelRequest => EventView::CancelRequest,
        }
    }
}

/// The orchestrator as mathematical values.
pub struct OrchestratorView {
    pub state: OrchestratorState,
    pub command: CommandSpecView,
    /// Whether the end of the fade was acted on. Set once, never cleared.
    pub fade_consumed: bool,
}

impl OrchestratorView {
    /// What holds of every orchestrator that was made by [`initial`] and
    /// changed by [`step`] alone: the end of the fade was acted on before
    /// anything ran or was held back for want of a command, and only a
    /// command with arguments is ever started.
    pub open spec fn wf(self) -> bool {
        match self.state {
            OrchestratorState::Initializing => self.fade_consumed ==> self.command.argv.len() > 0,
            OrchestratorState::AwaitingCommand => self.fade_consumed && self.command.argv.len()
                == 0,
            OrchestratorState::Running(_) => self.fade_consumed && self.command.argv.len() > 0,
            OrchestratorState::Terminating => true,
        }
    }

    /// The command's start was asked for and its outcome is still owed.
    pub open spec fn spawn_pending(self) -> bool {
        self.state is Initializing && self.fade_consumed
    }

    /// This orchestrator in another state.
    pub open spec fn in_state(self, state: OrchestratorState) -> OrchestratorView {
        OrchestratorView { state, ..self }
    }

    /// This orchestrator once the end of the fade was acted on.
    pub open spec fn with_fade_consumed(self) -> OrchestratorView {
        OrchestratorView { fade_consumed: true, ..self }
    }
}

/// The orchestrator at program start.
pub open spec fn initial(command: CommandSpecView) -> OrchestratorView {
    OrchestratorView { state: OrchestratorState::Initializing, command, fade_consumed: false }
}

/// What the log is told of a child that ended with `status`: nothing for
/// zero, else the program's name and the status.
pub open spec fn exit_warning(command: CommandSpecView, status: i32) -> Option<WarningView> {
    if status == 0 {
        None
    } else {
        Some(WarningView::NonZeroExit { program: command.argv[0], status })
    }
}

/// What the end of the fade leads to, where it is acted on: with no
/// command, out by way of `AwaitingCommand`; with one, its start.
pub open spec fn on_fade_complete(o: OrchestratorView) -> (OrchestratorView, ActionView) {
    if o.command.argv.len() == 0 {
        (
            o.with_fade_consumed().in_state(OrchestratorState::AwaitingCommand).in_state(
                OrchestratorState::Terminating,
            ),
            ActionView::Exit(None),
        )
    } else {
        (o.with_fade_consumed(), ActionView::Spawn)
    }
}

/// What a report from the launcher leads to. A report that nothing waits
/// for changes nothing.
pub open spec fn on_process_outcome(o: OrchestratorView, outcome: ProcessOutcomeView) -> (
    OrchestratorView,
    ActionView,
) {
    match outcome {
        ProcessOutcomeView::Spawned(handle) => if o.spawn_pending() {
            (o.in_state(OrchestratorState::Running(handle)), ActionView::Await(handle))
        } else {
            (o, ActionView::Nothing)
        },
        ProcessOutcomeView::SpawnFailed(message) => if o.spawn_pending() {
            (
                o.in_state(OrchestratorState::Terminating),
                ActionView::Exit(Some(WarningView::SpawnFailed { message })),
            )
        } else {
            (o, ActionView::Nothing)
        },
        ProcessOutcomeView::Exited(status) => if o.state is Running {
            (
                o.in_state(OrchestratorState::Terminating),
                ActionView::Exit(exit_warning(o.command, status)),
            )
        } else {
            (o, ActionView::Nothing)
        },
    }
}

/// The transition function: the orchestrator after an event, and what is
/// to be done.
///
/// Once it is `Terminating`, no event changes anything. Before that, input
/// from the user ends it whatever else is under way; the end of the fade
/// is acted on once, while `Initializing`; and a report from the launcher
/// is taken where it is waited for.
pub open spec fn step(o: OrchestratorView, event: EventView) -> (OrchestratorView, ActionView) {
    if o.state is Terminating {
        (o, ActionView::Nothing)
    } else {
        match event {
            EventView::CancelRequest => (
                o.in_state(OrchestratorState::Terminating),
                ActionView::Exit(None),
            ),
            EventView::FadeComplete => if o.state is Initializing && !o.fade_consumed {
                on_fade_complete(o)
            } else {
                (o, ActionView::Nothing)
            },
            EventView::Process(outcome) => on_process_outcome(o, outcome),
        }
    }
}

/// The state machine that decides when the command is started and when the
/// application leaves.
pub struct Orchestrator {
    state: OrchestratorState,
    command: CommandSpec,
    fade_consumed: bool,
}

impl View for Orchestrator {
    type V = OrchestratorView;

    closed spec fn view(&self) -> OrchestratorView {
        OrchestratorView {
            state: self.state,
            command: self.command@,
            fade_consumed: self.fade_consumed,
        }
    }
}

impl Orchestrator {
    #[verifier::type_invariant]
    spec fn well_formed(self) -> bool {
        self@.wf()
    }

    /// The orchestrator at program start, for this command.
    pub fn new(command: CommandSpec) -> (orchestrator: Orchestrator)
        ensures
            orchestrator@ == initial(command@),
    {
        Orchestrator { state: OrchestratorState::Initializing, command, fade_consumed: false }
    }

    /// Where the orchestrator stands.
    pub fn state(&self) -> (state: OrchestratorState)
        ensures
            state == self@.state,
    {
        self.state
    }

    /// The command it was made for.
    pub fn command(&self) -> (command: &CommandSpec)
        ensures
            command@ == self@.command,
    {
        &self.command
    }

    /// Whether the application is leaving.
    pub fn is_terminating(&self) -> (terminating: bool)
        ensures
            terminating == (self@.state is Terminating),
    {
        match self.state {
            OrchestratorState::Terminating => true,
            _ => false,
        }
    }

    /// Takes one event and says what is to be done: the one way in which
    /// the orchestrator changes.
    pub fn apply(&mut self, event: Event) -> (action: Action)
        ensures
            (final(self)@, action@) == step(old(self)@, event@),
            old(self)@.wf(),
            final(self)@.wf(),
    {
        proof {
            use_type_invariant(&*self);
        }
        if self.is_terminating() {
            return Action::Nothing;
        }
        match event {
            Event::CancelRequest => {
                self.state = OrchestratorState::Terminating;
                Action::Exit(None)
            },
            Event::FadeComplete => {
                match self.state {
                    OrchestratorState::Initializing => {
                        if self.fade_consumed {
                            Action::Nothing
                        } else if self.command.is_empty() {
                            self.state = OrchestratorState::Terminating;
                            self.fade_consumed = true;
                            Action::Exit(None)
                        } else {
                            self.fade_consumed = true;
                            Action::Spawn
                        }
                    },
                    _ => Action::Nothing,
                }
            },
            Event::Process(outcome) => self.apply_outcome(outcome),
        }
    }

    /// Takes one report from the launcher, while not yet leaving.
    fn apply_outcome(&mut self, outcome: ProcessOutcome) -> (action: Action)
        requires
            !(old(self)@.state is Terminating),
        ensures
            (final(self)@, action@) == on_process_outcome(old(self)@, outcome@),
    {
        proof {
            use_type_invariant(&*self);
        }
        let pending = match self.state {
            OrchestratorState::Initializing => self.fade_consumed,
            _ => false,
        };
        match outcome {
            ProcessOutcome::Spawned(handle) => {
                if pending {
                    self.state = OrchestratorState::Running(handle);
                    Action::Await(handle)
                } else {
                    Action::Nothing
                }
            },
            ProcessOutcome::SpawnFailed(error) => {
                if pending {
                    self.state = OrchestratorState::Terminating;
                    Action::Exit(Some(Warning::SpawnFailed { message: error.message }))
                } else {
                    Action::Nothing
                }
            },
            ProcessOutcome::Exited(status) => {
                match self.state {
                    OrchestratorState::Running(_) => {
                        let warning = if status == 0 {
                            None
                        } else {
                            let program = self.command.argv()[0].clone();
                            Some(Warning::NonZeroExit { program, status })
                        };
                        self.state = OrchestratorState::Terminating;
                        Action::Exit(warning)
                    },
                    _ => Action::Nothing,
                }
            },
        }
    }
}

} // verus!
