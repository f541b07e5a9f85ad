//! The process supervisor: at most one child process, started, stopped and
//! restarted one step at a time.
//!
//! The supervisor never touches a process itself. A request (`start`, `stop`,
//! `restart`) puts it to work; while it is busy it owes its driver exactly one
//! [`Action`], and `resume` takes the [`Outcome`] of that action and moves on.
//! Any refusal by the operating system halts it for good.

use vstd::prelude::*;
use crate::command::CommandSpec;

verus! {

/// How long a freshly spawned child is given to establish itself, in milliseconds.
pub const SETTLE_DELAY_MS: u64 = 100;

/// How long the system is given to release a reaped child's resources, in milliseconds.
pub const RELEASE_DELAY_MS: u64 = 500;

/// One thing the driver is asked to do on the supervisor's behalf.
#[derive(Clone, Copy, Debug, PartialEq, Eq, Structural)]
pub enum Action {
    /// Show the command line that is about to be launched.
    Announce,
    /// Send the termination signal to the process with this handle.
    Kill(u32),
    /// Block until the process with this handle has exited, and collect it.
    Reap(u32),
    /// Launch the command, with its standard input open for writing.
    Spawn,
    /// Block for this many milliseconds.
    Pause(u64),
}

/// What came of the action last handed out.
#[derive(Clone, Copy, Debug, PartialEq, Eq, Structural)]
pub enum Outcome {
    /// It was carried out.
    Done,
    /// A process was launched; this is its handle.
    Spawned(u32),
    /// The operating system refused.
    Refused,
}

/// Why a supervisor halted.
#[derive(Clone, Copy, Debug, PartialEq, Eq, Structural)]
pub enum Failure {
    /// The command could not be launched.
    Spawn,
    /// The tracked process could not be signalled.
    Signal,
    /// The tracked process could not be waited for.
    Reap,
}

/// What a busy supervisor is working towards.
#[derive(Clone, Copy, Debug, PartialEq, Eq, Structural)]
pub enum Operation {
    Start,
    Stop,
    Restart,
}

/// Where a supervisor stands.
#[derive(Clone, Copy, Debug, PartialEq, Eq, Structural)]
pub enum Stage {
    /// No operation is in flight.
    Settled,
    /// An operation is in flight and `pending` is owed to the driver.
    Busy { goal: Operation, pending: Action },
    /// The operating system refused an action; nothing further will be attempted.
    Halted(Failure),
}

/// A supervisor as a mathematical value.
pub struct SupervisorView {
    pub command: Seq<Seq<char>>,
    pub process: Option<u32>,
    pub stage: Stage,
}

impl SupervisorView {
    /// A supervisor that has not been asked for anything yet.
    pub open spec fn initial(command: Seq<Seq<char>>) -> SupervisorView {
        SupervisorView { command, process: None, stage: Stage::Settled }
    }

    pub open spec fn settled(self) -> bool {
        self.stage is Settled
    }

    /// The same supervisor at another stage.
    pub open spec fn at(self, stage: Stage) -> SupervisorView {
        SupervisorView { stage, ..self }
    }

    /// The first step of a start: the launch is announced before anything else.
    pub open spec fn start(self) -> SupervisorView {
        if self.settled() {
            self.at(Stage::Busy { goal: Operation::Start, pending: Action::Announce })
        } else {
            self
        }
    }

    /// The first step of a stop: nothing at all without a process, else the signal.
    pub open spec fn stop(self) -> SupervisorView {
        match (self.stage, self.process) {
            (Stage::Settled, Some(handle)) => self.at(
                Stage::Busy { goal: Operation::Stop, pending: Action::Kill(handle) },
            ),
            _ => self,
        }
    }

    /// The first step of a restart: that of a stop where there is a process to
    /// stop, else that of a start.
    pub open spec fn restart(self) -> SupervisorView {
        match (self.stage, self.process) {
            (Stage::Settled, Some(handle)) => self.at(
                Stage::Busy { goal: Operation::Restart, pending: Action::Kill(handle) },
            ),
            (Stage::Settled, None) => self.start(),
            _ => self,
        }
    }

    /// The step that follows `pending` once `outcome` is known.
    ///
    /// A start announces, clears away a process that is still held (signal, then
    /// reap), spawns and pauses. A stop signals, reaps and pauses. A restart is a
    /// stop followed by a start. The handle is set when the spawn succeeds and
    /// cleared when the reap succeeds. Announcing and pausing cannot fail.
    pub open spec fn after(self, goal: Operation, pending: Action, outcome: Outcome) -> SupervisorView {
        match pending {
            Action::Announce => match self.process {
                Some(handle) => self.at(Stage::Busy { goal, pending: Action::Kill(handle) }),
                None => self.at(Stage::Busy { goal, pending: Action::Spawn }),
            },
            Action::Kill(handle) => match outcome {
                Outcome::Done => self.at(Stage::Busy { goal, pending: Action::Reap(handle) }),
                _ => self.at(Stage::Halted(Failure::Signal)),
            },
            Action::Reap(_) => match outcome {
                Outcome::Done => SupervisorView {
                    process: None,
                    stage: match goal {
                        Operation::Start => Stage::Busy { goal, pending: Action::Spawn },
                        _ => Stage::Busy { goal, pending: Action::Pause(RELEASE_DELAY_MS) },
                    },
                    ..self
                },
                _ => self.at(Stage::Halted(Failure::Reap)),
            },
            Action::Spawn => match outcome {
                Outcome::Spawned(handle) => SupervisorView {
                    process: Some(handle),
                    stage: Stage::Busy { goal, pending: Action::Pause(SETTLE_DELAY_MS) },
                    ..self
                },
                _ => self.at(Stage::Halted(Failure::Spawn)),
            },
            Action::Pause(_) => match goal {
                Operation::Restart => self.at(
                    Stage::Busy { goal: Operation::Start, pending: Action::Announce },
                ),
                _ => self.at(Stage::Settled),
            },
        }
    }

    /// The supervisor once `outcome` has been reported. A report that nothing
    /// was waiting for changes nothing.
    pub open spec fn resume(self, outcome: Outcome) -> SupervisorView {
        match self.stage {
            Stage::Busy { goal, pending } => self.after(goal, pending, outcome),
            _ => self,
        }
    }

    /// The handles the supervisor holds, as a set: one element or none.
    pub open spec fn held(self) -> Set<u32> {
        match self.process {
            Some(handle) => set![handle],
            None => Set::empty(),
        }
    }

    /// What holds of every supervisor that requests and reports can lead to:
    /// a signal or a reap is aimed at the process held, a spawn is owed only
    /// when none is held, and each pause belongs to the operation it ends.
    pub open spec fn wf(self) -> bool {
        match self.stage {
            Stage::Settled => true,
            Stage::Busy { goal, pending } => match pending {
                Action::Announce => goal is Start,
                Action::Kill(handle) => self.process == Some(handle),
                Action::Reap(handle) => self.process == Some(handle),
                Action::Spawn => self.process is None && goal is Start,
                Action::Pause(ms) => if goal is Start {
                    ms == SETTLE_DELAY_MS && self.process is Some
                } else {
                    ms == RELEASE_DELAY_MS && self.process is None
                },
            },
            Stage::Halted(failure) => match failure {
                Failure::Spawn => self.process is None,
                _ => self.process is Some,
            },
        }
    }
}

/// Owns the handle of at most one child process and the command it runs.
#[derive(Debug)]
pub struct ProcessSupervisor {
    command: CommandSpec,
    process: Option<u32>,
    stage: Stage,
}

impl View for ProcessSupervisor {
    type V = SupervisorView;

    closed spec fn view(&self) -> SupervisorView {
        SupervisorView { command: self.command@, process: self.process, stage: self.stage }
    }
}

impl ProcessSupervisor {
    /// A supervisor for `command`, holding no process.
    pub fn new(command: CommandSpec) -> (made: ProcessSupervisor)
        ensures
            made@ == SupervisorView::initial(command@),
    {
        ProcessSupervisor { command, process: None, stage: Stage::Settled }
    }

    /// The command this supervisor was made for.
    pub fn command(&self) -> (command: &CommandSpec)
        ensures
            command@ == self@.command,
    {
        &self.command
    }

    /// The handle of the process held, if any.
    pub fn process(&self) -> (process: Option<u32>)
        ensures
            process == self@.process,
    {
        self.process
    }

    pub fn stage(&self) -> (stage: Stage)
        ensures
            stage == self@.stage,
    {
        self.stage
    }

    /// Whether no operation is in flight.
    pub fn is_settled(&self) -> (settled: bool)
        ensures
            settled == self@.settled(),
    {
        match self.stage {
            Stage::Settled => true,
            _ => false,
        }
    }

    /// Begins launching the command. While an operation is in flight, or after
    /// a halt, the request changes nothing.
    pub fn start(&mut self) -> (stage: Stage)
        ensures
            final(self)@ == old(self)@.start(),
            stage == final(self)@.stage,
    {
        if self.is_settled() {
            self.stage = Stage::Busy { goal: Operation::Start, pending: Action::Announce };
        }
        self.stage
    }

    /// Begins stopping the process held. Without one there is nothing to do:
    /// the supervisor stays as it is and owes no action.
    pub fn stop(&mut self) -> (stage: Stage)
        ensures
            final(self)@ == old(self)@.stop(),
            stage == final(self)@.stage,
            old(self)@.process is None ==> final(self)@ == old(self)@,
    {
        match (self.stage, self.process) {
            (Stage::Settled, Some(handle)) => {
                self.stage = Stage::Busy { goal: Operation::Stop, pending: Action::Kill(handle) };
            },
            _ => {},
        }
        self.stage
    }

    /// Begins a stop followed by a start of the same command.
    pub fn restart(&mut self) -> (stage: Stage)
        ensures
            final(self)@ == old(self)@.restart(),
            stage == final(self)@.stage,
    {
        match (self.stage, self.process) {
            (Stage::Settled, Some(handle)) => {
                self.stage = Stage::Busy { goal: Operation::Restart, pending: Action::Kill(handle) };
            },
            (Stage::Settled, None) => {
                self.stage = Stage::Busy { goal: Operation::Start, pending: Action::Announce };
            },
            _ => {},
        }
        self.stage
    }

    /// Takes the outcome of the action owed and says where that leaves the
    /// supervisor.
    pub fn resume(&mut self, outcome: Outcome) -> (stage: Stage)
        ensures
            final(self)@ == old(self)@.resume(outcome),
            stage == final(self)@.stage,
    {
        if let Stage::Busy { goal, pending } = self.stage {
            match pending {
                Action::Announce => {
                    self.stage = match self.process {
                        Some(handle) => Stage::Busy { goal, pending: Action::Kill(handle) },
                        None => Stage::Busy { goal, pending: Action::Spawn },
                    };
                },
                Action::Kill(handle) => {
                    self.stage = match outcome {
                        Outcome::Done => Stage::Busy { goal, pending: Action::Reap(handle) },
                        _ => Stage::Halted(Failure::Signal),
                    };
                },
                Action::Reap(_) => match outcome {
                    Outcome::Done => {
                        self.process = None;
                        self.stage = match goal {
                            Operation::Start => Stage::Busy { goal, pending: Action::Spawn },
                            _ => Stage::Busy { goal, pending: Action::Pause(RELEASE_DELAY_MS) },
                        };
                    },
                    _ => {
                        self.stage = Stage::Halted(Failure::Reap);
                    },
                },
                Action::Spawn => match outcome {
                    Outcome::Spawned(handle) => {
                        self.process = Some(handle);
                        self.stage = Stage::Busy { goal, pending: Action::Pause(SETTLE_DELAY_MS) };
                    },
                    _ => {
                        self.stage = Stage::Halted(Failure::Spawn);
                    },
                },
                Action::Pause(_) => {
                    self.stage = match goal {
                        Operation::Restart => Stage::Busy {
                            goal: Operation::Start,
                            pending: Action::Announce,
                        },
                        _ => Stage::Settled,
                    };
                },
            }
        }
        self.stage
    }
}

} // verus!
