//! The watch loop: launch the command, subscribe to changes of the watched
//! tree, and run one restart cycle for every change, until the program ends.
//!
//! The loop owes its driver exactly one [`Directive`] at any time. The driver
//! carries it out and answers with an [`Event`]; `step` takes the event and
//! hands out the next directive. An event that answers nothing the loop is
//! waiting for changes nothing.

use vstd::prelude::*;
use crate::command::CommandSpec;
use crate::supervisor::{Action, Failure, Outcome, ProcessSupervisor, Stage, SupervisorView};
use crate::termination::Termination;

verus! {

/// How often the backend scans the watched tree, in milliseconds.
pub const POLL_INTERVAL_MS: u64 = 1000;

/// The window within which a burst of raw events becomes one change, in
/// milliseconds.
pub const DEBOUNCE_MS: u64 = 1000;

/// How the subscription to changes is set up. Its root is the current working
/// directory.
#[derive(Clone, Copy, Debug, PartialEq, Eq, Structural)]
pub struct WatchConfig {
    pub poll_interval_ms: u64,
    pub debounce_ms: u64,
    pub recursive: bool,
}

impl WatchConfig {
    /// The one configuration in use: a scan every second, a debounce window
    /// of a second, the whole tree.
    pub open spec fn standard() -> WatchConfig {
        WatchConfig {
            poll_interval_ms: POLL_INTERVAL_MS,
            debounce_ms: DEBOUNCE_MS,
            recursive: true,
        }
    }
}

/// What the driver reports to the loop.
#[derive(Clone, Copy, Debug, PartialEq, Eq, Structural)]
pub enum Event {
    /// The supervisor's action met with this outcome.
    Performed(Outcome),
    /// The subscription stands.
    Subscribed,
    /// The watched tree changed. One such event stands for one debounced
    /// batch; the number says how many raw notifications the batch holds, and
    /// the loop does not look at it.
    Changed(usize),
    /// The source of changes failed, while subscribing or later.
    WatchFailed,
    /// The user interrupted the program.
    Interrupted,
}

/// What the loop asks of the driver.
#[derive(Clone, Copy, Debug, PartialEq, Eq, Structural)]
pub enum Directive {
    /// Carry out this action for the supervisor and report `Performed`.
    Supervise(Action),
    /// Subscribe to changes and report `Subscribed` or `WatchFailed`.
    Subscribe(WatchConfig),
    /// Block until the next item of the subscription and report `Changed` or
    /// `WatchFailed`.
    AwaitChange,
    /// End the program.
    Exit(Termination),
}

/// Where the loop stands.
#[derive(Clone, Copy, Debug, PartialEq, Eq, Structural)]
pub enum Phase {
    /// The first start is in flight.
    Launching,
    /// The command runs; the subscription is being set up.
    Subscribing,
    /// The command runs; the loop waits for a change.
    Running,
    /// A change came in; the stop and start it calls for are in flight.
    Restarting,
    /// The program ends.
    Terminated,
}

/// A watch loop as a mathematical value.
pub struct WatchLoopView {
    pub supervisor: SupervisorView,
    pub subscribed: bool,
    pub ended: Option<Termination>,
}

impl WatchLoopView {
    /// A loop at its beginning: the supervisor has just been asked to start,
    /// nothing is subscribed.
    pub open spec fn initial(command: Seq<Seq<char>>) -> WatchLoopView {
        WatchLoopView {
            supervisor: SupervisorView::initial(command).start(),
            subscribed: false,
            ended: None,
        }
    }

    /// The directive in force.
    pub open spec fn owed(self) -> Directive {
        match self.ended {
            Some(termination) => Directive::Exit(termination),
            None => match self.supervisor.stage {
                Stage::Busy { pending, .. } => Directive::Supervise(pending),
                Stage::Halted(failure) => Directive::Exit(Termination::SupervisorFailure(failure)),
                Stage::Settled => if self.subscribed {
                    Directive::AwaitChange
                } else {
                    Directive::Subscribe(WatchConfig::standard())
                },
            },
        }
    }

    pub open spec fn phase(self) -> Phase {
        match self.owed() {
            Directive::Exit(_) => Phase::Terminated,
            Directive::Supervise(_) => if self.subscribed {
                Phase::Restarting
            } else {
                Phase::Launching
            },
            Directive::Subscribe(_) => Phase::Subscribing,
            Directive::AwaitChange => Phase::Running,
        }
    }

    /// The loop with its supervisor moved on; a supervisor that halts ends
    /// the program.
    pub open spec fn supervised(self, supervisor: SupervisorView) -> WatchLoopView {
        WatchLoopView {
            supervisor,
            ended: match supervisor.stage {
                Stage::Halted(failure) => Some(Termination::SupervisorFailure(failure)),
                _ => None,
            },
            ..self
        }
    }

    pub open spec fn ended_with(self, termination: Termination) -> WatchLoopView {
        WatchLoopView { ended: Some(termination), ..self }
    }

    /// The loop after `event`.
    ///
    /// Once the program ends nothing changes any more. Before that, an
    /// interrupt ends it at once and leaves the supervisor alone; an outcome
    /// moves a busy supervisor on; the subscription standing is noted; a change
    /// while running begins a restart; and a failure of the watch ends the
    /// program. A supervisor that is found halted ends it too.
    pub open spec fn step(self, event: Event) -> WatchLoopView {
        if self.ended is Some {
            self
        } else {
            match (event, self.owed()) {
                (Event::Interrupted, _) => self.ended_with(Termination::Interrupted),
                (Event::Performed(outcome), Directive::Supervise(_)) => self.supervised(
                    self.supervisor.resume(outcome),
                ),
                (Event::Subscribed, Directive::Subscribe(_)) => WatchLoopView {
                    subscribed: true,
                    ..self
                },
                (Event::Changed(_), Directive::AwaitChange) => self.supervised(
                    self.supervisor.restart(),
                ),
                (Event::WatchFailed, Directive::Subscribe(_))
                | (Event::WatchFailed, Directive::AwaitChange) => self.ended_with(
                    Termination::WatchFailure,
                ),
                (_, Directive::Exit(termination)) => self.ended_with(termination),
                _ => self,
            }
        }
    }

    /// The loop after `events`, taken in order.
    pub open spec fn run(self, events: Seq<Event>) -> WatchLoopView
        decreases events.len(),
    {
        if events.len() == 0 {
            self
        } else {
            self.run(events.drop_last()).step(events.last())
        }
    }

    /// What holds of every loop that events can lead to: the supervisor is
    /// never asked for a bare stop, holds a process whenever it is settled,
    /// and has halted exactly when the program ended for that reason; and the
    /// program ends only for a reason that a running loop can have.
    pub open spec fn wf(self) -> bool {
        &&& self.supervisor.wf()
        &&& self.supervisor.stage matches Stage::Busy { goal, .. } ==> !(goal is Stop)
        &&& self.supervisor.stage is Settled ==> self.supervisor.process is Some
        &&& forall|failure: Failure|
            self.supervisor.stage == Stage::Halted(failure) <==> self.ended == Some(
                Termination::SupervisorFailure(failure),
            )
        &&& self.ended matches Some(termination) ==> {
            ||| termination is WatchFailure
            ||| termination is Interrupted
            ||| termination is SupervisorFailure
        }
    }
}

/// Drives one supervisor from the launch of its command to the end of the
/// program.
#[derive(Debug)]
pub struct WatchLoop {
    supervisor: ProcessSupervisor,
    subscribed: bool,
    ended: Option<Termination>,
}

impl View for WatchLoop {
    type V = WatchLoopView;

    closed spec fn view(&self) -> WatchLoopView {
        WatchLoopView {
            supervisor: self.supervisor@,
            subscribed: self.subscribed,
            ended: self.ended,
        }
    }
}

impl WatchLoop {
    /// A loop for `command`, with the first start already asked for.
    pub fn new(command: CommandSpec) -> (made: WatchLoop)
        ensures
            made@ == WatchLoopView::initial(command@),
            made@.owed() == Directive::Supervise(Action::Announce),
    {
        let mut supervisor = ProcessSupervisor::new(command);
        supervisor.start();
        WatchLoop { supervisor, subscribed: false, ended: None }
    }

    /// The configuration every subscription is made with.
    pub fn config() -> (config: WatchConfig)
        ensures
            config == WatchConfig::standard(),
    {
        WatchConfig { poll_interval_ms: POLL_INTERVAL_MS, debounce_ms: DEBOUNCE_MS, recursive: true }
    }

    pub fn supervisor(&self) -> (supervisor: &ProcessSupervisor)
        ensures
            supervisor@ == self@.supervisor,
    {
        &self.supervisor
    }

    /// The directive in force: what the driver is to do now.
    pub fn directive(&self) -> (directive: Directive)
        ensures
            directive == self@.owed(),
    {
        match self.ended {
            Some(termination) => Directive::Exit(termination),
            None => match self.supervisor.stage() {
                Stage::Busy { goal: _, pending } => Directive::Supervise(pending),
                Stage::Halted(failure) => Directive::Exit(Termination::SupervisorFailure(failure)),
                Stage::Settled => if self.subscribed {
                    Directive::AwaitChange
                } else {
                    Directive::Subscribe(Self::config())
                },
            },
        }
    }

    pub fn phase(&self) -> (phase: Phase)
        ensures
            phase == self@.phase(),
    {
        match self.directive() {
            Directive::Exit(_) => Phase::Terminated,
            Directive::Supervise(_) => if self.subscribed {
                Phase::Restarting
            } else {
                Phase::Launching
            },
            Directive::Subscribe(_) => Phase::Subscribing,
            Directive::AwaitChange => Phase::Running,
        }
    }

    /// How the program ends, once it does.
    pub fn termination(&self) -> (ended: Option<Termination>)
        ensures
            ended == self@.ended,
    {
        self.ended
    }

    fn note_halt(&mut self)
        ensures
            final(self)@ == old(self)@.supervised(old(self)@.supervisor),
    {
        self.ended = match self.supervisor.stage() {
            Stage::Halted(failure) => Some(Termination::SupervisorFailure(failure)),
            _ => None,
        };
    }

    /// Takes `event` and hands out the directive that is in force after it.
    pub fn step(&mut self, event: Event) -> (directive: Directive)
        ensures
            final(self)@ == old(self)@.step(event),
            directive == final(self)@.owed(),
    {
        if self.ended.is_none() {
            match (event, self.directive()) {
                (Event::Interrupted, _) => {
                    self.ended = Some(Termination::Interrupted);
                },
                (Event::Performed(outcome), Directive::Supervise(_)) => {
                    self.supervisor.resume(outcome);
                    self.note_halt();
                },
                (Event::Subscribed, Directive::Subscribe(_)) => {
                    self.subscribed = true;
                },
                (Event::Changed(_), Directive::AwaitChange) => {
                    self.supervisor.restart();
                    self.note_halt();
                },
                (Event::WatchFailed, Directive::Subscribe(_))
                | (Event::WatchFailed, Directive::AwaitChange) => {
                    self.ended = Some(Termination::WatchFailure);
                },
                (_, Directive::Exit(termination)) => {
                    self.ended = Some(termination);
                },
                _ => {},
            }
        }
        self.directive()
    }
}

} // verus!
