//! What runs of the watch loop look like, and which processes exist during
//! them. Every theorem here is about the loop as `step` defines it, for every
//! answer the driver may give.

use vstd::prelude::*;
use crate::supervisor::{Action, Failure, Outcome, SupervisorView, RELEASE_DELAY_MS, SETTLE_DELAY_MS};
use crate::termination::Termination;
use crate::watch_loop::{Directive, Event, Phase, WatchConfig, WatchLoopView};
use crate::world::alive_after;

verus! {

/// A watch loop and the processes alive beside it.
pub struct Session {
    pub watch: WatchLoopView,
    pub alive: Set<u32>,
}

impl Session {
    /// A loop at its beginning in a world without processes.
    pub open spec fn initial(command: Seq<Seq<char>>) -> Session {
        Session { watch: WatchLoopView::initial(command), alive: Set::empty() }
    }

    /// The loop is well formed and the processes alive are exactly the ones its
    /// supervisor holds.
    pub open spec fn consistent(self) -> bool {
        self.watch.wf() && self.alive == self.watch.supervisor.held()
    }

    /// The session after `event`. The world changes only when the driver has
    /// carried out an action that the loop had asked for.
    pub open spec fn take(self, event: Event) -> Session {
        Session {
            watch: self.watch.step(event),
            alive: match (self.watch.ended, event, self.watch.owed()) {
                (None, Event::Performed(outcome), Directive::Supervise(action)) => alive_after(
                    self.alive,
                    action,
                    outcome,
                ),
                _ => self.alive,
            },
        }
    }

    /// The session after `events`, taken in order.
    pub open spec fn take_all(self, events: Seq<Event>) -> Session
        decreases events.len(),
    {
        if events.len() == 0 {
            self
        } else {
            self.take_all(events.drop_last()).take(events.last())
        }
    }
}

/// Whatever the driver reports, the processes alive stay exactly the ones the
/// supervisor holds.
pub proof fn lemma_session_stays_consistent(session: Session, event: Event)
    requires
        session.consistent(),
    ensures
        session.take(event).consistent(),
{
    let next = session.take(event);
    assert(next.alive =~= next.watch.supervisor.held());
}

/// Through any events in any order, restarts and failures included, there are
/// never two processes alive; and while the loop is subscribing or waiting for
/// a change there is exactly one.
pub proof fn lemma_one_process_at_a_time(command: Seq<Seq<char>>, events: Seq<Event>)
    ensures
        ({
            let now = Session::initial(command).take_all(events);
            &&& now.consistent()
            &&& now.alive.finite()
            &&& now.alive.len() <= 1
            &&& now.watch.phase() is Subscribing || now.watch.phase() is Running
                ==> now.alive.len() == 1
            &&& now.watch.supervisor.command == command
        }),
    decreases events.len(),
{
    let first = Session::initial(command);
    if events.len() == 0 {
        assert(first.alive =~= first.watch.supervisor.held());
    } else {
        lemma_one_process_at_a_time(command, events.drop_last());
        lemma_session_stays_consistent(first.take_all(events.drop_last()), events.last());
    }
    crate::world::lemma_one_held_at_most(first.take_all(events).watch.supervisor);
}

/// A launch that is refused nothing: the command is announced, spawned and
/// given time to settle, and only then is the subscription asked for; once it
/// stands the loop waits for a change, holding the process spawned.
pub proof fn lemma_launch(command: Seq<Seq<char>>, handle: u32)
    ensures
        ({
            let announcing = WatchLoopView::initial(command);
            let spawning = announcing.step(Event::Performed(Outcome::Done));
            let settling = spawning.step(Event::Performed(Outcome::Spawned(handle)));
            let subscribing = settling.step(Event::Performed(Outcome::Done));
            let running = subscribing.step(Event::Subscribed);
            &&& announcing.owed() == Directive::Supervise(Action::Announce)
            &&& spawning.owed() == Directive::Supervise(Action::Spawn)
            &&& settling.owed() == Directive::Supervise(Action::Pause(SETTLE_DELAY_MS))
            &&& subscribing.owed() == Directive::Subscribe(WatchConfig::standard())
            &&& running.owed() == Directive::AwaitChange
            &&& running == WatchLoopView {
                supervisor: SupervisorView {
                    process: Some(handle),
                    ..SupervisorView::initial(command)
                },
                subscribed: true,
                ended: None,
            }
        }),
{
}

/// One change is one restart cycle, however many raw notifications went into
/// it: the process held is signalled, reaped and given time to let go, then the
/// same command is announced, spawned and given time to settle, and the loop
/// waits again, holding the new process. Nothing else is asked of the driver
/// in between.
pub proof fn lemma_one_change_one_cycle(running: WatchLoopView, burst: usize, handle: u32)
    requires
        running.wf(),
        running.phase() is Running,
    ensures
        ({
            let old_handle = running.supervisor.process->0;
            let killing = running.step(Event::Changed(burst));
            let reaping = killing.step(Event::Performed(Outcome::Done));
            let releasing = reaping.step(Event::Performed(Outcome::Done));
            let announcing = releasing.step(Event::Performed(Outcome::Done));
            let spawning = announcing.step(Event::Performed(Outcome::Done));
            let settling = spawning.step(Event::Performed(Outcome::Spawned(handle)));
            let again = settling.step(Event::Performed(Outcome::Done));
            &&& running.supervisor.process is Some
            &&& killing == running.step(Event::Changed(1))
            &&& killing.owed() == Directive::Supervise(Action::Kill(old_handle))
            &&& reaping.owed() == Directive::Supervise(Action::Reap(old_handle))
            &&& releasing.owed() == Directive::Supervise(Action::Pause(RELEASE_DELAY_MS))
            &&& announcing.owed() == Directive::Supervise(Action::Announce)
            &&& spawning.owed() == Directive::Supervise(Action::Spawn)
            &&& settling.owed() == Directive::Supervise(Action::Pause(SETTLE_DELAY_MS))
            &&& again.owed() == Directive::AwaitChange
            &&& again == WatchLoopView {
                supervisor: SupervisorView { process: Some(handle), ..running.supervisor },
                ..running
            }
        }),
{
}

/// While a restart is in flight the loop does not listen: a change, or any
/// other word from the watch, leaves it as it is.
pub proof fn lemma_cycles_do_not_overlap(watch: WatchLoopView, event: Event)
    requires
        watch.phase() is Restarting || watch.phase() is Launching,
        event is Changed || event is Subscribed || event is WatchFailed,
    ensures
        watch.step(event) == watch,
{
}

/// An interrupt ends the program at once, from wherever the loop stands, with
/// status zero, and asks nothing of the supervisor.
pub proof fn lemma_interrupt_ends_the_program(watch: WatchLoopView)
    requires
        watch.ended is None,
    ensures
        watch.step(Event::Interrupted) == watch.ended_with(Termination::Interrupted),
        watch.step(Event::Interrupted).owed() == Directive::Exit(Termination::Interrupted),
        watch.step(Event::Interrupted).phase() is Terminated,
        watch.step(Event::Interrupted).supervisor == watch.supervisor,
        Termination::Interrupted.status() == 0,
{
}

/// A failure of the watch ends the program with status one, whether it comes
/// while subscribing or while waiting for a change.
pub proof fn lemma_watch_failure_ends_the_program(watch: WatchLoopView)
    requires
        watch.phase() is Subscribing || watch.phase() is Running,
    ensures
        watch.step(Event::WatchFailed).owed() == Directive::Exit(Termination::WatchFailure),
        watch.step(Event::WatchFailed).supervisor == watch.supervisor,
        Termination::WatchFailure.status() == 1,
{
}

/// Any refusal by the operating system ends the program with a status other
/// than zero.
pub proof fn lemma_refusal_ends_the_program(watch: WatchLoopView, action: Action)
    requires
        watch.ended is None,
        watch.owed() == Directive::Supervise(action),
        action is Kill || action is Reap || action is Spawn,
    ensures
        ({
            let failure = match action {
                Action::Kill(_) => Failure::Signal,
                Action::Reap(_) => Failure::Reap,
                _ => Failure::Spawn,
            };
            let ended = watch.step(Event::Performed(Outcome::Refused));
            &&& ended.owed() == Directive::Exit(Termination::SupervisorFailure(failure))
            &&& ended.supervisor.process == watch.supervisor.process
            &&& ended.subscribed == watch.subscribed
            &&& Termination::SupervisorFailure(failure).status() != 0
        }),
{
}

/// Once the program ends, nothing moves any more: whatever events follow, the
/// loop stays as it is and the directive in force is the same exit.
pub proof fn lemma_the_end_is_final(watch: WatchLoopView, events: Seq<Event>)
    requires
        watch.ended is Some,
    ensures
        watch.run(events) == watch,
        watch.run(events).owed() == Directive::Exit(watch.ended->0),
    decreases events.len(),
{
    if events.len() > 0 {
        lemma_the_end_is_final(watch, events.drop_last());
    }
}

/// A command that cannot be spawned ends the program during the launch, with
/// a status other than zero, and no subscription is ever asked for or noted,
/// whatever events follow.
pub proof fn lemma_failed_launch_never_subscribes(
    command: Seq<Seq<char>>,
    outcome: Outcome,
    events: Seq<Event>,
)
    requires
        !(outcome is Spawned),
    ensures
        ({
            let announcing = WatchLoopView::initial(command);
            let spawning = announcing.step(Event::Performed(Outcome::Done));
            let failed = spawning.step(Event::Performed(outcome));
            let later = failed.run(events);
            &&& announcing.owed() == Directive::Supervise(Action::Announce)
            &&& spawning.owed() == Directive::Supervise(Action::Spawn)
            &&& failed.owed() == Directive::Exit(Termination::SupervisorFailure(Failure::Spawn))
            &&& later.owed() == Directive::Exit(Termination::SupervisorFailure(Failure::Spawn))
            &&& !later.subscribed
            &&& later.supervisor.process is None
            &&& Termination::SupervisorFailure(Failure::Spawn).status() != 0
        }),
{
    let failed = WatchLoopView::initial(command).step(Event::Performed(Outcome::Done)).step(
        Event::Performed(outcome),
    );
    lemma_the_end_is_final(failed, events);
}

} // verus!
