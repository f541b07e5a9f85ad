use dirwatch::command::CommandSpec;
use dirwatch::supervisor::{Action, Failure, Outcome};
use dirwatch::termination::Termination;
use dirwatch::watch_loop::{
    Directive, Event, Phase, WatchConfig, WatchLoop, DEBOUNCE_MS, POLL_INTERVAL_MS,
};

fn loop_for(list: &[&str]) -> WatchLoop {
    let words: Vec<String> = list.iter().map(|word| word.to_string()).collect();
    WatchLoop::new(CommandSpec::new(words).unwrap())
}

/// A driver without an operating system: it numbers the processes it spawns,
/// keeps the set of those alive and counts the launches.
struct World {
    next_handle: u32,
    alive: Vec<u32>,
    launches: u32,
    subscriptions: u32,
}

impl World {
    fn new() -> World {
        World { next_handle: 0, alive: Vec::new(), launches: 0, subscriptions: 0 }
    }

    fn perform(&mut self, action: Action) -> Outcome {
        match action {
            Action::Spawn => {
                self.next_handle += 1;
                self.launches += 1;
                self.alive.push(self.next_handle);
                Outcome::Spawned(self.next_handle)
            }
            Action::Reap(handle) => {
                self.alive.retain(|other| *other != handle);
                Outcome::Done
            }
            _ => Outcome::Done,
        }
    }

    /// Carries out directives until the loop waits for a change or ends.
    fn run_until_waiting(&mut self, watch: &mut WatchLoop) -> Vec<Directive> {
        let mut seen = Vec::new();
        loop {
            let directive = watch.directive();
            seen.push(directive);
            let event = match directive {
                Directive::Supervise(action) => Event::Performed(self.perform(action)),
                Directive::Subscribe(_) => {
                    self.subscriptions += 1;
                    Event::Subscribed
                }
                Directive::AwaitChange | Directive::Exit(_) => return seen,
            };
            watch.step(event);
            assert!(self.alive.len() <= 1);
            assert!(seen.len() <= 16);
        }
    }
}

fn running_loop(world: &mut World) -> WatchLoop {
    let mut watch = loop_for(&["server"]);
    world.run_until_waiting(&mut watch);
    assert_eq!(watch.phase(), Phase::Running);
    watch
}

#[test]
fn the_watch_is_polled_and_debounced_by_the_second() {
    assert_eq!(POLL_INTERVAL_MS, 1000);
    assert_eq!(DEBOUNCE_MS, 1000);
    assert_eq!(
        WatchLoop::config(),
        WatchConfig { poll_interval_ms: 1000, debounce_ms: 1000, recursive: true }
    );
}

#[test]
fn the_launch_comes_before_the_subscription() {
    let mut watch = loop_for(&["server", "--verbose"]);
    assert_eq!(watch.phase(), Phase::Launching);
    assert_eq!(watch.directive(), Directive::Supervise(Action::Announce));
    assert_eq!(
        watch.step(Event::Performed(Outcome::Done)),
        Directive::Supervise(Action::Spawn)
    );
    assert_eq!(
        watch.step(Event::Performed(Outcome::Spawned(31))),
        Directive::Supervise(Action::Pause(100))
    );
    assert_eq!(watch.phase(), Phase::Launching);
    assert_eq!(
        watch.step(Event::Performed(Outcome::Done)),
        Directive::Subscribe(WatchConfig {
            poll_interval_ms: 1000,
            debounce_ms: 1000,
            recursive: true
        })
    );
    assert_eq!(watch.phase(), Phase::Subscribing);
    assert_eq!(watch.step(Event::Subscribed), Directive::AwaitChange);
    assert_eq!(watch.phase(), Phase::Running);
    assert_eq!(watch.supervisor().process(), Some(31));
    assert_eq!(watch.supervisor().command().command_line(), "server --verbose ");
    assert_eq!(watch.termination(), None);
}

#[test]
fn one_change_is_one_restart_cycle() {
    for burst in [1usize, 2, 40, usize::MAX] {
        let mut world = World::new();
        let mut watch = running_loop(&mut world);
        assert_eq!(
            watch.step(Event::Changed(burst)),
            Directive::Supervise(Action::Kill(1))
        );
        assert_eq!(watch.phase(), Phase::Restarting);
        let directives = world.run_until_waiting(&mut watch);
        assert_eq!(
            directives,
            vec![
                Directive::Supervise(Action::Kill(1)),
                Directive::Supervise(Action::Reap(1)),
                Directive::Supervise(Action::Pause(500)),
                Directive::Supervise(Action::Announce),
                Directive::Supervise(Action::Spawn),
                Directive::Supervise(Action::Pause(100)),
                Directive::AwaitChange,
            ]
        );
        assert_eq!(world.launches, 2);
        assert_eq!(world.subscriptions, 1);
        assert_eq!(watch.supervisor().process(), Some(2));
    }
}

#[test]
fn three_changes_make_four_launches() {
    let mut world = World::new();
    let mut watch = running_loop(&mut world);
    assert_eq!(world.launches, 1);
    for round in 1..=3u32 {
        watch.step(Event::Changed(1));
        world.run_until_waiting(&mut watch);
        assert_eq!(watch.phase(), Phase::Running);
        assert_eq!(world.alive, vec![round + 1]);
    }
    assert_eq!(world.launches, 4);
    assert_eq!(world.subscriptions, 1);
    assert_eq!(watch.supervisor().process(), Some(4));
}

#[test]
fn a_restart_in_flight_does_not_listen() {
    let mut world = World::new();
    let mut watch = running_loop(&mut world);
    let killing = watch.step(Event::Changed(3));
    assert_eq!(watch.step(Event::Changed(3)), killing);
    assert_eq!(watch.step(Event::Subscribed), killing);
    assert_eq!(watch.step(Event::WatchFailed), killing);
    assert_eq!(watch.phase(), Phase::Restarting);
    world.run_until_waiting(&mut watch);
    assert_eq!(world.launches, 2);
}

#[test]
fn a_report_nobody_waits_for_changes_nothing() {
    let mut world = World::new();
    let mut watch = running_loop(&mut world);
    assert_eq!(watch.step(Event::Performed(Outcome::Spawned(77))), Directive::AwaitChange);
    assert_eq!(watch.step(Event::Subscribed), Directive::AwaitChange);
    assert_eq!(watch.supervisor().process(), Some(1));
    assert_eq!(watch.phase(), Phase::Running);
}

#[test]
fn an_interrupt_while_waiting_ends_with_status_zero() {
    let mut world = World::new();
    let mut watch = running_loop(&mut world);
    assert_eq!(watch.step(Event::Interrupted), Directive::Exit(Termination::Interrupted));
    assert_eq!(watch.phase(), Phase::Terminated);
    assert_eq!(watch.termination(), Some(Termination::Interrupted));
    assert_eq!(Termination::Interrupted.exit_code(), 0);
    assert_eq!(watch.supervisor().process(), Some(1));
    assert_eq!(world.alive, vec![1]);
}

#[test]
fn an_interrupt_during_a_restart_ends_at_once() {
    let mut world = World::new();
    let mut watch = running_loop(&mut world);
    watch.step(Event::Changed(1));
    watch.step(Event::Performed(Outcome::Done));
    assert_eq!(watch.step(Event::Interrupted), Directive::Exit(Termination::Interrupted));
    assert_eq!(
        watch.step(Event::Performed(Outcome::Done)),
        Directive::Exit(Termination::Interrupted)
    );
    assert_eq!(watch.supervisor().process(), Some(1));
}

#[test]
fn an_interrupt_during_the_launch_ends_at_once() {
    let mut watch = loop_for(&["server"]);
    assert_eq!(watch.step(Event::Interrupted), Directive::Exit(Termination::Interrupted));
    assert_eq!(watch.supervisor().process(), None);
}

#[test]
fn a_command_that_cannot_be_spawned_never_subscribes() {
    let mut watch = loop_for(&["no-such-program"]);
    assert_eq!(
        watch.step(Event::Performed(Outcome::Done)),
        Directive::Supervise(Action::Spawn)
    );
    let exit = Directive::Exit(Termination::SupervisorFailure(Failure::Spawn));
    assert_eq!(watch.step(Event::Performed(Outcome::Refused)), exit);
    assert_eq!(watch.phase(), Phase::Terminated);
    assert_ne!(Termination::SupervisorFailure(Failure::Spawn).exit_code(), 0);
    for event in [
        Event::Performed(Outcome::Done),
        Event::Performed(Outcome::Spawned(1)),
        Event::Subscribed,
        Event::Changed(1),
        Event::WatchFailed,
        Event::Interrupted,
    ] {
        assert_eq!(watch.step(event), exit);
    }
    assert_eq!(watch.supervisor().process(), None);
}

#[test]
fn a_watch_that_cannot_be_set_up_ends_with_status_one() {
    let mut watch = loop_for(&["server"]);
    watch.step(Event::Performed(Outcome::Done));
    watch.step(Event::Performed(Outcome::Spawned(8)));
    watch.step(Event::Performed(Outcome::Done));
    assert_eq!(watch.phase(), Phase::Subscribing);
    assert_eq!(watch.step(Event::WatchFailed), Directive::Exit(Termination::WatchFailure));
    assert_eq!(Termination::WatchFailure.exit_code(), 1);
}

#[test]
fn a_watch_that_fails_later_ends_with_status_one() {
    let mut world = World::new();
    let mut watch = running_loop(&mut world);
    assert_eq!(watch.step(Event::WatchFailed), Directive::Exit(Termination::WatchFailure));
    assert_eq!(watch.termination(), Some(Termination::WatchFailure));
    assert_eq!(watch.step(Event::Changed(1)), Directive::Exit(Termination::WatchFailure));
    assert_eq!(watch.supervisor().process(), Some(1));
}

#[test]
fn a_refused_signal_during_a_restart_ends_the_program() {
    let mut world = World::new();
    let mut watch = running_loop(&mut world);
    watch.step(Event::Changed(1));
    assert_eq!(
        watch.step(Event::Performed(Outcome::Refused)),
        Directive::Exit(Termination::SupervisorFailure(Failure::Signal))
    );
    assert_eq!(watch.termination(), Some(Termination::SupervisorFailure(Failure::Signal)));
}

#[test]
fn a_refused_wait_during_a_restart_ends_the_program() {
    let mut world = World::new();
    let mut watch = running_loop(&mut world);
    watch.step(Event::Changed(1));
    watch.step(Event::Performed(Outcome::Done));
    assert_eq!(
        watch.step(Event::Performed(Outcome::Refused)),
        Directive::Exit(Termination::SupervisorFailure(Failure::Reap))
    );
    assert_eq!(Termination::SupervisorFailure(Failure::Reap).exit_code(), 101);
}

#[test]
fn a_refused_spawn_during_a_restart_ends_the_program() {
    let mut world = World::new();
    let mut watch = running_loop(&mut world);
    watch.step(Event::Changed(1));
    for _ in 0..4 {
        watch.step(Event::Performed(Outcome::Done));
    }
    assert_eq!(watch.directive(), Directive::Supervise(Action::Spawn));
    assert_eq!(
        watch.step(Event::Performed(Outcome::Refused)),
        Directive::Exit(Termination::SupervisorFailure(Failure::Spawn))
    );
    assert_eq!(watch.supervisor().process(), None);
}
