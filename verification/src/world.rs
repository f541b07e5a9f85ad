//! The supervisor together with the processes that exist because of it.
//!
//! A process exists from the moment a spawn succeeds until the moment a reap
//! succeeds; a signal alone does not make it go away. The theorems here are
//! about every run of the supervisor, whatever the operating system answers.

use vstd::prelude::*;
use crate::supervisor::{Action, Operation, Outcome, Stage, SupervisorView};

verus! {

/// The processes that exist once `action` has met with `outcome`.
pub open spec fn alive_after(alive: Set<u32>, action: Action, outcome: Outcome) -> Set<u32> {
    match (action, outcome) {
        (Action::Spawn, Outcome::Spawned(handle)) => alive.insert(handle),
        (Action::Reap(handle), Outcome::Done) => alive.remove(handle),
        _ => alive,
    }
}

/// The outcome of `action` when the operating system refuses nothing; a spawn
/// then yields `handle`.
pub open spec fn granted(action: Action, handle: u32) -> Outcome {
    match action {
        Action::Spawn => Outcome::Spawned(handle),
        _ => Outcome::Done,
    }
}

/// Something that happens to a supervisor.
pub enum Input {
    /// Its owner asks for an operation.
    Request(Operation),
    /// Its driver reports on the action owed.
    Report(Outcome),
}

/// A supervisor and the processes alive beside it.
pub struct Scene {
    pub supervisor: SupervisorView,
    pub alive: Set<u32>,
}

impl Scene {
    /// A new supervisor in a world without processes.
    pub open spec fn initial(command: Seq<Seq<char>>) -> Scene {
        Scene { supervisor: SupervisorView::initial(command), alive: Set::empty() }
    }

    /// The processes alive are exactly the ones the supervisor holds.
    pub open spec fn consistent(self) -> bool {
        self.supervisor.wf() && self.alive == self.supervisor.held()
    }

    pub open spec fn request(self, operation: Operation) -> Scene {
        Scene {
            supervisor: match operation {
                Operation::Start => self.supervisor.start(),
                Operation::Stop => self.supervisor.stop(),
                Operation::Restart => self.supervisor.restart(),
            },
            ..self
        }
    }

    pub open spec fn report(self, outcome: Outcome) -> Scene {
        Scene {
            supervisor: self.supervisor.resume(outcome),
            alive: match self.supervisor.stage {
                Stage::Busy { pending, .. } => alive_after(self.alive, pending, outcome),
                _ => self.alive,
            },
        }
    }

    pub open spec fn take(self, input: Input) -> Scene {
        match input {
            Input::Request(operation) => self.request(operation),
            Input::Report(outcome) => self.report(outcome),
        }
    }

    /// The scene after `inputs`, taken in order.
    pub open spec fn take_all(self, inputs: Seq<Input>) -> Scene
        decreases inputs.len(),
    {
        if inputs.len() == 0 {
            self
        } else {
            self.take_all(inputs.drop_last()).take(inputs.last())
        }
    }

    /// The scene after up to `steps` actions, each granted, every spawn
    /// yielding `handle`; it stops early where no action is owed.
    pub open spec fn carry_out(self, handle: u32, steps: nat) -> Scene
        decreases steps,
    {
        match self.supervisor.stage {
            Stage::Busy { pending, .. } if steps > 0 => self.report(granted(pending, handle)).carry_out(
                handle,
                (steps - 1) as nat,
            ),
            _ => self,
        }
    }
}

/// Whatever is asked or reported, the processes alive stay exactly the ones
/// held.
pub proof fn lemma_consistency_is_kept(scene: Scene, input: Input)
    requires
        scene.consistent(),
    ensures
        scene.take(input).consistent(),
{
    let next = scene.take(input);
    assert(next.alive =~= next.supervisor.held());
}

/// From its making on, through any requests and reports in any order, a
/// supervisor's world holds the process it holds and no other: never two.
pub proof fn lemma_never_two_alive(command: Seq<Seq<char>>, inputs: Seq<Input>)
    ensures
        Scene::initial(command).take_all(inputs).consistent(),
        Scene::initial(command).take_all(inputs).alive.finite(),
        Scene::initial(command).take_all(inputs).alive.len() <= 1,
    decreases inputs.len(),
{
    let first = Scene::initial(command);
    if inputs.len() == 0 {
        assert(first.alive =~= first.supervisor.held());
    } else {
        lemma_never_two_alive(command, inputs.drop_last());
        lemma_consistency_is_kept(first.take_all(inputs.drop_last()), inputs.last());
    }
    lemma_one_held_at_most(first.take_all(inputs).supervisor);
}

/// A supervisor holds one handle or none.
pub proof fn lemma_one_held_at_most(supervisor: SupervisorView)
    ensures
        supervisor.held().finite(),
        supervisor.held().len() == if supervisor.process is Some { 1nat } else { 0nat },
{
}

/// A start that is refused nothing ends, within five actions, with the
/// supervisor settled and holding the process spawned, which is then the only
/// one alive.
pub proof fn lemma_start_holds_one(scene: Scene, handle: u32)
    requires
        scene.consistent(),
        scene.supervisor.settled(),
    ensures
        ({
            let end = scene.request(Operation::Start).carry_out(handle, 5);
            &&& end.supervisor == SupervisorView {
                process: Some(handle),
                ..scene.supervisor
            }
            &&& end.alive == set![handle]
        }),
{
    reveal_with_fuel(Scene::carry_out, 6);
    let end = scene.request(Operation::Start).carry_out(handle, 5);
    assert(end.alive =~= set![handle]);
}

/// A stop that is refused nothing ends, within three actions, with the
/// supervisor settled and holding nothing, and with no process alive.
pub proof fn lemma_stop_holds_none(scene: Scene, handle: u32)
    requires
        scene.consistent(),
        scene.supervisor.settled(),
    ensures
        ({
            let end = scene.request(Operation::Stop).carry_out(handle, 3);
            &&& end.supervisor == SupervisorView { process: None, ..scene.supervisor }
            &&& end.alive == Set::<u32>::empty()
        }),
{
    reveal_with_fuel(Scene::carry_out, 4);
    let end = scene.request(Operation::Stop).carry_out(handle, 3);
    assert(end.alive =~= Set::<u32>::empty());
}

/// A restart that is refused nothing ends where a stop followed by a start
/// ends.
pub proof fn lemma_restart_is_stop_then_start(scene: Scene, handle: u32)
    requires
        scene.consistent(),
        scene.supervisor.settled(),
    ensures
        scene.request(Operation::Restart).carry_out(handle, 6) == scene.request(
            Operation::Stop,
        ).carry_out(handle, 3).request(Operation::Start).carry_out(handle, 5),
{
    reveal_with_fuel(Scene::carry_out, 7);
    let whole = scene.request(Operation::Restart).carry_out(handle, 6);
    let parts = scene.request(Operation::Stop).carry_out(handle, 3).request(
        Operation::Start,
    ).carry_out(handle, 5);
    assert(whole.alive =~= parts.alive);
}

/// Stopping a supervisor that holds no process changes nothing and owes
/// nothing new.
pub proof fn lemma_stop_without_process(supervisor: SupervisorView)
    requires
        supervisor.process is None,
    ensures
        supervisor.stop() == supervisor,
{
}

/// The command is the one the supervisor was made with, whatever happens.
pub proof fn lemma_command_is_kept(scene: Scene, input: Input)
    ensures
        scene.take(input).supervisor.command == scene.supervisor.command,
{
}

/// A halted supervisor stays as it is: nothing is retried.
pub proof fn lemma_halt_is_final(scene: Scene, input: Input)
    requires
        scene.supervisor.stage is Halted,
    ensures
        scene.take(input) == scene,
{
}

} // verus!
