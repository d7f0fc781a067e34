//! The sidecar supervisor: a one-shot start flag, the slot that owns the
//! child's handle, and the shutdown sequence.
//!
//! Every function here is sequential. The embedding application shares one
//! `ServerState` behind a lock and calls into it while holding that lock, so
//! the calls of concurrent requesters are applied one after another.
//!
//! The handle type `H` is whatever the process-spawning facility hands out.
//! The supervisor never looks inside a handle: it stores it, and hands it
//! back exactly once, to be killed.

use vstd::prelude::*;
use crate::platform::{sidecar_argv, sidecar_command, sweep_argv, sweep_command, CommandLine, Platform};

verus! {

/// How long, in milliseconds, a shutdown waits after killing the child.
pub const GRACE_PERIOD_MS: u64 = 3000;

/// The ownership slot: holds the handle of the live child, or nothing.
#[derive(Debug, PartialEq, Eq)]
pub struct ServerProcess<H>(pub Option<H>);

/// The supervisor's state, one per application.
///
/// `started` goes from `false` to `true` on the first start request and is
/// never reset. `child` is occupied only between a successful spawn and the
/// shutdown that takes the handle out.
#[derive(Debug, PartialEq, Eq)]
pub struct ServerState<H> {
    pub child: ServerProcess<H>,
    pub started: bool,
}

/// What a start request has to do.
#[derive(Clone, Copy, Debug, PartialEq, Eq, Structural)]
pub enum StartDecision {
    /// An earlier request has already set the start flag: nothing to do.
    AlreadyStarted,
    /// The start flag was clear but the slot holds a handle: nothing to do.
    SlotOccupied,
    /// This request is the one that spawns the sidecar.
    Spawn,
}

/// What a shutdown has to do: kill `kill` if there is one and then wait
/// `grace_ms` milliseconds, and run `sweep` at the end in any case.
/// `steps` gives the steps in their order.
#[derive(Debug, PartialEq, Eq)]
pub struct ShutdownPlan<H> {
    pub kill: Option<H>,
    pub grace_ms: u64,
    pub sweep: CommandLine,
}

/// One step of a shutdown.
#[derive(Debug, PartialEq, Eq)]
pub enum ShutdownStep<H> {
    /// Kill the child behind this handle, without waiting for its exit.
    Kill(H),
    /// Wait for this many milliseconds.
    Wait(u64),
    /// Run this command and ignore how it ends.
    Sweep(CommandLine),
}

/// The wait that follows a kill: the grace period if a handle was killed,
/// nothing otherwise.
pub open spec fn grace_after<H>(killed: Option<H>) -> u64 {
    if killed is Some {
        GRACE_PERIOD_MS
    } else {
        0
    }
}

impl<H> ShutdownPlan<H> {
    /// The steps of the plan in the order in which they are carried out:
    /// the kill and the wait after it, if there is a handle, then the sweep.
    pub open spec fn ordered_steps(self) -> Seq<ShutdownStep<H>> {
        match self.kill {
            Some(handle) => seq![
                ShutdownStep::Kill(handle),
                ShutdownStep::Wait(self.grace_ms),
                ShutdownStep::Sweep(self.sweep),
            ],
            None => seq![ShutdownStep::Sweep(self.sweep)],
        }
    }

    /// Returns the steps of the plan in the order in which they are to be
    /// carried out.
    pub fn steps(self) -> (steps: Vec<ShutdownStep<H>>)
        ensures
            steps@ == self.ordered_steps(),
    {
        let mut steps: Vec<ShutdownStep<H>> = Vec::new();
        match self.kill {
            Some(handle) => {
                steps.push(ShutdownStep::Kill(handle));
                steps.push(ShutdownStep::Wait(self.grace_ms));
            },
            None => {},
        }
        steps.push(ShutdownStep::Sweep(self.sweep));
        assert(steps@ =~= self.ordered_steps());
        steps
    }
}

/// In every plan the sweep is the last step and the only sweep, and a kill
/// is the first step and the only kill: the sweep never comes before the
/// kill of the owned handle.
pub proof fn lemma_kill_comes_before_sweep<H>(plan: ShutdownPlan<H>)
    ensures
        plan.ordered_steps().len() >= 1,
        plan.ordered_steps().last() == ShutdownStep::<H>::Sweep(plan.sweep),
        forall|i: int|
            0 <= i < plan.ordered_steps().len() && #[trigger] plan.ordered_steps()[i] is Sweep ==> i
                == plan.ordered_steps().len() - 1,
        forall|i: int|
            0 <= i < plan.ordered_steps().len() && #[trigger] plan.ordered_steps()[i] is Kill ==> i
                == 0 && plan.kill == Some(plan.ordered_steps()[i]->Kill_0),
        plan.kill is Some ==> plan.ordered_steps()[0] is Kill,
{
}

impl<H> ServerProcess<H> {
    /// An empty slot.
    pub fn new() -> (slot: Self)
        ensures
            slot.0 is None,
    {
        ServerProcess(None)
    }

    /// The slot after the outcome of a spawn was settled into it.
    pub open spec fn after_spawn(self, spawned: Result<H, String>) -> Self {
        match spawned {
            Ok(handle) => ServerProcess(Some(handle)),
            Err(_) => self,
        }
    }
}

/// What the caller of a start is told about the outcome of the spawn.
pub open spec fn spawn_report<H>(spawned: Result<H, String>) -> Result<(), String> {
    match spawned {
        Ok(_) => Ok(()),
        Err(reason) => Err(reason),
    }
}

/// Settles the outcome of a spawn into an empty slot: a new handle is
/// stored, a failure leaves the slot empty and is reported with its reason.
fn store_spawned<H>(process: &mut ServerProcess<H>, spawned: Result<H, String>) -> (report: Result<
    (),
    String,
>)
    requires
        old(process).0 is None,
    ensures
        *final(process) == old(process).after_spawn(spawned),
        report == spawn_report(spawned),
{
    match spawned {
        Ok(handle) => {
            process.0 = Some(handle);
            Ok(())
        },
        Err(reason) => Err(reason),
    }
}

/// Empties the slot and plans the shutdown: the handle that was in the slot
/// is to be killed, and the sweep for stray sidecars is to run in any case.
pub fn stop_server<H>(process: &mut ServerProcess<H>, platform: Platform) -> (plan: ShutdownPlan<H>)
    ensures
        final(process).0 is None,
        plan.kill == old(process).0,
        plan.grace_ms == grace_after(old(process).0),
        plan.sweep.argv() == sweep_argv(platform),
{
    let kill = process.0.take();
    let grace_ms: u64 = if kill.is_some() {
        GRACE_PERIOD_MS
    } else {
        0
    };
    ShutdownPlan { kill, grace_ms, sweep: sweep_command(platform) }
}

impl<H> ServerState<H> {
    /// The state of an application that has not asked for a start yet.
    pub fn new() -> (state: Self)
        ensures
            state == Self::fresh(),
            state.wf(),
    {
        ServerState { child: ServerProcess(None), started: false }
    }

    /// The initial state: start flag clear, slot empty.
    pub open spec fn fresh() -> Self {
        ServerState { child: ServerProcess(None), started: false }
    }

    /// A handle is only ever held while the start flag is set.
    pub open spec fn wf(self) -> bool {
        self.child.0 is Some ==> self.started
    }

    /// What a start request decides in this state.
    pub open spec fn start_decision(self) -> StartDecision {
        if self.started {
            StartDecision::AlreadyStarted
        } else if self.child.0 is Some {
            StartDecision::SlotOccupied
        } else {
            StartDecision::Spawn
        }
    }

    /// The state after a start request has tested the flag: the flag is set,
    /// whatever the request decided.
    pub open spec fn after_request(self) -> Self {
        ServerState { child: self.child, started: true }
    }

    /// The state after a whole start, where `spawned` is what the spawn
    /// returns if this start attempts one.
    pub open spec fn after_start(self, spawned: Result<H, String>) -> Self {
        if self.start_decision() == StartDecision::Spawn {
            ServerState { child: self.child.after_spawn(spawned), started: true }
        } else {
            self.after_request()
        }
    }

    /// What a whole start reports, where `spawned` is what the spawn returns
    /// if this start attempts one.
    pub open spec fn start_report(self, spawned: Result<H, String>) -> Result<(), String> {
        if self.start_decision() == StartDecision::Spawn {
            spawn_report(spawned)
        } else {
            Ok(())
        }
    }

    /// The state after a shutdown: the slot is empty, the flag is as it was.
    pub open spec fn after_shutdown(self) -> Self {
        ServerState { child: ServerProcess(None), started: self.started }
    }

    /// Tests and sets the start flag in one step and says what the request
    /// has to do. Only a request that finds the flag clear and the slot empty
    /// is told to spawn.
    pub fn request_start(&mut self) -> (decision: StartDecision)
        ensures
            decision == old(self).start_decision(),
            *final(self) == old(self).after_request(),
            final(self).started,
            old(self).wf() ==> final(self).wf(),
    {
        let was_started = self.started;
        self.started = true;
        if was_started {
            StartDecision::AlreadyStarted
        } else if self.child.0.is_some() {
            StartDecision::SlotOccupied
        } else {
            StartDecision::Spawn
        }
    }

    /// Takes the handle out of the slot and plans the shutdown. Safe to call
    /// any number of times: once the slot is empty there is nothing to kill,
    /// and the sweep is planned every time.
    pub fn shutdown(&mut self, platform: Platform) -> (plan: ShutdownPlan<H>)
        ensures
            *final(self) == old(self).after_shutdown(),
            final(self).child.0 is None,
            final(self).wf(),
            plan.kill == old(self).child.0,
            plan.grace_ms == grace_after(old(self).child.0),
            plan.sweep.argv() == sweep_argv(platform),
    {
        stop_server(&mut self.child, platform)
    }
}

/// Whether `spawn` may be handed the command that spawns the sidecar.
pub open spec fn accepts_sidecar<H, F: FnOnce(CommandLine) -> Result<H, String>>(spawn: F) -> bool {
    forall|command: CommandLine|
        command.argv() == sidecar_argv() ==> #[trigger] call_requires(spawn, (command,))
}

/// Whether a start request that found the supervisor in `before`, with
/// `spawn` at hand, may end in `after` with `report`.
///
/// A request that is not told to spawn reports success and only sets the
/// start flag. The one that is told to spawn hands `spawn` the sidecar's
/// command, stores the handle that it returns, or reports its failure and
/// leaves the slot empty; the flag is set either way.
pub open spec fn start_outcome<H, F: FnOnce(CommandLine) -> Result<H, String>>(
    before: ServerState<H>,
    spawn: F,
    after: ServerState<H>,
    report: Result<(), String>,
) -> bool {
    if before.start_decision() == StartDecision::Spawn {
        exists|command: CommandLine, spawned: Result<H, String>|
            {
                &&& command.argv() == sidecar_argv()
                &&& #[trigger] call_ensures(spawn, (command,), spawned)
                &&& report == before.start_report(spawned)
                &&& after == before.after_start(spawned)
            }
    } else {
        &&& report == Ok::<(), String>(())
        &&& after == before.after_request()
    }
}

/// Handles one start request. The first request on a fresh state calls
/// `spawn` with the sidecar's command and stores the handle it returns, or
/// reports its failure; the flag stays set either way. Every other request
/// returns `Ok` without calling `spawn`, and leaves the slot as it is.
pub fn start_server_internal<H, F: FnOnce(CommandLine) -> Result<H, String>>(
    state: &mut ServerState<H>,
    spawn: F,
) -> (report: Result<(), String>)
    requires
        old(state).start_decision() == StartDecision::Spawn ==> accepts_sidecar(spawn),
    ensures
        start_outcome(*old(state), spawn, *final(state), report),
        final(state).started,
        old(state).wf() ==> final(state).wf(),
        old(state).child.0 is Some ==> final(state).child == old(state).child && report is Ok,
{
    match state.request_start() {
        StartDecision::Spawn => {
            let command = sidecar_command();
            let ghost handed = command;
            let spawned = spawn(command);
            let ghost outcome = spawned;
            let report = store_spawned(&mut state.child, spawned);
            assert(call_ensures(spawn, (handed,), outcome));
            report
        },
        _ => Ok(()),
    }
}

/// Starts the sidecar unless it was started before: the command that the
/// user interface invokes. Idempotent: only the first request on a fresh
/// state spawns, and a request that finds a handle in the slot never
/// replaces it.
pub fn start_server<H, F: FnOnce(CommandLine) -> Result<H, String>>(
    state: &mut ServerState<H>,
    spawn: F,
) -> (report: Result<(), String>)
    requires
        old(state).start_decision() == StartDecision::Spawn ==> accepts_sidecar(spawn),
    ensures
        start_outcome(*old(state), spawn, *final(state), report),
        final(state).started,
        old(state).wf() ==> final(state).wf(),
        old(state).child.0 is Some ==> final(state).child == old(state).child && report is Ok,
{
    start_server_internal(state, spawn)
}

} // verus!
