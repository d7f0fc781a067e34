//! Histories of a supervisor, and what holds of every one of them.
//!
//! A history is a sequence of operations applied to a `ServerState` one
//! after another, which is how the lock around the state orders the calls of
//! concurrent requesters.

use vstd::prelude::*;
use crate::supervisor::{ServerProcess, ServerState, StartDecision};

verus! {

/// One operation on the supervisor.
pub enum LifecycleOp<H> {
    /// A start request; the payload is what the spawn returns if the
    /// request attempts one.
    Start(Result<H, String>),
    /// A shutdown.
    Shutdown,
}

/// The state after `op`.
pub open spec fn step<H>(state: ServerState<H>, op: LifecycleOp<H>) -> ServerState<H> {
    match op {
        LifecycleOp::Start(spawned) => state.after_start(spawned),
        LifecycleOp::Shutdown => state.after_shutdown(),
    }
}

/// Whether `op`, applied to `state`, attempts a spawn.
pub open spec fn attempts_spawn<H>(state: ServerState<H>, op: LifecycleOp<H>) -> bool {
    op is Start && state.start_decision() == StartDecision::Spawn
}

/// Whether `op`, applied to `state`, stores a handle in the slot.
pub open spec fn stores_handle<H>(state: ServerState<H>, op: LifecycleOp<H>) -> bool {
    attempts_spawn(state, op) && op->Start_0 is Ok
}

/// The handle that `op`, applied to `state`, hands out to be killed.
pub open spec fn kills<H>(state: ServerState<H>, op: LifecycleOp<H>) -> Option<H> {
    match op {
        LifecycleOp::Start(_) => None,
        LifecycleOp::Shutdown => state.child.0,
    }
}

/// The state after the operations of `ops`, in order.
pub open spec fn run<H>(state: ServerState<H>, ops: Seq<LifecycleOp<H>>) -> ServerState<H>
    decreases ops.len(),
{
    if ops.len() == 0 {
        state
    } else {
        run(step(state, ops[0]), ops.skip(1))
    }
}

/// How many spawns the operations of `ops` attempt, starting in `state`.
pub open spec fn spawn_attempts<H>(state: ServerState<H>, ops: Seq<LifecycleOp<H>>) -> nat
    decreases ops.len(),
{
    if ops.len() == 0 {
        0
    } else {
        (if attempts_spawn(state, ops[0]) {
            1nat
        } else {
            0nat
        }) + spawn_attempts(step(state, ops[0]), ops.skip(1))
    }
}

/// How many handles the operations of `ops` store, starting in `state`.
pub open spec fn handles_stored<H>(state: ServerState<H>, ops: Seq<LifecycleOp<H>>) -> nat
    decreases ops.len(),
{
    if ops.len() == 0 {
        0
    } else {
        (if stores_handle(state, ops[0]) {
            1nat
        } else {
            0nat
        }) + handles_stored(step(state, ops[0]), ops.skip(1))
    }
}

/// A history of `n` start requests, the i-th of which would get
/// `spawned[i]` from the spawn if it attempted one.
pub open spec fn start_requests<H>(spawned: Seq<Result<H, String>>) -> Seq<LifecycleOp<H>> {
    Seq::new(spawned.len(), |i: int| LifecycleOp::Start(spawned[i]))
}

/// Every operation keeps the rule that a handle is held only while the
/// start flag is set, and none clears the flag again.
pub proof fn lemma_step_keeps_flag<H>(state: ServerState<H>, op: LifecycleOp<H>)
    ensures
        state.wf() ==> step(state, op).wf(),
        state.started ==> step(state, op).started,
        op is Start ==> step(state, op).started,
{
}

/// Once the start flag is set nothing is spawned and nothing is stored,
/// whatever follows; the flag stays set, and the slot holds at the end what it
/// held at the start unless a shutdown emptied it.
pub proof fn lemma_started_never_spawns<H>(state: ServerState<H>, ops: Seq<LifecycleOp<H>>)
    requires
        state.started,
    ensures
        spawn_attempts(state, ops) == 0,
        handles_stored(state, ops) == 0,
        run(state, ops).started,
        run(state, ops).child.0 is None || run(state, ops).child == state.child,
    decreases ops.len(),
{
    if ops.len() > 0 {
        let next = step(state, ops[0]);
        lemma_started_never_spawns(next, ops.skip(1));
    }
}

/// Over the whole life of a supervisor at most one spawn is attempted and
/// at most one handle is stored, and none without an attempt.
pub proof fn lemma_at_most_one_spawn<H>(state: ServerState<H>, ops: Seq<LifecycleOp<H>>)
    ensures
        spawn_attempts(state, ops) <= 1,
        handles_stored(state, ops) <= spawn_attempts(state, ops),
        state.wf() ==> run(state, ops).wf(),
    decreases ops.len(),
{
    if ops.len() > 0 {
        let next = step(state, ops[0]);
        lemma_step_keeps_flag(state, ops[0]);
        if ops[0] is Start {
            lemma_started_never_spawns(next, ops.skip(1));
        } else {
            lemma_at_most_one_spawn(next, ops.skip(1));
        }
    }
}

/// Any number of start requests on a fresh supervisor, in whatever order
/// the lock admits them, attempt exactly one spawn, that of the first
/// request. Exactly one handle is stored if that spawn succeeds and none if
/// it fails, and the state at the end is the state after the first request.
pub proof fn lemma_single_spawn<H>(spawned: Seq<Result<H, String>>)
    requires
        spawned.len() >= 1,
    ensures
        spawn_attempts(ServerState::<H>::fresh(), start_requests(spawned)) == 1,
        handles_stored(ServerState::<H>::fresh(), start_requests(spawned)) == (if spawned[0] is Ok {
            1nat
        } else {
            0nat
        }),
        run(ServerState::<H>::fresh(), start_requests(spawned)) == ServerState::<H>::fresh().after_start(
            spawned[0],
        ),
{
    let fresh = ServerState::<H>::fresh();
    let ops = start_requests(spawned);
    let first = step(fresh, ops[0]);
    assert(ops[0] == LifecycleOp::Start(spawned[0]));
    lemma_started_never_spawns(first, ops.skip(1));
    lemma_starts_keep_slot(first, spawned.skip(1));
    assert(ops.skip(1) =~= start_requests(spawned.skip(1)));
}

/// Start requests on a started supervisor change nothing at all.
pub proof fn lemma_starts_keep_slot<H>(state: ServerState<H>, spawned: Seq<Result<H, String>>)
    requires
        state.started,
    ensures
        run(state, start_requests(spawned)) == state,
    decreases spawned.len(),
{
    let ops = start_requests(spawned);
    if spawned.len() > 0 {
        assert(ops[0] == LifecycleOp::Start(spawned[0]));
        assert(step(state, ops[0]) == state);
        assert(ops.skip(1) =~= start_requests(spawned.skip(1)));
        lemma_starts_keep_slot(state, spawned.skip(1));
    }
}

/// After a spawn has failed the start flag stays set: a later start request
/// attempts no spawn, reports success and leaves the state as it is.
pub proof fn lemma_no_restart_after_failed_spawn<H>(
    state: ServerState<H>,
    reason: String,
    later: Result<H, String>,
)
    requires
        state.start_decision() == StartDecision::Spawn,
    ensures
        state.start_report(Err(reason)) == Err::<(), String>(reason),
        state.after_start(Err(reason)).child.0 is None,
        state.after_start(Err(reason)).start_decision() == StartDecision::AlreadyStarted,
        state.after_start(Err(reason)).start_report(later) == Ok::<(), String>(()),
        state.after_start(Err(reason)).after_start(later) == state.after_start(Err(reason)),
{
}

/// A shutdown leaves the slot empty, whatever it held; a second shutdown
/// right after it finds nothing to kill and changes nothing.
pub proof fn lemma_shutdown_idempotent<H>(state: ServerState<H>)
    ensures
        state.after_shutdown().child.0 is None,
        kills(state.after_shutdown(), LifecycleOp::Shutdown) is None,
        state.after_shutdown().after_shutdown() == state.after_shutdown(),
{
}

/// With a start request between two shutdowns, the second shutdown never
/// kills what the first one killed: it kills the handle that the start in
/// between has spawned, if it spawned one, and nothing otherwise.
pub proof fn lemma_shutdown_start_shutdown<H>(state: ServerState<H>, spawned: Result<H, String>)
    ensures
        kills(state.after_shutdown().after_start(spawned), LifecycleOp::Shutdown) == (if !state.started
            && spawned is Ok {
            Some(spawned->Ok_0)
        } else {
            None
        }),
        state.after_shutdown().after_start(spawned).after_shutdown().child.0 is None,
{
}

/// Whatever came before, the slot is empty after a shutdown.
pub proof fn lemma_slot_empty_after_shutdown<H>(state: ServerState<H>, ops: Seq<LifecycleOp<H>>)
    ensures
        run(state, ops.push(LifecycleOp::Shutdown)).child.0 is None,
    decreases ops.len(),
{
    let all = ops.push(LifecycleOp::Shutdown);
    if ops.len() == 0 {
        assert(all.skip(1) =~= Seq::<LifecycleOp<H>>::empty());
        assert(run(step(state, all[0]), all.skip(1)) == step(state, all[0]));
    } else {
        assert(all[0] == ops[0]);
        assert(all.skip(1) =~= ops.skip(1).push(LifecycleOp::Shutdown));
        lemma_slot_empty_after_shutdown(step(state, ops[0]), ops.skip(1));
    }
}

} // verus!
