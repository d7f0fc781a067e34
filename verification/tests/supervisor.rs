use std::cell::Cell;

use sidecar_supervisor::platform::{CommandLine, Platform};
use sidecar_supervisor::supervisor::{
    start_server, start_server_internal, stop_server, ServerProcess, ServerState, ShutdownPlan,
    ShutdownStep, StartDecision, GRACE_PERIOD_MS,
};

fn pkill() -> CommandLine {
    CommandLine { program: "pkill", args: vec!["-f", "geenii-srv"] }
}

fn taskkill() -> CommandLine {
    CommandLine { program: "taskkill", args: vec!["/F", "/IM", "geenii-srv.exe"] }
}

#[test]
fn fresh_state_is_open_and_empty() {
    let state: ServerState<u32> = ServerState::new();
    assert_eq!(state, ServerState { child: ServerProcess(None), started: false });
    let slot: ServerProcess<u32> = ServerProcess::new();
    assert_eq!(slot, ServerProcess(None));
}

#[test]
fn grace_period_is_three_seconds() {
    assert_eq!(GRACE_PERIOD_MS, 3000);
}

#[test]
fn request_start_on_fresh_state_spawns() {
    let mut state: ServerState<u32> = ServerState::new();
    assert_eq!(state.request_start(), StartDecision::Spawn);
    assert!(state.started);
    assert_eq!(state.child, ServerProcess(None));
}

#[test]
fn request_start_on_a_started_supervisor_does_nothing() {
    let mut state: ServerState<u32> = ServerState { child: ServerProcess(None), started: true };
    assert_eq!(state.request_start(), StartDecision::AlreadyStarted);
    assert_eq!(state, ServerState { child: ServerProcess(None), started: true });

    let mut running = ServerState { child: ServerProcess(Some(11u32)), started: true };
    assert_eq!(running.request_start(), StartDecision::AlreadyStarted);
    assert_eq!(running, ServerState { child: ServerProcess(Some(11u32)), started: true });
}

#[test]
fn request_start_with_occupied_slot_does_not_spawn() {
    let mut state = ServerState { child: ServerProcess(Some(5u32)), started: false };
    assert_eq!(state.request_start(), StartDecision::SlotOccupied);
    assert_eq!(state, ServerState { child: ServerProcess(Some(5u32)), started: true });

    let attempts = Cell::new(0u32);
    let mut again = ServerState { child: ServerProcess(Some(5u32)), started: false };
    let report = start_server_internal(&mut again, |_| {
        attempts.set(attempts.get() + 1);
        Ok(6u32)
    });
    assert_eq!(report, Ok(()));
    assert_eq!(attempts.get(), 0);
    assert_eq!(again, ServerState { child: ServerProcess(Some(5u32)), started: true });
}

#[test]
fn first_start_spawns_and_stores_the_handle() {
    let mut state: ServerState<u32> = ServerState::new();
    let report = start_server_internal(&mut state, |_| Ok(4242u32));
    assert_eq!(report, Ok(()));
    assert_eq!(state, ServerState { child: ServerProcess(Some(4242u32)), started: true });
}

#[test]
fn many_start_requests_spawn_exactly_once() {
    for n in 1u32..=16 {
        let attempts = Cell::new(0u32);
        let mut state: ServerState<u32> = ServerState::new();
        for request in 0..n {
            let report = start_server_internal(&mut state, |_| {
                attempts.set(attempts.get() + 1);
                Ok(100 + request)
            });
            assert_eq!(report, Ok(()));
        }
        assert_eq!(attempts.get(), 1);
        assert_eq!(state, ServerState { child: ServerProcess(Some(100u32)), started: true });
    }
}

#[test]
fn failed_spawn_is_reported_and_never_retried() {
    let mut state: ServerState<u32> = ServerState::new();
    let report = start_server_internal(&mut state, |_| Err(String::from("executable not found")));
    assert_eq!(report, Err(String::from("executable not found")));
    assert_eq!(state, ServerState { child: ServerProcess(None), started: true });

    let attempts = Cell::new(0u32);
    let later = start_server_internal(&mut state, |_| {
        attempts.set(attempts.get() + 1);
        Ok(1u32)
    });
    assert_eq!(later, Ok(()));
    assert_eq!(attempts.get(), 0);
    assert_eq!(state, ServerState { child: ServerProcess(None), started: true });
}

#[test]
fn no_start_spawns_after_a_shutdown() {
    let mut state: ServerState<u32> = ServerState::new();
    assert_eq!(start_server_internal(&mut state, |_| Ok(9u32)), Ok(()));
    let plan = state.shutdown(Platform::Other);
    assert_eq!(plan.kill, Some(9u32));

    let attempts = Cell::new(0u32);
    let report = start_server_internal(&mut state, |_| {
        attempts.set(attempts.get() + 1);
        Ok(10u32)
    });
    assert_eq!(report, Ok(()));
    assert_eq!(attempts.get(), 0);
    assert_eq!(state, ServerState { child: ServerProcess(None), started: true });
}

#[test]
fn shutdown_twice_kills_once_and_sweeps_twice() {
    let mut state = ServerState { child: ServerProcess(Some(77u32)), started: true };
    let first = state.shutdown(Platform::Other);
    assert_eq!(first, ShutdownPlan { kill: Some(77u32), grace_ms: 3000, sweep: pkill() });
    assert_eq!(state, ServerState { child: ServerProcess(None), started: true });

    let second = state.shutdown(Platform::Other);
    assert_eq!(second, ShutdownPlan { kill: None, grace_ms: 0, sweep: pkill() });
    assert_eq!(state, ServerState { child: ServerProcess(None), started: true });
}

#[test]
fn shutdown_start_shutdown_never_kills_the_same_handle_again() {
    let mut started = ServerState { child: ServerProcess(Some(77u32)), started: true };
    assert_eq!(started.shutdown(Platform::Windows).kill, Some(77u32));
    assert_eq!(start_server_internal(&mut started, |_| Ok(78u32)), Ok(()));
    assert_eq!(
        started.shutdown(Platform::Windows),
        ShutdownPlan { kill: None, grace_ms: 0, sweep: taskkill() }
    );

    let mut unstarted: ServerState<u32> = ServerState::new();
    assert_eq!(unstarted.shutdown(Platform::Windows).kill, None);
    assert_eq!(start_server_internal(&mut unstarted, |_| Ok(78u32)), Ok(()));
    assert_eq!(
        unstarted.shutdown(Platform::Windows),
        ShutdownPlan { kill: Some(78u32), grace_ms: 3000, sweep: taskkill() }
    );
    assert_eq!(unstarted.child, ServerProcess(None));
}

#[test]
fn slot_is_empty_after_shutdown() {
    let mut empty: ServerState<u32> = ServerState::new();
    let plan = empty.shutdown(Platform::Other);
    assert_eq!(plan, ShutdownPlan { kill: None, grace_ms: 0, sweep: pkill() });
    assert_eq!(empty, ServerState { child: ServerProcess(None), started: false });

    let mut occupied = ServerState { child: ServerProcess(Some(3u32)), started: true };
    occupied.shutdown(Platform::Other);
    assert_eq!(occupied.child, ServerProcess(None));
    assert!(occupied.started);
}

#[test]
fn start_then_exit_requested_then_final_exit() {
    let mut state: ServerState<String> = ServerState::new();
    assert_eq!(start_server_internal(&mut state, |_| Ok(String::from("child-1"))), Ok(()));
    assert_eq!(state.child, ServerProcess(Some(String::from("child-1"))));
    assert!(state.started);

    let on_exit_requested = state.shutdown(Platform::Other);
    assert_eq!(on_exit_requested.kill, Some(String::from("child-1")));
    assert_eq!(on_exit_requested.grace_ms, GRACE_PERIOD_MS);
    assert_eq!(on_exit_requested.sweep.program, "pkill");
    assert_eq!(on_exit_requested.sweep.args, vec!["-f", "geenii-srv"]);
    assert_eq!(state.child, ServerProcess(None));

    let on_exit = state.shutdown(Platform::Other);
    assert_eq!(on_exit, ShutdownPlan { kill: None, grace_ms: 0, sweep: pkill() });
    assert_eq!(state.child, ServerProcess(None));
}

#[test]
fn start_then_exit_on_windows_sweeps_by_image_name() {
    let mut state: ServerState<u32> = ServerState::new();
    assert_eq!(start_server_internal(&mut state, |_| Ok(31u32)), Ok(()));
    let plan = state.shutdown(Platform::Windows);
    assert_eq!(plan, ShutdownPlan { kill: Some(31u32), grace_ms: 3000, sweep: taskkill() });
}

#[test]
fn start_server_spawns_once_and_keeps_the_first_handle() {
    let attempts = Cell::new(0u32);
    let mut state: ServerState<u32> = ServerState::new();
    let first = start_server(&mut state, |_| {
        attempts.set(attempts.get() + 1);
        Ok(8u32)
    });
    assert_eq!(first, Ok(()));
    assert_eq!(state, ServerState { child: ServerProcess(Some(8u32)), started: true });

    let second = start_server(&mut state, |_| {
        attempts.set(attempts.get() + 1);
        Ok(9u32)
    });
    assert_eq!(second, Ok(()));
    assert_eq!(attempts.get(), 1);
    assert_eq!(state, ServerState { child: ServerProcess(Some(8u32)), started: true });
}

#[test]
fn start_server_on_an_occupied_slot_keeps_the_handle_and_sets_the_flag() {
    let attempts = Cell::new(0u32);
    let mut state = ServerState { child: ServerProcess(Some(5u32)), started: false };
    let report = start_server(&mut state, |_| {
        attempts.set(attempts.get() + 1);
        Err(String::from("must not be asked"))
    });
    assert_eq!(report, Ok(()));
    assert_eq!(attempts.get(), 0);
    assert_eq!(state, ServerState { child: ServerProcess(Some(5u32)), started: true });
}

#[test]
fn start_server_reports_a_failed_spawn_and_never_retries() {
    let mut state: ServerState<u32> = ServerState::new();
    assert_eq!(
        start_server(&mut state, |_| Err(String::from("failed to spawn"))),
        Err(String::from("failed to spawn"))
    );
    assert_eq!(state, ServerState { child: ServerProcess(None), started: true });

    let attempts = Cell::new(0u32);
    let later = start_server(&mut state, |_| {
        attempts.set(attempts.get() + 1);
        Ok(8u32)
    });
    assert_eq!(later, Ok(()));
    assert_eq!(attempts.get(), 0);
    assert_eq!(state, ServerState { child: ServerProcess(None), started: true });
}

#[test]
fn the_spawn_is_asked_for_the_base_name_without_arguments() {
    let asked = Cell::new(false);
    let mut state: ServerState<u32> = ServerState::new();
    let report = start_server(&mut state, |command| {
        assert_eq!(command, CommandLine { program: "geenii-srv", args: Vec::new() });
        asked.set(true);
        Ok(1u32)
    });
    assert_eq!(report, Ok(()));
    assert!(asked.get());

    let asked_internal = Cell::new(false);
    let mut other: ServerState<u32> = ServerState::new();
    let report = start_server_internal(&mut other, |command| {
        assert_eq!(command.program, "geenii-srv");
        assert!(command.args.is_empty());
        asked_internal.set(true);
        Ok(2u32)
    });
    assert_eq!(report, Ok(()));
    assert!(asked_internal.get());
}

#[test]
fn steps_of_a_shutdown_are_kill_then_wait_then_sweep() {
    let mut state = ServerState { child: ServerProcess(Some(21u32)), started: true };
    let steps = state.shutdown(Platform::Other).steps();
    assert_eq!(
        steps,
        vec![ShutdownStep::Kill(21u32), ShutdownStep::Wait(3000), ShutdownStep::Sweep(pkill())]
    );
}

#[test]
fn steps_of_a_shutdown_with_an_empty_slot_are_the_sweep_alone() {
    let mut state: ServerState<u32> = ServerState::new();
    assert_eq!(state.shutdown(Platform::Windows).steps(), vec![ShutdownStep::Sweep(taskkill())]);
    let again = state.shutdown(Platform::Windows).steps();
    assert_eq!(again, vec![ShutdownStep::Sweep(taskkill())]);
}

#[test]
fn steps_follow_the_plan_as_it_stands() {
    let plan = ShutdownPlan { kill: Some(String::from("h")), grace_ms: 250, sweep: pkill() };
    assert_eq!(
        plan.steps(),
        vec![
            ShutdownStep::Kill(String::from("h")),
            ShutdownStep::Wait(250),
            ShutdownStep::Sweep(pkill()),
        ]
    );
    let idle: ShutdownPlan<u32> = ShutdownPlan { kill: None, grace_ms: 0, sweep: taskkill() };
    assert_eq!(idle.steps(), vec![ShutdownStep::Sweep(taskkill())]);
}

#[test]
fn stop_server_takes_the_handle_and_plans_the_sweep() {
    let mut slot = ServerProcess(Some(21u32));
    assert_eq!(
        stop_server(&mut slot, Platform::Other),
        ShutdownPlan { kill: Some(21u32), grace_ms: 3000, sweep: pkill() }
    );
    assert_eq!(slot, ServerProcess(None));
    assert_eq!(
        stop_server(&mut slot, Platform::Windows),
        ShutdownPlan { kill: None, grace_ms: 0, sweep: taskkill() }
    );
    assert_eq!(slot, ServerProcess(None));
}
