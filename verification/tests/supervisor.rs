use seanime_desktop::model::{ExitPolicy, Phase, FATAL_EXIT_CODE, GRACE_SECS, SETTLE_SECS};
use seanime_desktop::readiness::LineOutcome;
use seanime_desktop::supervisor::{Action, Event, Supervisor};

fn started(marker: &[u8]) -> Supervisor {
    let mut sup = Supervisor::new(marker.to_vec());
    assert_eq!(sup.launch(), vec![Action::Spawn { generation: 1 }]);
    assert_eq!(sup.spawned(1), vec![]);
    sup
}

fn running() -> Supervisor {
    let mut sup = started(b"Client connected");
    let g = sup.generation();
    assert_eq!(
        sup.output(g, b"Client connected"),
        vec![Action::Settle { secs: 2, text: "Client connected".to_string() }]
    );
    sup.settled(g, "Client connected".to_string());
    assert_eq!(sup.phase(), Phase::Running);
    sup
}

#[test]
fn design_constants() {
    assert_eq!(SETTLE_SECS, 2);
    assert_eq!(GRACE_SECS, 10);
    assert_eq!(FATAL_EXIT_CODE, 1);
}

#[test]
fn new_supervisor_is_idle() {
    let sup = Supervisor::with_default_marker();
    assert_eq!(sup.phase(), Phase::Idle);
    assert_eq!(sup.generation(), 0);
    assert_eq!(sup.handle(), None);
    assert!(!sup.is_shutdown());
    assert!(!sup.server_started());
    assert_eq!(sup.marker(), b"Client connected");
}

#[test]
fn launch_asks_for_a_spawn() {
    let mut sup = Supervisor::with_default_marker();
    assert_eq!(sup.launch(), vec![Action::Spawn { generation: 1 }]);
    assert_eq!(sup.phase(), Phase::Starting);
    assert_eq!(sup.generation(), 1);
    assert_eq!(sup.handle(), None);
    assert_eq!(sup.spawned(1), vec![]);
    assert_eq!(sup.handle(), Some(1));
}

#[test]
fn spawn_failure_is_fatal() {
    let mut sup = Supervisor::with_default_marker();
    sup.launch();
    let actions = sup.spawn_failed(1, "No such file or directory".to_string());
    assert_eq!(
        actions,
        vec![
            Action::CloseSplash,
            Action::ShowCrash,
            Action::Crash {
                notice: "The server failed to start: No such file or directory. Closing in 10 seconds."
                    .to_string(),
            },
            Action::Pause { secs: 10 },
            Action::Exit { code: 1 },
        ]
    );
    assert_eq!(sup.phase(), Phase::Failed);
    assert!(!sup.server_started());
    assert!(!sup.is_shutdown());
    assert_eq!(sup.handle(), None);
}

#[test]
fn ready_line_brings_up_the_main_surface() {
    let mut sup = started(b"server started");
    let line = b"2024-01-01 INF server started on 127.0.0.1:43211";
    let text = "2024-01-01 INF server started on 127.0.0.1:43211".to_string();
    let actions = sup.output(1, line);
    assert_eq!(actions, vec![Action::Settle { secs: 2, text: text.clone() }]);
    assert_eq!(sup.phase(), Phase::Settling);
    assert!(!sup.server_started());
    let actions = sup.settled(1, text.clone());
    assert_eq!(
        actions,
        vec![Action::CloseSplash, Action::ShowMain, Action::Message { text }]
    );
    assert_eq!(sup.phase(), Phase::Running);
    assert!(sup.server_started());
    assert!(!sup.is_shutdown());
}

#[test]
fn coloured_ready_line_is_recognised() {
    let mut sup = started(b"Client connected");
    let actions = sup.output(1, b"\x1b[36mINF\x1b[0m Client connected");
    assert_eq!(
        actions,
        vec![Action::Settle { secs: 2, text: "INF Client connected".to_string() }]
    );
    sup.settled(1, "INF Client connected".to_string());
    assert!(sup.server_started());
}

#[test]
fn exit_before_ready_is_fatal() {
    let mut sup = started(b"Client connected");
    let actions = sup.terminated(1, Some(2));
    assert_eq!(
        actions,
        vec![
            Action::CloseSplash,
            Action::CloseMain,
            Action::ShowCrash,
            Action::Crash {
                notice: "Seanime server process terminated with status: 2. Closing in 10 seconds."
                    .to_string(),
            },
            Action::Pause { secs: 10 },
            Action::Exit { code: 1 },
        ]
    );
    assert_eq!(sup.phase(), Phase::Failed);
    assert!(sup.is_shutdown());
    assert!(!sup.server_started());
}

#[test]
fn exit_before_ready_without_code_reports_one() {
    let mut sup = started(b"Client connected");
    let actions = sup.terminated(1, None);
    assert_eq!(
        actions[3],
        Action::Crash {
            notice: "Seanime server process terminated with status: 1. Closing in 10 seconds."
                .to_string(),
        }
    );
    assert_eq!(actions.len(), 6);
}

#[test]
fn restart_while_running_starts_afresh() {
    let mut sup = running();
    assert!(sup.server_started());
    let actions = sup.restart();
    assert_eq!(
        actions,
        vec![Action::Kill { generation: 1 }, Action::Spawn { generation: 2 }]
    );
    assert!(!sup.is_shutdown());
    assert!(!sup.server_started());
    assert_eq!(sup.phase(), Phase::Starting);
    assert_eq!(sup.generation(), 2);
    assert_eq!(sup.handle(), None);
    // The old process ends; the new generation is not touched by it.
    assert_eq!(sup.terminated(1, Some(0)), vec![]);
    assert!(!sup.is_shutdown());
    assert_eq!(sup.output(1, b"Client connected"), vec![]);
    assert_eq!(sup.phase(), Phase::Starting);
    // The new generation reaches the running phase on its own.
    assert_eq!(sup.spawned(2), vec![]);
    assert_eq!(sup.handle(), Some(2));
    assert_eq!(
        sup.output(2, b"Client connected"),
        vec![Action::Settle { secs: 2, text: "Client connected".to_string() }]
    );
    assert_eq!(
        sup.settled(2, "Client connected".to_string()),
        vec![
            Action::CloseSplash,
            Action::ShowMain,
            Action::Message { text: "Client connected".to_string() },
        ]
    );
    assert!(sup.server_started());
    assert_eq!(sup.phase(), Phase::Running);
}

#[test]
fn window_close_is_held_until_shutdown() {
    let mut sup = running();
    assert!(!sup.is_shutdown());
    assert_eq!(
        sup.close_requested(true),
        vec![Action::HideMain, Action::CancelClose]
    );
    assert_eq!(sup.phase(), Phase::Running);
    assert_eq!(sup.handle(), Some(1));
    assert_eq!(sup.terminated(1, Some(0)), vec![]);
    assert!(sup.is_shutdown());
    assert_eq!(sup.close_requested(true), vec![]);
}

#[test]
fn close_of_another_window_proceeds() {
    let sup = running();
    assert_eq!(sup.close_requested(false), vec![]);
}

#[test]
fn close_before_first_launch_is_turned_into_hiding() {
    let sup = Supervisor::with_default_marker();
    assert_eq!(
        sup.close_requested(true),
        vec![Action::HideMain, Action::CancelClose]
    );
}

#[test]
fn exit_after_ready_is_not_fatal() {
    let mut sup = running();
    assert_eq!(sup.terminated(1, Some(3)), vec![]);
    assert_eq!(sup.phase(), Phase::Stopped);
    assert!(sup.is_shutdown());
    assert!(sup.server_started());
    assert_eq!(sup.handle(), Some(1));
}

#[test]
fn termination_is_taken_once() {
    let mut sup = started(b"Client connected");
    assert_eq!(sup.terminated(1, Some(2)).len(), 6);
    assert_eq!(sup.terminated(1, Some(2)), vec![]);
    assert_eq!(sup.phase(), Phase::Failed);
}

#[test]
fn kill_twice_asks_once() {
    let mut sup = running();
    assert_eq!(sup.kill(), vec![Action::Kill { generation: 1 }]);
    assert_eq!(sup.handle(), None);
    assert_eq!(sup.kill(), vec![]);
    assert_eq!(sup.handle(), None);
    assert_eq!(sup.phase(), Phase::Running);
    assert!(sup.server_started());
    assert!(!sup.is_shutdown());
}

#[test]
fn kill_with_empty_slot_asks_nothing() {
    let mut sup = Supervisor::with_default_marker();
    assert_eq!(sup.kill(), vec![]);
    assert_eq!(sup.phase(), Phase::Idle);
    assert_eq!(sup.exit_requested(), vec![]);
}

#[test]
fn exit_request_kills_the_live_process() {
    let mut sup = running();
    assert_eq!(sup.exit_requested(), vec![Action::Kill { generation: 1 }]);
    assert_eq!(sup.handle(), None);
    assert_eq!(sup.exit_requested(), vec![]);
}

#[test]
fn kill_before_ready_then_exit_is_fatal() {
    let mut sup = started(b"Client connected");
    assert_eq!(sup.kill(), vec![Action::Kill { generation: 1 }]);
    let actions = sup.terminated(1, None);
    assert_eq!(actions.len(), 6);
    assert_eq!(actions[5], Action::Exit { code: 1 });
}

#[test]
fn repeated_restarts_hold_one_handle() {
    let mut sup = Supervisor::with_default_marker();
    sup.launch();
    sup.spawned(1);
    let mut live: Vec<u64> = vec![1];
    for round in 0u64..20 {
        let actions = sup.restart();
        for action in actions {
            match action {
                Action::Kill { generation } => live.retain(|g| *g != generation),
                Action::Spawn { generation } => {
                    assert!(live.is_empty());
                    assert_eq!(generation, round + 2);
                    for stray in sup.spawned(generation) {
                        assert!(matches!(stray, Action::Kill { .. }));
                    }
                    live.push(generation);
                }
                other => panic!("unexpected action {:?}", other),
            }
        }
        assert!(live.len() <= 1);
        assert_eq!(sup.handle(), live.first().copied());
    }
}

#[test]
fn restart_in_flight_retires_the_late_process() {
    let mut sup = Supervisor::with_default_marker();
    sup.launch();
    assert_eq!(sup.restart(), vec![Action::Spawn { generation: 2 }]);
    // The spawn of the first generation reports only now.
    assert_eq!(sup.spawned(1), vec![Action::Kill { generation: 1 }]);
    assert_eq!(sup.handle(), None);
    assert_eq!(sup.spawned(2), vec![]);
    assert_eq!(sup.handle(), Some(2));
    // A second report of the same spawn changes nothing.
    assert_eq!(sup.spawned(2), vec![]);
    assert_eq!(sup.handle(), Some(2));
}

#[test]
fn stale_spawn_failure_is_ignored() {
    let mut sup = Supervisor::with_default_marker();
    sup.launch();
    sup.restart();
    assert_eq!(sup.spawn_failed(1, "late".to_string()), vec![]);
    assert_eq!(sup.phase(), Phase::Starting);
}

#[test]
fn lines_are_forwarded_in_order() {
    let mut sup = started(b"Client connected");
    let lines: Vec<&[u8]> = vec![b"one", b"\x1b[1mtwo\x1b[0m", b"three"];
    let mut seen: Vec<String> = Vec::new();
    for line in lines {
        for action in sup.output(1, line) {
            match action {
                Action::Message { text } => seen.push(text),
                other => panic!("unexpected action {:?}", other),
            }
        }
    }
    assert_eq!(seen, vec!["one".to_string(), "two".to_string(), "three".to_string()]);
    assert_eq!(sup.phase(), Phase::Starting);
}

#[test]
fn lines_after_ready_are_forwarded_even_with_marker() {
    let mut sup = running();
    assert_eq!(
        sup.output(1, b"Client connected again"),
        vec![Action::Message { text: "Client connected again".to_string() }]
    );
    assert_eq!(sup.phase(), Phase::Running);
}

#[test]
fn empty_line_is_not_forwarded() {
    let mut sup = started(b"Client connected");
    assert_eq!(sup.output(1, b""), vec![]);
    assert_eq!(sup.output(1, b"\x1b[0m"), vec![]);
}

#[test]
fn undecodable_line_is_dropped() {
    let mut sup = started(b"Client connected");
    assert_eq!(sup.line_classified(1, LineOutcome::Dropped), vec![]);
    assert_eq!(sup.phase(), Phase::Starting);
}

#[test]
fn classified_ready_line_starts_the_settle_delay_once() {
    let mut sup = started(b"Client connected");
    let first = sup.line_classified(
        1,
        LineOutcome::Text { text: "Client connected".to_string(), ready: true },
    );
    assert_eq!(
        first,
        vec![Action::Settle { secs: 2, text: "Client connected".to_string() }]
    );
    let second = sup.line_classified(
        1,
        LineOutcome::Text { text: "Client connected".to_string(), ready: true },
    );
    assert_eq!(second, vec![Action::Message { text: "Client connected".to_string() }]);
    assert!(!sup.server_started());
}

#[test]
fn output_before_launch_is_ignored() {
    let mut sup = Supervisor::with_default_marker();
    assert_eq!(sup.output(0, b"Client connected"), vec![]);
    assert_eq!(sup.phase(), Phase::Idle);
    assert_eq!(sup.terminated(0, Some(1)), vec![]);
    assert!(!sup.is_shutdown());
}

#[test]
fn settled_of_an_old_generation_is_ignored() {
    let mut sup = started(b"Client connected");
    sup.output(1, b"Client connected");
    sup.restart();
    assert_eq!(sup.settled(1, "Client connected".to_string()), vec![]);
    assert!(!sup.server_started());
    assert_eq!(sup.phase(), Phase::Starting);
}

#[test]
fn settled_twice_raises_once() {
    let mut sup = started(b"Client connected");
    sup.output(1, b"Client connected");
    assert_eq!(sup.settled(1, "Client connected".to_string()).len(), 3);
    assert_eq!(sup.settled(1, "Client connected".to_string()), vec![]);
    assert!(sup.server_started());
}

#[test]
fn exit_during_settle_delay_is_fatal() {
    let mut sup = started(b"Client connected");
    sup.output(1, b"Client connected");
    let actions = sup.terminated(1, Some(137));
    assert_eq!(
        actions[3],
        Action::Crash {
            notice: "Seanime server process terminated with status: 137. Closing in 10 seconds."
                .to_string(),
        }
    );
    assert_eq!(sup.settled(1, "Client connected".to_string()), vec![]);
    assert!(!sup.server_started());
}

#[test]
fn step_agrees_with_the_operations() {
    let mut by_step = Supervisor::with_default_marker();
    let mut by_call = Supervisor::with_default_marker();
    assert_eq!(by_step.step(Event::Launch), by_call.launch());
    assert_eq!(by_step.step(Event::Spawned { generation: 1 }), by_call.spawned(1));
    assert_eq!(
        by_step.step(Event::Output { generation: 1, line: b"hello".to_vec() }),
        by_call.output(1, b"hello")
    );
    assert_eq!(
        by_step.step(Event::Output { generation: 1, line: b"Client connected".to_vec() }),
        by_call.output(1, b"Client connected")
    );
    assert_eq!(
        by_step.step(Event::Settled { generation: 1, text: "Client connected".to_string() }),
        by_call.settled(1, "Client connected".to_string())
    );
    assert_eq!(
        by_step.step(Event::CloseRequested { main_window: true }),
        by_call.close_requested(true)
    );
    assert_eq!(by_step.step(Event::Restart), by_call.restart());
    assert_eq!(
        by_step.step(Event::SpawnFailed { generation: 2, error: "denied".to_string() }),
        by_call.spawn_failed(2, "denied".to_string())
    );
    assert_eq!(by_step.step(Event::Kill), by_call.kill());
    assert_eq!(by_step.step(Event::ExitRequested), by_call.exit_requested());
    assert_eq!(
        by_step.step(Event::Terminated { generation: 2, code: Some(1) }),
        by_call.terminated(2, Some(1))
    );
    assert_eq!(by_step.phase(), by_call.phase());
    assert_eq!(by_step.generation(), 2);
}

#[test]
fn crash_is_reported_once_per_generation() {
    let mut sup = started(b"Client connected");
    let mut crashes = 0;
    let mut all: Vec<Action> = Vec::new();
    all.extend(sup.terminated(1, Some(2)));
    all.extend(sup.terminated(1, Some(2)));
    all.extend(sup.spawn_failed(1, "late".to_string()));
    all.extend(sup.kill());
    all.extend(sup.kill());
    for action in &all {
        if matches!(action, Action::Crash { .. }) {
            crashes += 1;
        }
    }
    assert_eq!(crashes, 1);
}

#[test]
fn default_policy_only_records() {
    assert_eq!(Supervisor::with_default_marker().policy(), ExitPolicy::RecordOnly);
    assert_eq!(Supervisor::new(b"x".to_vec()).policy(), ExitPolicy::RecordOnly);
}

#[test]
fn fatal_policy_makes_exit_after_ready_fatal() {
    let mut sup = Supervisor::with_policy(b"Client connected".to_vec(), ExitPolicy::Fatal);
    assert_eq!(sup.policy(), ExitPolicy::Fatal);
    sup.launch();
    sup.spawned(1);
    sup.output(1, b"Client connected");
    sup.settled(1, "Client connected".to_string());
    assert!(sup.server_started());
    let actions = sup.terminated(1, Some(9));
    assert_eq!(
        actions,
        vec![
            Action::CloseSplash,
            Action::CloseMain,
            Action::ShowCrash,
            Action::Crash {
                notice: "Seanime server process terminated with status: 9. Closing in 10 seconds."
                    .to_string(),
            },
            Action::Pause { secs: 10 },
            Action::Exit { code: 1 },
        ]
    );
    assert_eq!(sup.phase(), Phase::Failed);
    assert!(sup.is_shutdown());
    assert!(sup.server_started());
    assert_eq!(sup.close_requested(true), vec![]);
}
