use chatgpt_codex_bridge::orchestration::{Action, Phase, Runtime};

#[test]
fn simulated_two_turn_loop_reaches_module_acceptance_pause() {
    let (mut runtime, action) = Runtime::start();
    assert_eq!(action, Action::SendPlanningRequest);

    let action = runtime
        .receive_next_task("Implement task one.".into())
        .expect("first task");
    assert!(matches!(action, Action::StartCodexTurn { round: 1, .. }));
    runtime.codex_started().expect("start first turn");
    let action = runtime
        .codex_completed("first summary".into())
        .expect("first completion");
    assert!(matches!(action, Action::SendReviewRequest { round: 1, .. }));

    let action = runtime
        .receive_next_task("Implement task two.".into())
        .expect("second task");
    assert!(matches!(action, Action::StartCodexTurn { round: 2, .. }));
    runtime.codex_started().expect("start second turn");
    runtime
        .codex_completed("second summary".into())
        .expect("second completion");

    let action = runtime
        .receive_module_done("ChatGPT reported MODULE_DONE.".into())
        .expect("module done is valid after review");
    assert!(matches!(action, Action::PauseForAcceptance { .. }));
    assert_eq!(runtime.phase, Phase::PausedForAcceptance);
    assert_eq!(runtime.completed_rounds, 2);
}

#[test]
fn approval_continue_and_stop_require_safe_states() {
    let (mut runtime, _) = Runtime::start();
    assert!(runtime.approve().is_err());
    runtime.receive_pause("needs confirmation".into());
    runtime.approve().expect("paused module can be approved");
    assert_eq!(runtime.phase, Phase::Completed);

    let (mut runtime, _) = Runtime::start();
    runtime.receive_pause("needs confirmation".into());
    runtime
        .continue_after_pause()
        .expect("paused module can continue");
    assert_eq!(runtime.phase, Phase::WaitingForChatGptPlan);
    runtime.stop().expect("waiting module can stop");
    assert_eq!(runtime.phase, Phase::Stopped);
}

#[test]
fn restart_pauses_an_in_progress_orchestration() {
    let (mut runtime, _) = Runtime::start();
    let action = runtime.recover_after_restart().expect("must pause");
    assert!(matches!(action, Action::PauseForAcceptance { .. }));
    assert_eq!(runtime.phase, Phase::PausedForAcceptance);
}

#[test]
fn a_blank_task_is_refused_and_changes_nothing() {
    let (mut runtime, _) = Runtime::start();
    let before = runtime.clone();
    assert!(runtime.receive_next_task("   ".into()).is_err());
    assert_eq!(runtime, before);
}

#[test]
fn a_completed_turn_counts_exactly_one_round() {
    let (mut runtime, _) = Runtime::start();
    runtime.receive_next_task("task".into()).expect("task");
    assert_eq!(runtime.completed_rounds, 0);
    runtime.codex_started().expect("started");
    assert_eq!(runtime.phase, Phase::CodexRunning);
    runtime.codex_completed("done".into()).expect("completed");
    assert_eq!(runtime.completed_rounds, 1);
    assert_eq!(runtime.phase, Phase::WaitingForChatGptReview);
}

#[test]
fn a_running_turn_cannot_be_stopped() {
    let (mut runtime, _) = Runtime::start();
    runtime.receive_next_task("task".into()).expect("task");
    runtime.codex_started().expect("started");
    assert!(runtime.stop().is_err());
    assert_eq!(runtime.phase, Phase::CodexRunning);
}

#[test]
fn a_pause_can_be_requested_only_during_a_turn() {
    let (mut runtime, _) = Runtime::start();
    assert!(runtime.request_pause_after_current_turn().is_err());
    assert!(!runtime.pause_after_current_turn);
    runtime.receive_next_task("task".into()).expect("task");
    runtime.codex_started().expect("started");
    runtime.request_pause_after_current_turn().expect("request pause");
    assert!(runtime.pause_after_current_turn);
    let action = runtime.codex_completed("done".into()).expect("completed");
    assert_eq!(
        action,
        Action::SendReviewRequest { round: 1, codex_summary: "done".into() }
    );
    runtime.receive_pause("budget".into());
    runtime.continue_after_pause().expect("continue");
    assert!(!runtime.pause_after_current_turn);
}

#[test]
fn a_finished_runtime_has_nothing_to_recover() {
    let (mut runtime, _) = Runtime::start();
    runtime.stop().expect("stop");
    assert!(runtime.recover_after_restart().is_none());
    assert_eq!(runtime.phase, Phase::Stopped);
}

#[test]
fn completing_without_a_running_turn_is_refused() {
    let (mut runtime, _) = Runtime::start();
    assert!(runtime.codex_completed("nothing ran".into()).is_err());
    assert_eq!(runtime.completed_rounds, 0);
    assert_eq!(runtime.phase, Phase::WaitingForChatGptPlan);
}

#[test]
fn a_blocked_module_reports_its_reason() {
    let (mut runtime, _) = Runtime::start();
    let action = runtime.block("broken".into());
    assert_eq!(action, Action::Block { reason: "broken".into() });
    assert_eq!(runtime.phase, Phase::Blocked);
}
