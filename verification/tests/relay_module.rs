use chatgpt_codex_bridge::relay::{
    decide_relay_module_acceptance, decide_relay_module_termination, new_relay_module,
    RelayMessageKind, RelayModuleAcceptance, RelayModuleInput, RelayModuleRecord,
    RelayModuleTermination,
};
use chatgpt_codex_bridge::relay_module::{
    apply_relay_module_termination, complete_relay_codex_turn, complete_relay_module,
    decide_relay_reply, finalize_relay_module_stop_after_turn, mark_relay_codex_turn_running,
    mark_relay_codex_turn_starting, pause_relay_module_for_budget,
    relay_module_after_codex_failure, relay_module_after_recovery,
    recover_relay_after_restart, relay_module_after_uncertain_delivery, RelayCodexTurnCompletion,
    RelayReplyDecision,
};
use chatgpt_codex_bridge::relay_queue::{DeliveryState, RelayQueueEntry};

fn module(phase: &str) -> RelayModuleRecord {
    let input = RelayModuleInput {
        name: "模块 A".into(),
        working_directory: "/work".into(),
        max_cycles: 3,
        max_runtime_minutes: 60,
        retry_template: "请只返回一个控制块。".into(),
    };
    let mut m = new_relay_module("module-a".into(), &input, "t0".into());
    m.phase = phase.into();
    m
}

#[test]
fn a_codex_prompt_creates_the_next_cycle_and_clears_invalid_replies() {
    let mut m = module("READY");
    m.invalid_reply_count = 1;
    m.started_cycles = 1;
    let decision = decide_relay_reply(
        &mut m,
        RelayMessageKind::Automation,
        "已收到验收反馈。\n\n@@@CODEX_PROMPT@@@\n继续处理验收反馈。\n@@@END_CODEX_PROMPT@@@",
    );
    assert_eq!(
        decision,
        RelayReplyDecision::CodexPrompt { prompt: "继续处理验收反馈。".into(), cycle_number: 2 }
    );
    assert_eq!(m.phase, "CODEX_PROMPT_READY");
    assert_eq!(m.invalid_reply_count, 0);
    assert_eq!(m.started_cycles, 1);
}

#[test]
fn module_done_and_blocked_replies_move_the_module() {
    let mut m = module("READY");
    assert_eq!(decide_relay_reply(&mut m, RelayMessageKind::Automation, "完成。\n@@@MODULE_DONE@@@"), RelayReplyDecision::ModuleDone);
    assert_eq!(m.phase, "WAITING_FOR_ACCEPTANCE");
    let mut m = module("READY");
    assert_eq!(
        decide_relay_reply(&mut m, RelayMessageKind::Automation, "@@@BLOCKED@@@\n缺少密钥\n@@@END_BLOCKED@@@"),
        RelayReplyDecision::Blocked("缺少密钥".into())
    );
    assert_eq!(m.phase, "BLOCKED");
}

#[test]
fn an_invalid_reply_is_retried_once_then_blocks() {
    let mut m = module("READY");
    let first = decide_relay_reply(&mut m, RelayMessageKind::Automation, "随便聊聊");
    assert_eq!(first, RelayReplyDecision::Retry("自动化回复末尾必须且只能包含一个有效控制块".into()));
    assert_eq!(m.invalid_reply_count, 1);
    assert_eq!(m.phase, "READY");
    let second = decide_relay_reply(&mut m, RelayMessageKind::Automation, "还是聊聊");
    assert_eq!(second, RelayReplyDecision::ControlFailed("自动化回复末尾必须且只能包含一个有效控制块".into()));
    assert_eq!(m.invalid_reply_count, 2);
    assert_eq!(m.phase, "BLOCKED");
}

#[test]
fn an_input_block_in_the_relay_counts_as_an_invalid_reply() {
    let mut m = module("READY");
    let decision = decide_relay_reply(&mut m, RelayMessageKind::Automation, "@@@CODEX_INPUT@@@\n1. 是\n@@@END_CODEX_INPUT@@@");
    assert_eq!(decision, RelayReplyDecision::Retry("当前没有待回答的 Codex 输入请求".into()));
}

#[test]
fn manual_replies_and_finished_modules_start_nothing() {
    let mut m = module("READY");
    let before = format!("{m:?}");
    assert_eq!(
        decide_relay_reply(&mut m, RelayMessageKind::Manual, "@@@CODEX_PROMPT@@@\n做\n@@@END_CODEX_PROMPT@@@"),
        RelayReplyDecision::ManualReply
    );
    assert_eq!(format!("{m:?}"), before);
    for phase in ["STOPPED", "COMPLETED"] {
        let mut m = module(phase);
        let before = format!("{m:?}");
        assert_eq!(
            decide_relay_reply(&mut m, RelayMessageKind::Automation, "完成。\n@@@MODULE_DONE@@@"),
            RelayReplyDecision::TerminalIgnored
        );
        assert_eq!(format!("{m:?}"), before);
    }
}

#[test]
fn acceptance_and_termination_are_idempotent() {
    let mut m = module("WAITING_FOR_ACCEPTANCE");
    assert_eq!(decide_relay_module_acceptance(Some(&m), 0, 0), Ok(RelayModuleAcceptance::Accepted));
    complete_relay_module(&mut m);
    assert_eq!(m.phase, "COMPLETED");
    assert_eq!(decide_relay_module_acceptance(Some(&m), 0, 0), Ok(RelayModuleAcceptance::AlreadyCompleted));

    let mut m = module("READY");
    let t = decide_relay_module_termination(Some(&m), 0, 0, false).expect("terminate");
    apply_relay_module_termination(&mut m, t);
    assert_eq!(m.phase, "STOPPED");
    assert_eq!(decide_relay_module_termination(Some(&m), 0, 0, false), Ok(RelayModuleTermination::AlreadyStopped));
}

#[test]
fn a_termination_during_a_turn_takes_effect_after_it() {
    let mut m = module("CODEX_RUNNING");
    let t = decide_relay_module_termination(Some(&m), 0, 1, true).expect("terminate");
    assert_eq!(t, RelayModuleTermination::StopRequested);
    apply_relay_module_termination(&mut m, t);
    assert_eq!(m.phase, "CODEX_RUNNING");
    assert!(m.stop_after_turn);
    assert_eq!(decide_relay_module_termination(Some(&m), 0, 1, true), Ok(RelayModuleTermination::AlreadyStopRequested));

    let mut completed = m.clone();
    assert_eq!(complete_relay_codex_turn(&mut completed), Ok(RelayCodexTurnCompletion::StoppedAfterTurn));
    assert_eq!(completed.phase, "STOPPED");
    assert!(!completed.stop_after_turn);

    let mut failed = m.clone();
    assert!(relay_module_after_codex_failure(&mut failed));
    assert_eq!(failed.phase, "STOPPED");
}

#[test]
fn a_completed_turn_returns_its_result_unless_the_module_is_finished() {
    let mut m = module("CODEX_RUNNING");
    assert_eq!(complete_relay_codex_turn(&mut m), Ok(RelayCodexTurnCompletion::ReturnedToChatGpt));
    assert_eq!(m.phase, "READY");
    let mut stopped = module("STOPPED");
    assert_eq!(complete_relay_codex_turn(&mut stopped), Ok(RelayCodexTurnCompletion::StoppedAfterTurn));
    assert_eq!(stopped.phase, "STOPPED");
    let mut accepted = module("COMPLETED");
    assert_eq!(complete_relay_codex_turn(&mut accepted), Err("模块已验收完成，不能回传 Codex 结果。".into()));
    let mut failing = module("CODEX_RUNNING");
    assert!(!relay_module_after_codex_failure(&mut failing));
    assert_eq!(failing.phase, "BLOCKED");
    let mut finished = module("STOPPED");
    assert!(!finalize_relay_module_stop_after_turn(&mut finished));
}

#[test]
fn a_turn_start_spends_a_cycle_and_starts_the_clock_once() {
    let mut m = module("CODEX_PROMPT_READY");
    mark_relay_codex_turn_starting(&mut m, "t1".into());
    assert_eq!(m.phase, "CODEX_STARTING");
    assert_eq!(m.started_cycles, 1);
    assert_eq!(m.module_started_at.as_deref(), Some("t1"));
    mark_relay_codex_turn_running(&mut m);
    assert_eq!(m.phase, "CODEX_RUNNING");
    mark_relay_codex_turn_starting(&mut m, "t2".into());
    assert_eq!(m.started_cycles, 2);
    assert_eq!(m.module_started_at.as_deref(), Some("t1"));
    pause_relay_module_for_budget(&mut m);
    assert_eq!(m.phase, "WAITING_FOR_ACCEPTANCE");
}

#[test]
fn finished_modules_stay_finished_through_recovery() {
    for phase in ["STOPPED", "COMPLETED"] {
        let mut m = module(phase);
        relay_module_after_uncertain_delivery(&mut m);
        assert_eq!(m.phase, phase);
        relay_module_after_recovery(&mut m, 0);
        assert_eq!(m.phase, phase);
    }
    let mut m = module("READY");
    relay_module_after_uncertain_delivery(&mut m);
    assert_eq!(m.phase, "RECOVERY_REQUIRED");
    relay_module_after_recovery(&mut m, 1);
    assert_eq!(m.phase, "RECOVERY_REQUIRED");
    relay_module_after_recovery(&mut m, 0);
    assert_eq!(m.phase, "READY");
}

fn entry(id: &str, module: &str, state: DeliveryState) -> RelayQueueEntry {
    RelayQueueEntry { message_id: id.into(), module_id: module.into(), delivery_state: state, module_finished: false }
}

fn named(id: &str, phase: &str) -> RelayModuleRecord {
    let mut m = module(phase);
    m.id = id.into();
    m
}

#[test]
fn restart_marks_sent_messages_unknown_and_never_reopens_a_finished_module() {
    let mut queue = vec![
        entry("sent-ready", "ready", DeliveryState::Sent),
        entry("sent-stopped", "stopped", DeliveryState::Sent),
        entry("unknown-done", "done", DeliveryState::Unknown),
        entry("queued-idle", "idle", DeliveryState::Queued),
    ];
    let mut modules = vec![
        named("ready", "WAITING_FOR_CHATGPT"),
        named("stopped", "STOPPED"),
        named("done", "COMPLETED"),
        named("idle", "READY"),
    ];
    assert_eq!(recover_relay_after_restart(&mut queue, &mut modules), 2);
    let states: Vec<DeliveryState> = queue.iter().map(|e| e.delivery_state).collect();
    assert_eq!(
        states,
        vec![DeliveryState::Unknown, DeliveryState::Unknown, DeliveryState::Unknown, DeliveryState::Queued]
    );
    let phases: Vec<&str> = modules.iter().map(|m| m.phase.as_str()).collect();
    assert_eq!(phases, vec!["RECOVERY_REQUIRED", "STOPPED", "COMPLETED", "READY"]);

    let mut calm = vec![entry("unknown-a", "a", DeliveryState::Unknown)];
    let mut calm_modules = vec![named("a", "READY")];
    assert_eq!(recover_relay_after_restart(&mut calm, &mut calm_modules), 0);
    assert_eq!(calm_modules[0].phase, "READY");
}
