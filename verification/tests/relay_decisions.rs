use chatgpt_codex_bridge::relay::{
    decide_queue_relay_message, decide_relay_acceptance_feedback, decide_relay_module_acceptance,
    decide_relay_module_termination, RelayMessageKind, RelayModuleAcceptance, RelayModuleRecord,
    RelayModuleTermination,
};
use chatgpt_codex_bridge::relay_module::{
    apply_relay_module_termination, complete_relay_module, decide_relay_reply,
    relay_module_after_feedback, relay_reply_fits, RelayReplyDecision,
};
use chatgpt_codex_bridge::relay_queue::{cancel_queued_delivery, DeliveryState};

/// A stored relay module as first saved: READY, 12 cycles, 240 minutes.
fn stored_module(id: &str, name: &str) -> RelayModuleRecord {
    RelayModuleRecord {
        id: id.into(),
        name: name.into(),
        working_directory: "G:\\workspace".into(),
        max_cycles: 12,
        max_runtime_minutes: 240,
        retry_template: "retry".into(),
        phase: "READY".into(),
        codex_thread_id: None,
        module_started_at: None,
        stop_after_turn: false,
        invalid_reply_count: 0,
        started_cycles: 0,
        created_at: "2026-08-17T00:00:00Z".into(),
        updated_at: "2026-08-17T00:00:00Z".into(),
    }
}

#[test]
fn accept_relay_module_requires_waiting_for_acceptance_without_local_blockers() {
    let mut module = stored_module("module-a", "模块 A");

    let not_waiting = decide_relay_module_acceptance(Some(&module), 0, 0)
        .expect_err("only a module waiting for acceptance may be accepted");
    assert!(not_waiting.contains("等待人工验收"));

    module.phase = "WAITING_FOR_ACCEPTANCE".into();
    let local_unknown = decide_relay_module_acceptance(Some(&module), 1, 0)
        .expect_err("local unknown delivery must block acceptance");
    assert!(local_unknown.contains("不确定送达"));

    module.stop_after_turn = true;
    let terminating = decide_relay_module_acceptance(Some(&module), 0, 0)
        .expect_err("a terminating module must not be accepted");
    assert!(terminating.contains("正在终止"));
    module.stop_after_turn = false;

    let running = decide_relay_module_acceptance(Some(&module), 0, 1)
        .expect_err("a running Codex cycle must block acceptance");
    assert!(running.contains("当前 Codex 回合仍在运行"));

    assert_eq!(
        decide_relay_module_acceptance(Some(&module), 0, 0),
        Ok(RelayModuleAcceptance::Accepted),
        "other module recovery must not block acceptance"
    );
}

#[test]
fn relay_acceptance_feedback_requires_waiting_phase_and_nonempty_text() {
    let mut module = stored_module("module-a", "模块 A");

    let phase_error = decide_relay_acceptance_feedback("请继续处理验收反馈。", Some(&module))
        .expect_err("only modules waiting for acceptance may submit feedback");
    assert!(phase_error.contains("等待人工验收"));

    module.phase = "WAITING_FOR_ACCEPTANCE".into();
    let empty_error = decide_relay_acceptance_feedback("  ", Some(&module))
        .expect_err("blank feedback must be rejected");
    assert!(empty_error.contains("不能为空"));
}

#[test]
fn acceptance_completes_once_cancels_queued_messages_and_keeps_the_thread() {
    let mut module = stored_module("module-a", "模块 A");
    module.phase = "WAITING_FOR_ACCEPTANCE".into();
    module.codex_thread_id = Some("thread-a".into());
    let mut messages = vec![("queued-a", DeliveryState::Queued), ("sent-a", DeliveryState::Sent)];

    assert_eq!(decide_relay_module_acceptance(Some(&module), 0, 0), Ok(RelayModuleAcceptance::Accepted));
    complete_relay_module(&mut module);
    for message in messages.iter_mut().filter(|m| m.1 == DeliveryState::Queued) {
        message.1 = cancel_queued_delivery(message.1);
    }
    assert_eq!(module.phase, "COMPLETED");
    assert_eq!(module.codex_thread_id.as_deref(), Some("thread-a"));
    assert_eq!(messages, vec![("queued-a", DeliveryState::Failed), ("sent-a", DeliveryState::Sent)]);

    assert_eq!(
        decide_relay_module_acceptance(Some(&module), 0, 0),
        Ok(RelayModuleAcceptance::AlreadyCompleted)
    );
    assert!(decide_queue_relay_message("不应排队", Some(&module)).is_err());

    let mut stopped = stored_module("module-stopped", "已终止模块");
    stopped.phase = "STOPPED".into();
    let error = decide_relay_module_acceptance(Some(&stopped), 0, 0).expect_err("stopped modules cannot be accepted");
    assert!(error.contains("已终止"));
}

#[test]
fn acceptance_feedback_is_taken_once_and_the_module_waits_for_chatgpt() {
    let mut module = stored_module("module-a", "模块 A");
    module.phase = "WAITING_FOR_ACCEPTANCE".into();
    module.codex_thread_id = Some("thread-a".into());
    module.started_cycles = 1;

    assert_eq!(decide_relay_acceptance_feedback("  请根据验收反馈继续。  ", Some(&module)), Ok("请根据验收反馈继续。"));
    relay_module_after_feedback(&mut module);
    assert_eq!(module.phase, "WAITING_FOR_CHATGPT");
    assert_eq!(module.codex_thread_id.as_deref(), Some("thread-a"));
    assert_eq!(module.started_cycles, 1);

    let duplicate = decide_relay_acceptance_feedback("不应加入第二条反馈。", Some(&module))
        .expect_err("feedback may only be submitted once per acceptance pause");
    assert!(duplicate.contains("等待人工验收"));
}

#[test]
fn idle_modules_stop_at_once_and_termination_is_inert_afterwards() {
    for phase in ["READY", "WAITING_FOR_ACCEPTANCE", "BLOCKED", "RECOVERY_REQUIRED", "WAITING_FOR_CHATGPT"] {
        let mut module = stored_module(phase, phase);
        module.phase = phase.into();
        module.codex_thread_id = Some("thread-kept".into());
        let termination = decide_relay_module_termination(Some(&module), 0, 0, false).expect("terminate idle module");
        assert_eq!(termination, RelayModuleTermination::Stopped);
        apply_relay_module_termination(&mut module, termination);
        assert_eq!(module.phase, "STOPPED");
        assert_eq!(module.codex_thread_id.as_deref(), Some("thread-kept"));
        assert_eq!(cancel_queued_delivery(DeliveryState::Queued), DeliveryState::Failed);
        assert_eq!(cancel_queued_delivery(DeliveryState::Sent), DeliveryState::Sent);
        assert_eq!(
            decide_relay_module_termination(Some(&module), 0, 0, false),
            Ok(RelayModuleTermination::AlreadyStopped)
        );
        assert!(decide_queue_relay_message("终态模块不得发送", Some(&module)).is_err());
    }

    let unknown = stored_module("module-unknown", "本模块不确定送达");
    let error = decide_relay_module_termination(Some(&unknown), 1, 0, false).expect_err("local unknown must block termination");
    assert!(error.contains("不确定送达"));

    let safe = stored_module("module-safe", "可终止模块");
    assert_eq!(decide_relay_module_termination(Some(&safe), 0, 0, false), Ok(RelayModuleTermination::Stopped));

    let running = stored_module("module-running", "运行模块");
    assert_eq!(
        decide_relay_module_termination(Some(&running), 0, 1, false),
        Ok(RelayModuleTermination::StopRequested)
    );

    let mut completed = stored_module("module-completed", "已完成模块");
    completed.phase = "COMPLETED".into();
    let error = decide_relay_module_termination(Some(&completed), 0, 0, false).expect_err("completed module cannot be stopped");
    assert!(error.contains("已验收完成"));
}

#[test]
fn full_counters_refuse_only_the_replies_that_count() {
    let mut module = stored_module("module-a", "模块 A");
    module.started_cycles = i64::MAX;
    module.invalid_reply_count = i64::MAX;
    let prompt = "@@@CODEX_PROMPT@@@\n做事\n@@@END_CODEX_PROMPT@@@";
    assert!(relay_reply_fits(&module, RelayMessageKind::Manual, prompt));
    assert!(!relay_reply_fits(&module, RelayMessageKind::Automation, prompt));
    assert!(!relay_reply_fits(&module, RelayMessageKind::Automation, "没有控制块"));
    assert!(relay_reply_fits(&module, RelayMessageKind::Automation, "@@@MODULE_DONE@@@"));
    assert_eq!(
        decide_relay_reply(&mut module, RelayMessageKind::Automation, "@@@MODULE_DONE@@@"),
        RelayReplyDecision::ModuleDone
    );
    assert_eq!(module.phase, "WAITING_FOR_ACCEPTANCE");

    let mut manual = stored_module("module-b", "模块 B");
    manual.started_cycles = i64::MAX;
    assert_eq!(decide_relay_reply(&mut manual, RelayMessageKind::Manual, prompt), RelayReplyDecision::ManualReply);
}
