use chatgpt_codex_bridge::relay::{
    check_relay_codex_turn_start, decide_queue_relay_message, decide_relay_acceptance_feedback,
    decide_relay_codex_release, decide_relay_codex_result, decide_relay_codex_result_queueing,
    decide_relay_codex_start, decide_relay_module_acceptance, decide_relay_module_termination,
    is_terminal_phase, new_relay_codex_cycle, new_relay_module, relay_codex_start_block_reason,
    route_relay_codex_turn, session_belongs_to, validate_relay_module, RelayCodexCycleRecord,
    RelayCodexResultQueueing, RelayCodexResultReceipt, RelayCodexRoute, RelayCodexStart,
    RelayMessageKind, RelayModuleAcceptance, RelayModuleInput, RelayModuleRecord,
    RelayModuleTermination,
};

fn input() -> RelayModuleInput {
    RelayModuleInput {
        name: " 模块 A ".into(),
        working_directory: " /work ".into(),
        max_cycles: 3,
        max_runtime_minutes: 60,
        retry_template: " 请重试 ".into(),
    }
}

fn module(phase: &str) -> RelayModuleRecord {
    let mut m = new_relay_module("module-a".into(), &input(), "2026-01-01T00:00:00Z".into());
    m.phase = phase.into();
    m
}

fn cycle(status: &str) -> RelayCodexCycleRecord {
    let mut c = new_relay_codex_cycle("cycle-1".into(), "module-a", 1, "做事", "now".into());
    c.status = status.into();
    c
}

#[test]
fn relay_module_input_is_validated_and_trimmed() {
    assert_eq!(validate_relay_module(&input()), Ok(()));
    let mut blank = input();
    blank.working_directory = "   ".into();
    assert_eq!(validate_relay_module(&blank), Err("请填写模块名称和 Codex 工作目录。".into()));
    let mut zero = input();
    zero.max_cycles = 0;
    assert_eq!(validate_relay_module(&zero), Err("最大循环次数和最长运行时间必须为正数。".into()));
    let mut no_template = input();
    no_template.retry_template = "".into();
    assert_eq!(validate_relay_module(&no_template), Err("请填写 ChatGPT 协议重试模板。".into()));

    let m = module("READY");
    assert_eq!(m.name, "模块 A");
    assert_eq!(m.working_directory, "/work");
    assert_eq!(m.retry_template, "请重试");
    assert_eq!(m.started_cycles, 0);
    assert!(!m.stop_after_turn);
    assert_eq!(RelayMessageKind::Manual.as_db(), "MANUAL");
}

#[test]
fn acceptance_needs_waiting_for_acceptance_without_local_blockers() {
    let waiting = module("WAITING_FOR_ACCEPTANCE");
    assert_eq!(decide_relay_module_acceptance(Some(&waiting), 0, 0), Ok(RelayModuleAcceptance::Accepted));
    assert_eq!(
        decide_relay_module_acceptance(Some(&module("READY")), 0, 0),
        Err("模块当前未等待人工验收，不能验收完成。".into())
    );
    assert_eq!(
        decide_relay_module_acceptance(Some(&waiting), 1, 0),
        Err("请先处理本模块的不确定送达消息。".into())
    );
    assert_eq!(
        decide_relay_module_acceptance(Some(&waiting), 0, 1),
        Err("当前 Codex 回合仍在运行，不能验收完成。".into())
    );
    let mut stopping = waiting.clone();
    stopping.stop_after_turn = true;
    assert_eq!(decide_relay_module_acceptance(Some(&stopping), 0, 0), Err("模块正在终止，不能验收完成。".into()));
    assert_eq!(
        decide_relay_module_acceptance(Some(&module("COMPLETED")), 5, 5),
        Ok(RelayModuleAcceptance::AlreadyCompleted)
    );
    assert_eq!(decide_relay_module_acceptance(Some(&module("STOPPED")), 0, 0), Err("模块已终止，不能验收完成。".into()));
    assert_eq!(decide_relay_module_acceptance(None, 0, 0), Err("传话模块不存在。".into()));
}

#[test]
fn termination_stops_idle_modules_and_defers_running_ones() {
    assert_eq!(decide_relay_module_termination(Some(&module("READY")), 0, 0, false), Ok(RelayModuleTermination::Stopped));
    assert_eq!(decide_relay_module_termination(Some(&module("CODEX_RUNNING")), 0, 1, false), Ok(RelayModuleTermination::StopRequested));
    assert_eq!(decide_relay_module_termination(Some(&module("CODEX_STARTING")), 0, 0, true), Ok(RelayModuleTermination::StopRequested));
    assert_eq!(decide_relay_module_termination(Some(&module("READY")), 1, 0, false), Err("请先处理本模块的不确定送达消息。".into()));
    assert_eq!(decide_relay_module_termination(Some(&module("COMPLETED")), 0, 0, false), Err("模块已验收完成，不能终止。".into()));
    assert_eq!(decide_relay_module_termination(Some(&module("STOPPED")), 3, 3, true), Ok(RelayModuleTermination::AlreadyStopped));
    let mut stopping = module("CODEX_RUNNING");
    stopping.stop_after_turn = true;
    assert_eq!(decide_relay_module_termination(Some(&stopping), 0, 1, true), Ok(RelayModuleTermination::AlreadyStopRequested));
}

#[test]
fn acceptance_feedback_needs_waiting_phase_and_text() {
    let waiting = module("WAITING_FOR_ACCEPTANCE");
    assert_eq!(decide_relay_acceptance_feedback("  请修复  ", Some(&waiting)), Ok("请修复"));
    assert_eq!(decide_relay_acceptance_feedback("   ", Some(&waiting)), Err("验收反馈不能为空。".into()));
    assert_eq!(
        decide_relay_acceptance_feedback("修复", Some(&module("READY"))),
        Err("模块当前未等待人工验收，不能提交验收反馈。".into())
    );
}

#[test]
fn finished_modules_refuse_new_messages() {
    assert_eq!(decide_queue_relay_message(" 你好 ", Some(&module("READY"))), Ok("你好"));
    assert_eq!(decide_queue_relay_message("你好", Some(&module("STOPPED"))), Err("模块已经结束，不能再发送消息。".into()));
    assert_eq!(decide_queue_relay_message("你好", Some(&module("COMPLETED"))), Err("模块已经结束，不能再发送消息。".into()));
    assert_eq!(decide_queue_relay_message("", Some(&module("READY"))), Err("消息不能为空。".into()));
    assert!(is_terminal_phase("STOPPED") && is_terminal_phase("COMPLETED") && !is_terminal_phase("BLOCKED"));
}

#[test]
fn codex_turns_start_only_within_budget() {
    let mut m = module("CODEX_PROMPT_READY");
    assert_eq!(decide_relay_codex_start(&m, None), RelayCodexStart::Start);
    assert_eq!(decide_relay_codex_start(&m, Some(3_599_999_999_999)), RelayCodexStart::Start);
    assert_eq!(decide_relay_codex_start(&m, Some(3_600_000_000_000)), RelayCodexStart::RuntimeBudgetReached);
    m.started_cycles = 3;
    assert_eq!(decide_relay_codex_start(&m, None), RelayCodexStart::CycleBudgetReached);
    m.stop_after_turn = true;
    assert_eq!(
        decide_relay_codex_start(&m, None),
        RelayCodexStart::Refused("模块正在终止，不能启动新的 Codex 回合。")
    );
    assert_eq!(relay_codex_start_block_reason(&module("STOPPED")), Some("模块已经结束，不能启动新的 Codex 回合。"));
}

#[test]
fn one_codex_session_serves_one_module() {
    assert_eq!(route_relay_codex_turn(None, "a"), RelayCodexRoute::NewSession);
    assert_eq!(route_relay_codex_turn(Some("a"), "a"), RelayCodexRoute::ExistingSession);
    assert_eq!(route_relay_codex_turn(Some("b"), "a"), RelayCodexRoute::HeldByOtherModule);
    assert!(session_belongs_to(Some("a"), "a"));
    assert!(!session_belongs_to(Some("b"), "a"));
    assert!(!session_belongs_to(None, "a"));
}

#[test]
fn release_is_refused_while_a_turn_runs() {
    assert_eq!(decide_relay_codex_release(None, "a"), Ok(false));
    assert_eq!(decide_relay_codex_release(Some(("b", true)), "a"), Ok(false));
    assert_eq!(decide_relay_codex_release(Some(("a", false)), "a"), Ok(true));
    assert_eq!(
        decide_relay_codex_release(Some(("a", true)), "a"),
        Err("当前 Codex 回合仍在运行，不能释放 Codex 对话。".into())
    );
}

#[test]
fn a_new_cycle_waits_to_be_sent_to_codex() {
    let c = new_relay_codex_cycle("cycle-1".into(), "module-a", 2, "做事", "now".into());
    assert_eq!(c.status, "WAITING_TO_SEND_CODEX");
    assert_eq!(c.cycle_number, 2);
    assert_eq!(c.prompt_text, "做事");
    assert!(c.result_text.is_none() && c.outbound_chatgpt_message_id.is_none());
    assert_eq!(check_relay_codex_turn_start(&c.status), Ok(()));
    assert_eq!(
        check_relay_codex_turn_start("CODEX_RUNNING"),
        Err("Codex 通讯循环当前状态为 `CODEX_RUNNING`，不能开始回合。".into())
    );
}

#[test]
fn a_final_text_is_stored_once_and_never_overwritten() {
    assert_eq!(decide_relay_codex_result("CODEX_RUNNING", None, "结果"), Ok(RelayCodexResultReceipt::Record));
    assert_eq!(decide_relay_codex_result("CODEX_COMPLETED", Some("结果"), "结果"), Ok(RelayCodexResultReceipt::AlreadyRecorded));
    assert_eq!(
        decide_relay_codex_result("CODEX_COMPLETED", Some("结果"), "另一个"),
        Err("Codex final text 已持久化，不能覆盖。".into())
    );
    assert_eq!(
        decide_relay_codex_result("FAILED", None, "结果"),
        Err("Codex 通讯循环当前状态为 `FAILED`，不能记录 final text。".into())
    );
}

#[test]
fn a_cycle_result_is_queued_once() {
    let mut c = cycle("CODEX_COMPLETED");
    c.result_text = Some("结果".into());
    assert!(matches!(decide_relay_codex_result_queueing(&c), Ok(RelayCodexResultQueueing::Queue(ref t)) if t == "结果"));
    c.outbound_chatgpt_message_id = Some("message-1".into());
    assert!(matches!(decide_relay_codex_result_queueing(&c), Ok(RelayCodexResultQueueing::AlreadyQueued(ref id)) if id == "message-1"));
    let mut no_text = cycle("CODEX_COMPLETED");
    no_text.result_text = None;
    assert!(decide_relay_codex_result_queueing(&no_text).is_err());
    assert!(decide_relay_codex_result_queueing(&cycle("CODEX_RUNNING")).is_err());
}
