use chatgpt_codex_bridge::middleware::{
    apply_acceptance_action, apply_protocol_envelope, begin_codex_turn, budget_is_checkable,
    budget_pause_reason, finish_budget_checkable,
    check_module_start, codex_command_for, default_codex_command, extract_reported_commit_sha,
    finish_codex_turn, module_planning_message, orchestration_phase_from_name,
    orchestration_phase_name, review_message, user_continue_message, validate, wrap_codex_task,
    AcceptanceAction, Budget, InactiveModuleInput, ModuleRecord, TurnStart,
};
use chatgpt_codex_bridge::orchestration::{Action, Phase, Runtime};
use chatgpt_codex_bridge::protocol::{ProtocolEnvelope, ProtocolState};

fn module() -> ModuleRecord {
    ModuleRecord {
        id: "module-1".into(),
        name: "Test".into(),
        repository_path: r"G:\projects\personal-repo".into(),
        target_branch: "main".into(),
        chatgpt_tab_id: 42,
        status: "INACTIVE".into(),
        budget: Budget {
            max_rounds: 6,
            module_timeout_minutes: 120,
            global_timeout_minutes: 240,
        },
        created_at: "2026-08-15T00:00:00Z".into(),
        updated_at: "2026-08-15T00:00:00Z".into(),
    }
}

fn input() -> InactiveModuleInput {
    InactiveModuleInput {
        name: "Adapter".into(),
        repository_path: "/repo".into(),
        target_branch: "main".into(),
        chatgpt_tab_id: 7,
        max_rounds: 3,
        module_timeout_minutes: 30,
        global_timeout_minutes: 60,
    }
}

fn envelope(state: ProtocolState, prompt: Option<&str>) -> ProtocolEnvelope {
    ProtocolEnvelope {
        state,
        module: "Adapter".into(),
        reason: "原因".into(),
        codex_prompt: prompt.map(|p| p.to_string()),
        acceptance_criteria: vec!["works".into()],
        review_scope: None,
        requires_user_input: false,
    }
}

#[test]
fn commit_sha_extraction_requires_a_git_sized_token() {
    assert_eq!(
        extract_reported_commit_sha("commit: abcdef1234567"),
        Some("abcdef1234567".into())
    );
    assert_eq!(extract_reported_commit_sha("no commit reported"), None);
}

#[test]
fn task_wrapper_preserves_safe_smoke_instruction_and_branch() {
    let module = module();
    let wrapped = wrap_codex_task(
        &module,
        "Reply exactly CODEX_ADAPTER_SMOKE_OK. Do not run commands or modify anything.",
    );
    assert!(wrapped.contains("Target branch: main"));
    assert!(wrapped.contains("CODEX_ADAPTER_SMOKE_OK"));
    assert!(wrapped.contains("do not run commands, inspect files, modify files, commit, or push"));
}

#[test]
fn default_codex_command_uses_the_windows_cmd_launcher() {
    if std::path::MAIN_SEPARATOR == '\\' {
        assert_eq!(default_codex_command(), "codex.cmd");
    } else {
        assert_eq!(default_codex_command(), "codex");
    }
}

#[test]
fn the_launcher_depends_only_on_the_platform() {
    assert_eq!(codex_command_for(true), "codex.cmd");
    assert_eq!(codex_command_for(false), "codex");
}

#[test]
fn commit_sha_is_the_first_hex_run_of_seven_to_sixty_four_digits() {
    assert_eq!(extract_reported_commit_sha("sha abc123 then 0123456789abcdef"), Some("0123456789abcdef".into()));
    assert_eq!(extract_reported_commit_sha("abcdef1"), Some("abcdef1".into()));
    let too_long = "a".repeat(65);
    assert_eq!(extract_reported_commit_sha(&too_long), None);
    assert_eq!(extract_reported_commit_sha(""), None);
}

#[test]
fn wrapped_task_is_trimmed_and_names_the_repository() {
    let wrapped = wrap_codex_task(&module(), "  do it  ");
    assert!(wrapped.starts_with("You are executing one controlled middleware turn.\nRepository: G:\\projects\\personal-repo\nTarget branch: main\n\nTask:\ndo it\n\n"));
}

#[test]
fn module_input_needs_names_and_positive_budgets() {
    assert_eq!(validate(&input()), Ok(()));
    let mut blank = input();
    blank.target_branch = "  ".into();
    assert_eq!(
        validate(&blank),
        Err("module name, repository path, and target branch are required".into())
    );
    let mut zero = input();
    zero.global_timeout_minutes = 0;
    assert_eq!(
        validate(&zero),
        Err("ChatGPT tab ID and all budgets must be positive".into())
    );
}

#[test]
fn phase_names_round_trip() {
    for phase in [
        Phase::WaitingForChatGptPlan,
        Phase::StartingCodexTurn,
        Phase::CodexRunning,
        Phase::WaitingForChatGptReview,
        Phase::PausedForAcceptance,
        Phase::Blocked,
        Phase::Completed,
        Phase::Stopped,
    ] {
        assert_eq!(orchestration_phase_from_name(orchestration_phase_name(phase)), Ok(phase));
    }
    assert_eq!(orchestration_phase_name(Phase::CodexRunning), "CODEX_RUNNING");
    assert!(orchestration_phase_from_name("RUNNING").is_err());
}

#[test]
fn budget_reasons_come_in_order() {
    let (runtime, _) = Runtime::start();
    let budget = Budget { max_rounds: 2, module_timeout_minutes: 1, global_timeout_minutes: 2 };
    assert_eq!(budget_pause_reason(&runtime, &budget, 59_999, 0), None);
    assert_eq!(
        budget_pause_reason(&runtime, &budget, 60_000, 0),
        Some("已达到模块最长运行时间 1 分钟。".into())
    );
    assert_eq!(
        budget_pause_reason(&runtime, &budget, 0, 120_000),
        Some("已达到全局最长运行时间 2 分钟。".into())
    );
    let spent = Runtime { phase: Phase::WaitingForChatGptReview, completed_rounds: 2, pause_after_current_turn: false };
    assert_eq!(budget_pause_reason(&spent, &budget, 0, 0), Some("已达到最大任务轮次 2。".into()));
    let deferred = Runtime { phase: Phase::CodexRunning, completed_rounds: 0, pause_after_current_turn: true };
    assert_eq!(
        budget_pause_reason(&deferred, &budget, 0, 0),
        Some("模块或全局时间预算已在当前 Codex 回合期间到达。".into())
    );
}

#[test]
fn a_spent_budget_pauses_instead_of_starting_a_turn() {
    let mut runtime = Runtime { phase: Phase::StartingCodexTurn, completed_rounds: 6, pause_after_current_turn: false };
    let budget = module().budget;
    let started = begin_codex_turn(&mut runtime, &budget, 0, 0).expect("checked");
    assert!(matches!(started, TurnStart::Paused(ref reason) if reason == "已达到最大任务轮次 6。"));
    assert_eq!(runtime.phase, Phase::PausedForAcceptance);

    let mut runtime = Runtime { phase: Phase::StartingCodexTurn, completed_rounds: 0, pause_after_current_turn: false };
    assert!(matches!(begin_codex_turn(&mut runtime, &budget, 0, 0), Ok(TurnStart::Started)));
    assert_eq!(runtime.phase, Phase::CodexRunning);
}

#[test]
fn a_budget_reached_during_a_turn_pauses_after_it() {
    let budget = Budget { max_rounds: 5, module_timeout_minutes: 1, global_timeout_minutes: 10 };
    let mut runtime = Runtime { phase: Phase::CodexRunning, completed_rounds: 0, pause_after_current_turn: false };
    let action = finish_codex_turn(&mut runtime, "done".into(), &budget, 60_000, 0, 60_000, 0);
    assert!(matches!(action, Some(Action::PauseForAcceptance { .. })));
    assert_eq!(runtime.phase, Phase::PausedForAcceptance);
    assert_eq!(runtime.completed_rounds, 1);

    let mut runtime = Runtime { phase: Phase::CodexRunning, completed_rounds: 0, pause_after_current_turn: false };
    let action = finish_codex_turn(&mut runtime, "done".into(), &budget, 0, 0, 0, 0);
    assert_eq!(action, Some(Action::SendReviewRequest { round: 1, codex_summary: "done".into() }));
    assert_eq!(runtime.phase, Phase::WaitingForChatGptReview);
}

#[test]
fn protocol_envelopes_drive_the_runtime() {
    let (mut runtime, _) = Runtime::start();
    let (action, message) = apply_protocol_envelope(&mut runtime, envelope(ProtocolState::NextTask, Some("做事"))).expect("next task");
    assert_eq!(action, Action::StartCodexTurn { round: 1, codex_prompt: "做事".into() });
    assert_eq!(message, "已接收 ChatGPT NEXT_TASK，正在交给 Codex。");
    assert_eq!(runtime.phase, Phase::StartingCodexTurn);

    assert!(apply_protocol_envelope(&mut runtime, envelope(ProtocolState::ModuleDone, None)).is_err());
    let (action, _) = apply_protocol_envelope(&mut runtime, envelope(ProtocolState::Blocked, None)).expect("blocked");
    assert_eq!(action, Action::Block { reason: "原因".into() });
    assert_eq!(runtime.phase, Phase::Blocked);
}

#[test]
fn acceptance_decisions_need_the_active_module_and_a_pause() {
    let module = module();
    let mut runtime = Runtime { phase: Phase::PausedForAcceptance, completed_rounds: 2, pause_after_current_turn: true };
    assert_eq!(
        apply_acceptance_action(&mut runtime, &module, "other", AcceptanceAction::Approve, None).err(),
        Some("another module is active; its acceptance decision must be resolved first".to_string())
    );
    assert!(apply_acceptance_action(&mut runtime, &module, "module-1", AcceptanceAction::Replan, Some("  ")).is_err());
    let outcome = apply_acceptance_action(&mut runtime, &module, "module-1", AcceptanceAction::Replan, Some("换个方案")).expect("replan");
    assert_eq!(outcome.message, "用户要求重新规划，正在等待 ChatGPT。");
    assert!(outcome.message_to_chatgpt.expect("message").contains("换个方案"));
    assert!(!outcome.release_module);
    assert_eq!(runtime.phase, Phase::WaitingForChatGptPlan);
    assert!(!runtime.pause_after_current_turn);

    let mut paused = Runtime { phase: Phase::PausedForAcceptance, completed_rounds: 2, pause_after_current_turn: false };
    let outcome = apply_acceptance_action(&mut paused, &module, "module-1", AcceptanceAction::Approve, None).expect("approve");
    assert!(outcome.release_module);
    assert_eq!(paused.phase, Phase::Completed);
}

#[test]
fn a_module_starts_only_when_nothing_else_runs() {
    assert_eq!(check_module_start(None, true, false), Ok(()));
    assert_eq!(check_module_start(Some("COMPLETED"), true, false), Ok(()));
    assert!(check_module_start(Some("PAUSED_FOR_ACCEPTANCE"), true, false).is_err());
    assert_eq!(
        check_module_start(None, false, false),
        Err("bind the dedicated ChatGPT tab before starting a module".into())
    );
    assert!(check_module_start(Some("STOPPED"), true, true).is_err());
}

#[test]
fn chatgpt_messages_name_the_module() {
    let module = module();
    assert!(module_planning_message(&module).contains("Test"));
    assert!(user_continue_message(&module, None).contains("Test"));
    let review = review_message(&module, 2, "abcdef1", "summary");
    assert!(review.contains("abcdef1"));
    assert!(review.contains("summary"));
}

#[test]
fn only_budgets_that_are_compared_must_be_countable() {
    let huge = Budget { max_rounds: 2, module_timeout_minutes: i64::MAX, global_timeout_minutes: i64::MAX };
    let running = Runtime { phase: Phase::CodexRunning, completed_rounds: 1, pause_after_current_turn: false };
    assert!(!budget_is_checkable(&running, &huge, 0));
    let spent = Runtime { completed_rounds: 2, ..running.clone() };
    assert!(budget_is_checkable(&spent, &huge, 0));
    let deferred = Runtime { pause_after_current_turn: true, ..running.clone() };
    assert!(budget_is_checkable(&deferred, &huge, 0));

    let short_module = Budget { max_rounds: 2, module_timeout_minutes: 1, global_timeout_minutes: i64::MAX };
    assert!(!budget_is_checkable(&running, &short_module, 0));
    assert!(budget_is_checkable(&running, &short_module, 60_000));
    assert!(!finish_budget_checkable(&running, &"done".to_string(), &short_module, 0, 0, 0));
    assert!(finish_budget_checkable(&running, &"done".to_string(), &short_module, 60_000, 0, 0));
    assert!(!finish_budget_checkable(&running, &"done".to_string(), &huge, 0, 0, 0));
}
