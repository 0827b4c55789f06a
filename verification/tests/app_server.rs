use chatgpt_codex_bridge::app_server::{
    accumulate_summary, app_server_closed_early, event_from_notification, settle_controlled_turn,
    starting_event, AppServerMessage, AppServerRequest, AppServerTurn, CodexExecutionPhase,
    CodexTurnResult,
};
use chatgpt_codex_bridge::middleware::{Budget, ModuleRecord};
use chatgpt_codex_bridge::orchestration::{Action, Phase, Runtime};

fn empty() -> AppServerMessage {
    AppServerMessage {
        has_error: false,
        error_message: None,
        has_id: false,
        id: None,
        has_method: false,
        method: None,
        result_thread_id: None,
        result_turn_id: None,
        delta: None,
        item_type: None,
        item_text: None,
        turn_status: None,
    }
}

fn notification(method: &str) -> AppServerMessage {
    AppServerMessage { has_method: true, method: Some(method.into()), ..empty() }
}

fn reply(id: i64) -> AppServerMessage {
    AppServerMessage { has_id: true, id: Some(id), ..empty() }
}

fn module() -> ModuleRecord {
    ModuleRecord {
        id: "module-1".into(),
        name: "Test".into(),
        repository_path: "/repo".into(),
        target_branch: "main".into(),
        chatgpt_tab_id: 42,
        status: "INACTIVE".into(),
        budget: Budget { max_rounds: 6, module_timeout_minutes: 120, global_timeout_minutes: 240 },
        created_at: "2026-08-15T00:00:00Z".into(),
        updated_at: "2026-08-15T00:00:00Z".into(),
    }
}

#[test]
fn app_server_notification_maps_to_a_typed_status_event() {
    let message = AppServerMessage {
        item_type: Some("agentMessage".into()),
        item_text: Some("done".into()),
        ..notification("item/completed")
    };
    let event = event_from_notification(
        "module-1",
        &message,
        &Some("thread-1".into()),
        &Some("turn-1".into()),
    )
    .expect("known notification becomes an event");
    assert_eq!(event.phase, CodexExecutionPhase::Running);
    assert_eq!(event.thread_id.as_deref(), Some("thread-1"));
    assert!(event.status_line.contains("agentMessage"));
}

#[test]
fn notification_status_lines() {
    let none: Option<String> = None;
    let line = |m: AppServerMessage| event_from_notification("m", &m, &none, &none).map(|e| e.status_line);
    assert_eq!(line(notification("turn/started")), Some("Codex 回合已开始。".into()));
    assert_eq!(line(notification("item/started")), Some("Codex 正在处理：工作项。".into()));
    assert_eq!(line(notification("turn/completed")), Some("Codex 回合结束：unknown。".into()));
    assert_eq!(
        line(AppServerMessage { turn_status: Some("failed".into()), ..notification("turn/completed") }),
        Some("Codex 回合结束：failed。".into())
    );
    assert_eq!(line(notification("item/agentMessage/delta")), None);
    assert_eq!(line(empty()), None);
}

#[test]
fn deltas_append_and_a_completed_agent_message_replaces() {
    let mut summary = String::new();
    accumulate_summary(&mut summary, &AppServerMessage { delta: Some("Hel".into()), ..notification("item/agentMessage/delta") });
    accumulate_summary(&mut summary, &AppServerMessage { delta: Some("lo".into()), ..notification("item/agentMessage/delta") });
    assert_eq!(summary, "Hello");
    accumulate_summary(&mut summary, &AppServerMessage { item_type: Some("commandExecution".into()), item_text: Some("ls".into()), ..notification("item/completed") });
    assert_eq!(summary, "Hello");
    accumulate_summary(&mut summary, &AppServerMessage { item_type: Some("agentMessage".into()), item_text: Some("Final".into()), ..notification("item/completed") });
    assert_eq!(summary, "Final");
}

#[test]
fn a_controlled_turn_runs_through_the_protocol() {
    let mut turn = AppServerTurn::new(&module(), "task");
    assert_eq!(starting_event("module-1").phase, CodexExecutionPhase::Starting);

    let step = turn.step(&reply(1));
    assert_eq!(step.requests, vec![AppServerRequest::Initialized, AppServerRequest::ThreadStart]);
    assert!(step.outcome.is_none());

    let step = turn.step(&AppServerMessage { result_thread_id: Some("thread-1".into()), ..reply(2) });
    assert_eq!(step.requests.len(), 1);
    match &step.requests[0] {
        AppServerRequest::TurnStart { id, thread_id, text } => {
            assert_eq!(*id, 3);
            assert_eq!(thread_id, "thread-1");
            assert!(text.contains("Task:\ntask"));
        }
        other => panic!("unexpected request {other:?}"),
    }

    let step = turn.step(&AppServerMessage { result_turn_id: Some("turn-1".into()), ..reply(3) });
    assert_eq!(step.events.len(), 1);
    assert_eq!(step.events[0].status_line, "Codex 已接受受控任务，正在执行。");
    assert_eq!(step.events[0].turn_id.as_deref(), Some("turn-1"));

    turn.step(&AppServerMessage { delta: Some("  all done ".into()), ..notification("item/agentMessage/delta") });
    let step = turn.step(&AppServerMessage { turn_status: Some("completed".into()), ..notification("turn/completed") });
    let result = step.outcome.expect("finished").expect("completed");
    assert_eq!(result.status, CodexExecutionPhase::Completed);
    assert_eq!(result.summary, "all done");
    assert_eq!(result.thread_id.as_deref(), Some("thread-1"));
    assert_eq!(step.events.last().expect("event").status_line, "Codex 回合结束：completed。");
}

#[test]
fn a_turn_without_text_or_with_another_status_is_blocked() {
    let mut turn = AppServerTurn::new(&module(), "task");
    let step = turn.step(&AppServerMessage { turn_status: Some("interrupted".into()), ..notification("turn/completed") });
    let result = step.outcome.expect("finished").expect("result");
    assert_eq!(result.status, CodexExecutionPhase::Blocked);
    assert_eq!(result.summary, "Codex turn ended with status `interrupted` and no final text summary.");
}

#[test]
fn errors_and_input_requests_end_the_turn() {
    let mut turn = AppServerTurn::new(&module(), "task");
    let step = turn.step(&AppServerMessage { has_error: true, ..reply(2) });
    assert_eq!(step.outcome.expect("ended").err(), Some("App Server request failed: unknown App Server error".to_string()));

    let mut turn = AppServerTurn::new(&module(), "task");
    let step = turn.step(&reply(2));
    assert_eq!(step.outcome.expect("ended").err(), Some("App Server did not return a thread ID".to_string()));

    let mut turn = AppServerTurn::new(&module(), "task");
    let request = AppServerMessage { has_id: true, id: Some(9), ..notification("item/tool/requestUserInput") };
    let step = turn.step(&request);
    let result = step.outcome.expect("ended").expect("paused");
    assert_eq!(result.status, CodexExecutionPhase::Blocked);
    assert_eq!(
        result.summary,
        "Codex requested user input through `item/tool/requestUserInput`. The middleware paused without answering it."
    );
}

#[test]
fn an_early_close_reports_the_error_stream() {
    assert_eq!(app_server_closed_early("  \n"), "App Server closed before a turn/completed notification.");
    assert_eq!(app_server_closed_early("boom"), "App Server closed before a turn/completed notification: boom");
}

#[test]
fn turn_outcomes_settle_the_orchestration() {
    let running = Runtime { phase: Phase::CodexRunning, completed_rounds: 0, pause_after_current_turn: false };
    let completed = CodexTurnResult {
        module_id: "m".into(),
        status: CodexExecutionPhase::Completed,
        summary: "ok".into(),
        thread_id: None,
        turn_id: None,
    };
    let mut runtime = running.clone();
    let (turn, action) = settle_controlled_turn(&mut runtime, Ok(completed));
    assert!(turn.is_some());
    assert!(action.is_none());
    assert_eq!(runtime, running);

    let mut runtime = running.clone();
    let (turn, action) = settle_controlled_turn(&mut runtime, Err("gone".into()));
    assert!(turn.is_none());
    assert_eq!(action, Some(Action::Block { reason: "Codex App Server 错误：gone".into() }));
    assert_eq!(runtime.phase, Phase::Blocked);
}
