use chatgpt_codex_bridge::app_server::{AppServerMessage, AppServerRequest};
use chatgpt_codex_bridge::relay_worker::{RelayWorker, RelayWorkerAction, RelayWorkerInput};

fn empty() -> AppServerMessage {
    AppServerMessage {
        has_error: false,
        error_message: None,
        has_id: false,
        id: None,
        has_method: false,
        method: None,
        result_thread_id: None,
        result_turn_id: None,
        delta: None,
        item_type: None,
        item_text: None,
        turn_status: None,
    }
}

fn reply(id: i64) -> AppServerMessage {
    AppServerMessage { has_id: true, id: Some(id), ..empty() }
}

fn notification(method: &str) -> AppServerMessage {
    AppServerMessage { has_method: true, method: Some(method.into()), ..empty() }
}

fn start_turn(cycle: &str, prompt: &str) -> RelayWorkerInput {
    RelayWorkerInput::StartTurn { cycle_id: cycle.into(), prompt: prompt.into() }
}

#[test]
fn the_first_turn_waits_for_the_thread() {
    let (mut worker, actions) = RelayWorker::start("cycle-1".into());
    assert_eq!(
        actions,
        vec![RelayWorkerAction::Send {
            request: AppServerRequest::Initialize,
            fail_cycle_id: Some("cycle-1".into()),
            fail_reason: None,
        }]
    );
    assert!(worker.step(start_turn("cycle-1", "做事")).is_empty());
    assert!(worker.pending_turn.is_some());

    let actions = worker.step(RelayWorkerInput::Message(reply(1)));
    assert_eq!(actions.len(), 2);
    assert!(matches!(&actions[0], RelayWorkerAction::Send { request: AppServerRequest::Initialized, fail_reason: Some(r), .. } if r == "无法初始化 Codex 对话。"));

    let actions = worker.step(RelayWorkerInput::Message(AppServerMessage { result_thread_id: Some("thread-a".into()), ..reply(2) }));
    assert_eq!(
        actions,
        vec![
            RelayWorkerAction::ThreadReady("thread-a".into()),
            RelayWorkerAction::Send {
                request: AppServerRequest::TurnStart { id: 3, thread_id: "thread-a".into(), text: "做事".into() },
                fail_cycle_id: Some("cycle-1".into()),
                fail_reason: None,
            },
            RelayWorkerAction::TurnStarted { cycle_id: "cycle-1".into(), thread_id: "thread-a".into() },
        ]
    );
    assert_eq!(worker.next_request_id, 4);
    assert!(worker.pending_turn.is_none());
}

#[test]
fn a_completed_turn_hands_back_its_final_text_and_the_worker_can_take_another() {
    let (mut worker, _) = RelayWorker::start("cycle-1".into());
    worker.step(start_turn("cycle-1", "做事"));
    worker.step(RelayWorkerInput::Message(AppServerMessage { result_thread_id: Some("thread-a".into()), ..reply(2) }));
    worker.step(RelayWorkerInput::Message(AppServerMessage { delta: Some(" 完成了 ".into()), ..notification("item/agentMessage/delta") }));
    let actions = worker.step(RelayWorkerInput::Message(AppServerMessage { turn_status: Some("completed".into()), ..notification("turn/completed") }));
    assert_eq!(actions, vec![RelayWorkerAction::TurnCompleted { cycle_id: "cycle-1".into(), summary: "完成了".into() }]);
    assert!(!worker.turn_active);
    assert!(worker.active_cycle_id.is_none());

    let actions = worker.step(start_turn("cycle-2", "继续"));
    assert_eq!(actions.len(), 2);
    assert!(matches!(&actions[0], RelayWorkerAction::Send { request: AppServerRequest::TurnStart { id: 4, .. }, .. }));
    assert!(worker.turn_active);
}

#[test]
fn a_second_turn_is_refused_while_one_runs() {
    let (mut worker, _) = RelayWorker::start("cycle-1".into());
    worker.step(start_turn("cycle-1", "做事"));
    worker.step(RelayWorkerInput::Message(AppServerMessage { result_thread_id: Some("thread-a".into()), ..reply(2) }));
    let actions = worker.step(start_turn("cycle-2", "再做"));
    assert_eq!(
        actions,
        vec![RelayWorkerAction::Fail { cycle_id: Some("cycle-2".into()), reason: "上一 Codex 回合尚未结束，不能启动新的回合。".into() }]
    );
    assert_eq!(worker.active_cycle_id.as_deref(), Some("cycle-1"));
}

#[test]
fn release_is_refused_while_a_turn_runs_and_stops_the_worker_otherwise() {
    let (mut worker, _) = RelayWorker::start("cycle-1".into());
    assert_eq!(worker.step(RelayWorkerInput::Release), vec![RelayWorkerAction::RefuseRelease]);
    worker.active_cycle_id = None;
    assert_eq!(worker.step(RelayWorkerInput::Release), vec![RelayWorkerAction::Exit { released: true }]);
}

#[test]
fn app_server_failures_fail_the_running_cycle_and_stop() {
    let (mut worker, _) = RelayWorker::start("cycle-1".into());
    assert_eq!(
        worker.step(RelayWorkerInput::Disconnected),
        vec![
            RelayWorkerAction::Fail { cycle_id: Some("cycle-1".into()), reason: "Codex App Server 已在回合完成前退出。".into() },
            RelayWorkerAction::Exit { released: false },
        ]
    );
    let (mut worker, _) = RelayWorker::start("cycle-1".into());
    let actions = worker.step(RelayWorkerInput::Message(AppServerMessage { has_error: true, error_message: Some("bad".into()), ..reply(2) }));
    assert_eq!(actions[0], RelayWorkerAction::Fail { cycle_id: Some("cycle-1".into()), reason: "Codex App Server 错误：bad".into() });
    let (mut worker, _) = RelayWorker::start("cycle-1".into());
    let actions = worker.step(RelayWorkerInput::Message(reply(2)));
    assert_eq!(actions[0], RelayWorkerAction::Fail { cycle_id: Some("cycle-1".into()), reason: "Codex 未返回对话 ID。".into() });
    let (mut worker, _) = RelayWorker::start("cycle-1".into());
    let actions = worker.step(RelayWorkerInput::Message(AppServerMessage { turn_status: Some("failed".into()), ..notification("turn/completed") }));
    assert_eq!(actions, vec![RelayWorkerAction::Fail { cycle_id: Some("cycle-1".into()), reason: "Codex 回合以 `failed` 结束。".into() }]);
    assert!(worker.active_cycle_id.is_none());
}

#[test]
fn only_a_turn_start_takes_a_request_id() {
    let (mut worker, _) = RelayWorker::start("cycle-1".into());
    assert!(!worker.starts_turn(&start_turn("cycle-2", "p")));
    assert!(!worker.starts_turn(&RelayWorkerInput::Message(reply(1))));
    let mut thread = reply(2);
    thread.result_thread_id = Some("thread-1".into());
    assert!(!worker.starts_turn(&RelayWorkerInput::Message(thread.clone())));
    worker.step(RelayWorkerInput::Message(thread));
    worker.active_cycle_id = None;
    assert!(worker.starts_turn(&start_turn("cycle-2", "p")));
    assert!(!worker.starts_turn(&RelayWorkerInput::Release));

    worker.next_request_id = i64::MAX;
    let actions = worker.step(RelayWorkerInput::Release);
    assert!(matches!(actions[..], [RelayWorkerAction::Exit { released: true }]));
}
