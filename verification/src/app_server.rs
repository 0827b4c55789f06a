//! The conversation with a local Codex App Server: what its messages mean,
//! which requests answer them, and what the user is told.

use crate::middleware::{string_option_view, wrap_codex_task, ModuleRecord};
use crate::orchestration::{in_phase, Action, Phase, Runtime};
use crate::relay_channel::or_default;
use crate::text::{str_equals, trim, trim_str};
use vstd::prelude::*;

verus! {

#[derive(Debug, Clone, Copy, PartialEq, Eq, Structural)]
pub enum CodexExecutionPhase {
    Starting,
    Running,
    Completed,
    Blocked,
    Failed,
}

#[derive(Debug, Clone)]
pub struct CodexExecutionEvent {
    pub module_id: String,
    pub phase: CodexExecutionPhase,
    pub status_line: String,
    pub thread_id: Option<String>,
    pub turn_id: Option<String>,
}

#[derive(Debug, Clone)]
pub struct CodexTurnResult {
    pub module_id: String,
    pub status: CodexExecutionPhase,
    pub summary: String,
    pub thread_id: Option<String>,
    pub turn_id: Option<String>,
}

/// One JSON-RPC message from the App Server, read as far as the conversation
/// needs it. Each text is present only where the message holds a string there.
#[derive(Debug, Clone)]
pub struct AppServerMessage {
    /// The message has an `error` member.
    pub has_error: bool,
    /// `error.message`.
    pub error_message: Option<String>,
    /// The message has an `id` member.
    pub has_id: bool,
    /// `id`, when it is an integer that fits in `i64`.
    pub id: Option<i64>,
    /// The message has a `method` member.
    pub has_method: bool,
    /// `method`.
    pub method: Option<String>,
    /// `result.thread.id`.
    pub result_thread_id: Option<String>,
    /// `result.turn.id`.
    pub result_turn_id: Option<String>,
    /// `params.delta`.
    pub delta: Option<String>,
    /// `params.item.type`.
    pub item_type: Option<String>,
    /// `params.item.text`.
    pub item_text: Option<String>,
    /// `params.turn.status`.
    pub turn_status: Option<String>,
}

/// A request to the App Server.
#[derive(Debug, Clone, PartialEq, Eq)]
pub enum AppServerRequest {
    /// `initialize`, id 1, with the middleware's client information.
    Initialize,
    /// The `initialized` notification.
    Initialized,
    /// `thread/start`, id 2.
    ThreadStart,
    /// `turn/start` with this id, on this thread, with this text as input.
    TurnStart { id: i64, thread_id: String, text: String },
}

pub enum AppServerRequestView {
    Initialize,
    Initialized,
    ThreadStart,
    TurnStart(int, Seq<char>, Seq<char>),
}

pub open spec fn request_view(r: AppServerRequest) -> AppServerRequestView {
    match r {
        AppServerRequest::Initialize => AppServerRequestView::Initialize,
        AppServerRequest::Initialized => AppServerRequestView::Initialized,
        AppServerRequest::ThreadStart => AppServerRequestView::ThreadStart,
        AppServerRequest::TurnStart { id, thread_id, text } => AppServerRequestView::TurnStart(
            id as int,
            thread_id@,
            text@,
        ),
    }
}

pub open spec fn requests_view(v: Seq<AppServerRequest>) -> Seq<AppServerRequestView> {
    v.map_values(|r: AppServerRequest| request_view(r))
}

pub struct CodexExecutionEventView {
    pub module_id: Seq<char>,
    pub phase: CodexExecutionPhase,
    pub status_line: Seq<char>,
    pub thread_id: Option<Seq<char>>,
    pub turn_id: Option<Seq<char>>,
}

pub open spec fn event_view(e: CodexExecutionEvent) -> CodexExecutionEventView {
    CodexExecutionEventView {
        module_id: e.module_id@,
        phase: e.phase,
        status_line: e.status_line@,
        thread_id: string_option_view(e.thread_id),
        turn_id: string_option_view(e.turn_id),
    }
}

pub open spec fn events_view(v: Seq<CodexExecutionEvent>) -> Seq<CodexExecutionEventView> {
    v.map_values(|e: CodexExecutionEvent| event_view(e))
}

pub open spec fn method_is(m: AppServerMessage, name: Seq<char>) -> bool {
    string_option_view(m.method) == Some(name)
}

/// The status line of an App Server notification, for the notifications the
/// user is told about.
pub open spec fn notification_status_line(m: AppServerMessage) -> Option<Seq<char>> {
    if method_is(m, "turn/started"@) {
        Some("Codex 回合已开始。"@)
    } else if method_is(m, "item/started"@) {
        Some("Codex 正在处理："@ + or_default(string_option_view(m.item_type), "工作项"@) + "。"@)
    } else if method_is(m, "item/completed"@) {
        Some("Codex 已完成："@ + or_default(string_option_view(m.item_type), "工作项"@) + "。"@)
    } else if method_is(m, "turn/completed"@) {
        Some("Codex 回合结束："@ + or_default(string_option_view(m.turn_status), "unknown"@) + "。"@)
    } else {
        None
    }
}

pub open spec fn running_event(module_id: Seq<char>, line: Seq<char>, thread_id: Option<Seq<char>>, turn_id: Option<Seq<char>>) -> CodexExecutionEventView {
    CodexExecutionEventView {
        module_id,
        phase: CodexExecutionPhase::Running,
        status_line: line,
        thread_id,
        turn_id,
    }
}

pub fn clone_text(o: &Option<String>) -> (r: Option<String>)
    ensures
        r == *o,
{
    match o {
        Some(s) => Some(s.clone()),
        None => None,
    }
}

fn method_equals(m: &AppServerMessage, name: &str) -> (b: bool)
    ensures
        b == method_is(*m, name@),
{
    match &m.method {
        Some(method) => str_equals(method.as_str(), name),
        None => false,
    }
}

fn text_or(o: &Option<String>, default: &str) -> (s: String)
    ensures
        s@ == or_default(string_option_view(*o), default@),
{
    match o {
        Some(t) => t.clone(),
        None => String::from_str(default),
    }
}

/// The status event for an App Server notification, if the user is told
/// about it: turn started, item started or completed, turn completed.
pub fn event_from_notification(
    module_id: &str,
    message: &AppServerMessage,
    thread_id: &Option<String>,
    turn_id: &Option<String>,
) -> (r: Option<CodexExecutionEvent>)
    ensures
        match r {
            Some(e) => notification_status_line(*message) matches Some(line) && event_view(e)
                == running_event(module_id@, line, string_option_view(*thread_id), string_option_view(*turn_id)),
            None => notification_status_line(*message) is None,
        },
{
    let status_line = if method_equals(message, "turn/started") {
        String::from_str("Codex 回合已开始。")
    } else if method_equals(message, "item/started") {
        String::from_str("Codex 正在处理：").concat(text_or(&message.item_type, "工作项").as_str()).concat(
            "。",
        )
    } else if method_equals(message, "item/completed") {
        String::from_str("Codex 已完成：").concat(text_or(&message.item_type, "工作项").as_str()).concat(
            "。",
        )
    } else if method_equals(message, "turn/completed") {
        String::from_str("Codex 回合结束：").concat(text_or(&message.turn_status, "unknown").as_str()).concat(
            "。",
        )
    } else {
        return None;
    };
    Some(
        CodexExecutionEvent {
            module_id: String::from_str(module_id),
            phase: CodexExecutionPhase::Running,
            status_line,
            thread_id: clone_text(thread_id),
            turn_id: clone_text(turn_id),
        },
    )
}

/// The agent's final text as it streams: deltas are appended, a completed
/// agent message replaces it.
pub open spec fn summary_after(summary: Seq<char>, m: AppServerMessage) -> Seq<char> {
    let appended = if method_is(m, "item/agentMessage/delta"@) && m.delta is Some {
        summary + m.delta.unwrap()@
    } else {
        summary
    };
    if method_is(m, "item/completed"@) && string_option_view(m.item_type) == Some("agentMessage"@)
        && m.item_text is Some {
        m.item_text.unwrap()@
    } else {
        appended
    }
}

pub fn accumulate_summary(summary: &mut String, message: &AppServerMessage)
    ensures
        final(summary)@ == summary_after(old(summary)@, *message),
{
    if method_equals(message, "item/agentMessage/delta") {
        if let Some(delta) = &message.delta {
            let appended = summary.clone().concat(delta.as_str());
            *summary = appended;
        }
    }
    if method_equals(message, "item/completed") {
        let is_agent = match &message.item_type {
            Some(t) => str_equals(t.as_str(), "agentMessage"),
            None => false,
        };
        if is_agent {
            if let Some(text) = &message.item_text {
                *summary = text.clone();
            }
        }
    }
}

/// The event that opens a controlled turn.
pub fn starting_event(module_id: &str) -> (e: CodexExecutionEvent)
    ensures
        event_view(e) == (CodexExecutionEventView {
            module_id: module_id@,
            phase: CodexExecutionPhase::Starting,
            status_line: "正在启动本地 Codex App Server…"@,
            thread_id: None,
            turn_id: None,
        }),
{
    CodexExecutionEvent {
        module_id: String::from_str(module_id),
        phase: CodexExecutionPhase::Starting,
        status_line: String::from_str("正在启动本地 Codex App Server…"),
        thread_id: None,
        turn_id: None,
    }
}

/// Why a controlled turn ended without its completion, given what the App
/// Server wrote to its error stream.
pub open spec fn closed_early_reason(stderr: Seq<char>) -> Seq<char> {
    if trim(stderr).len() == 0 {
        "App Server closed before a turn/completed notification."@
    } else {
        "App Server closed before a turn/completed notification: "@ + stderr
    }
}

pub fn app_server_closed_early(stderr: &str) -> (r: String)
    ensures
        r@ == closed_early_reason(stderr@),
{
    if trim_str(stderr).is_empty() {
        String::from_str("App Server closed before a turn/completed notification.")
    } else {
        String::from_str("App Server closed before a turn/completed notification: ").concat(stderr)
    }
}

pub struct CodexTurnResultView {
    pub module_id: Seq<char>,
    pub status: CodexExecutionPhase,
    pub summary: Seq<char>,
    pub thread_id: Option<Seq<char>>,
    pub turn_id: Option<Seq<char>>,
}

pub open spec fn result_view(r: CodexTurnResult) -> CodexTurnResultView {
    CodexTurnResultView {
        module_id: r.module_id@,
        status: r.status,
        summary: r.summary@,
        thread_id: string_option_view(r.thread_id),
        turn_id: string_option_view(r.turn_id),
    }
}

/// One controlled Codex turn for an orchestrated module: the App Server is
/// initialized, a thread is started, the wrapped task is sent as the turn,
/// and the turn's final text is collected until the turn completes.
#[derive(Debug, Clone)]
pub struct AppServerTurn {
    pub module_id: String,
    /// The text sent as the turn: the task wrapped in the module's rules.
    pub turn_text: String,
    pub thread_id: Option<String>,
    pub turn_id: Option<String>,
    pub final_summary: String,
}

pub struct AppServerTurnView {
    pub module_id: Seq<char>,
    pub turn_text: Seq<char>,
    pub thread_id: Option<Seq<char>>,
    pub turn_id: Option<Seq<char>>,
    pub final_summary: Seq<char>,
}

pub open spec fn turn_view(t: AppServerTurn) -> AppServerTurnView {
    AppServerTurnView {
        module_id: t.module_id@,
        turn_text: t.turn_text@,
        thread_id: string_option_view(t.thread_id),
        turn_id: string_option_view(t.turn_id),
        final_summary: t.final_summary@,
    }
}

/// What one App Server message leads to: requests to send, in order; events
/// for the user, in order; and, when the turn is over, its result or error.
#[derive(Debug, Clone)]
pub struct AppServerTurnStep {
    pub requests: Vec<AppServerRequest>,
    pub events: Vec<CodexExecutionEvent>,
    pub outcome: Option<Result<CodexTurnResult, String>>,
}

pub struct AppServerTurnStepView {
    pub requests: Seq<AppServerRequestView>,
    pub events: Seq<CodexExecutionEventView>,
    pub outcome: Option<Result<CodexTurnResultView, Seq<char>>>,
}

pub open spec fn step_view(s: AppServerTurnStep) -> AppServerTurnStepView {
    AppServerTurnStepView {
        requests: requests_view(s.requests@),
        events: events_view(s.events@),
        outcome: match s.outcome {
            Some(Ok(r)) => Some(Ok(result_view(r))),
            Some(Err(e)) => Some(Err(e@)),
            None => None,
        },
    }
}

pub open spec fn input_request_summary(m: AppServerMessage) -> Seq<char> {
    "Codex requested user input through `"@ + or_default(string_option_view(m.method), "unknown"@)
        + "`. The middleware paused without answering it."@
}

pub open spec fn completed_status(m: AppServerMessage) -> Seq<char> {
    or_default(string_option_view(m.turn_status), "unknown"@)
}

pub open spec fn turn_summary(final_summary: Seq<char>, status: Seq<char>) -> Seq<char> {
    if trim(final_summary).len() == 0 {
        "Codex turn ended with status `"@ + status + "` and no final text summary."@
    } else {
        trim(final_summary)
    }
}

/// The controlled turn's protocol. An error ends the turn; a request from
/// Codex for user input pauses it, unanswered; the replies to `initialize`
/// (id 1), `thread/start` (id 2) and `turn/start` (id 3) lead to the next
/// request; notifications are reported; `turn/completed` ends the turn,
/// completed or blocked, with the agent's final text.
pub open spec fn turn_step(t: AppServerTurnView, m: AppServerMessage) -> (AppServerTurnView, AppServerTurnStepView) {
    if m.has_error {
        (
            t,
            AppServerTurnStepView {
                requests: seq![],
                events: seq![],
                outcome: Some(
                    Err(
                        "App Server request failed: "@ + or_default(
                            string_option_view(m.error_message),
                            "unknown App Server error"@,
                        ),
                    ),
                ),
            },
        )
    } else if m.has_id && m.has_method {
        let summary = input_request_summary(m);
        (
            t,
            AppServerTurnStepView {
                requests: seq![],
                events: seq![
                    CodexExecutionEventView {
                        module_id: t.module_id,
                        phase: CodexExecutionPhase::Blocked,
                        status_line: summary,
                        thread_id: t.thread_id,
                        turn_id: t.turn_id,
                    },
                ],
                outcome: Some(
                    Ok(
                        CodexTurnResultView {
                            module_id: t.module_id,
                            status: CodexExecutionPhase::Blocked,
                            summary,
                            thread_id: t.thread_id,
                            turn_id: t.turn_id,
                        },
                    ),
                ),
            },
        )
    } else if m.id == Some(2i64) && m.result_thread_id is None {
        (
            AppServerTurnView { thread_id: None, ..t },
            AppServerTurnStepView {
                requests: seq![],
                events: seq![],
                outcome: Some(Err("App Server did not return a thread ID"@)),
            },
        )
    } else {
        let t1 = if m.id == Some(2i64) {
            AppServerTurnView { thread_id: string_option_view(m.result_thread_id), ..t }
        } else if m.id == Some(3i64) {
            AppServerTurnView { turn_id: string_option_view(m.result_turn_id), ..t }
        } else {
            t
        };
        let requests = if m.id == Some(1i64) {
            seq![AppServerRequestView::Initialized, AppServerRequestView::ThreadStart]
        } else if m.id == Some(2i64) {
            seq![AppServerRequestView::TurnStart(3, m.result_thread_id.unwrap()@, t.turn_text)]
        } else {
            seq![]
        };
        let accepted = if m.id == Some(3i64) {
            seq![running_event(t1.module_id, "Codex 已接受受控任务，正在执行。"@, t1.thread_id, t1.turn_id)]
        } else {
            seq![]
        };
        let notified = match notification_status_line(m) {
            Some(line) => seq![running_event(t1.module_id, line, t1.thread_id, t1.turn_id)],
            None => seq![],
        };
        let t2 = AppServerTurnView { final_summary: summary_after(t.final_summary, m), ..t1 };
        if method_is(m, "turn/completed"@) {
            let status = completed_status(m);
            let phase = if status == "completed"@ {
                CodexExecutionPhase::Completed
            } else {
                CodexExecutionPhase::Blocked
            };
            (
                t2,
                AppServerTurnStepView {
                    requests,
                    events: accepted + notified + seq![
                        CodexExecutionEventView {
                            module_id: t1.module_id,
                            phase,
                            status_line: "Codex 回合结束："@ + status + "。"@,
                            thread_id: t1.thread_id,
                            turn_id: t1.turn_id,
                        },
                    ],
                    outcome: Some(
                        Ok(
                            CodexTurnResultView {
                                module_id: t1.module_id,
                                status: phase,
                                summary: turn_summary(t2.final_summary, status),
                                thread_id: t1.thread_id,
                                turn_id: t1.turn_id,
                            },
                        ),
                    ),
                },
            )
        } else {
            (t2, AppServerTurnStepView { requests, events: accepted + notified, outcome: None })
        }
    }
}

impl AppServerTurn {
    /// A turn that will run `task` for `module`.
    pub fn new(module: &ModuleRecord, task: &str) -> (t: AppServerTurn)
        ensures
            t.module_id == module.id,
            t.turn_text@ == crate::middleware::wrapped_task(*module, task@),
            t.thread_id is None && t.turn_id is None,
            t.final_summary@ == Seq::<char>::empty(),
    {
        AppServerTurn {
            module_id: module.id.clone(),
            turn_text: wrap_codex_task(module, task),
            thread_id: None,
            turn_id: None,
            final_summary: String::new(),
        }
    }

    /// Takes one App Server message.
    pub fn step(&mut self, message: &AppServerMessage) -> (s: AppServerTurnStep)
        ensures
            turn_view(*final(self)) == turn_step(turn_view(*old(self)), *message).0,
            step_view(s).requests == turn_step(turn_view(*old(self)), *message).1.requests,
            step_view(s).events == turn_step(turn_view(*old(self)), *message).1.events,
            step_view(s).outcome == turn_step(turn_view(*old(self)), *message).1.outcome,
    {
        let mut requests: Vec<AppServerRequest> = Vec::new();
        let mut events: Vec<CodexExecutionEvent> = Vec::new();
        if message.has_error {
            let text = String::from_str("App Server request failed: ").concat(
                text_or(&message.error_message, "unknown App Server error").as_str(),
            );
            return AppServerTurnStep { requests, events, outcome: Some(Err(text)) };
        }
        if message.has_id && message.has_method {
            let summary = String::from_str("Codex requested user input through `").concat(
                text_or(&message.method, "unknown").as_str(),
            ).concat("`. The middleware paused without answering it.");
            events.push(
                CodexExecutionEvent {
                    module_id: self.module_id.clone(),
                    phase: CodexExecutionPhase::Blocked,
                    status_line: summary.clone(),
                    thread_id: clone_text(&self.thread_id),
                    turn_id: clone_text(&self.turn_id),
                },
            );
            let result = CodexTurnResult {
                module_id: self.module_id.clone(),
                status: CodexExecutionPhase::Blocked,
                summary,
                thread_id: clone_text(&self.thread_id),
                turn_id: clone_text(&self.turn_id),
            };
            return AppServerTurnStep { requests, events, outcome: Some(Ok(result)) };
        }
        if message.id == Some(1i64) {
            requests.push(AppServerRequest::Initialized);
            requests.push(AppServerRequest::ThreadStart);
        } else if message.id == Some(2i64) {
            self.thread_id = clone_text(&message.result_thread_id);
            match &message.result_thread_id {
                None => {
                    return AppServerTurnStep {
                        requests,
                        events,
                        outcome: Some(Err(String::from_str("App Server did not return a thread ID"))),
                    };
                },
                Some(thread) => {
                    requests.push(
                        AppServerRequest::TurnStart {
                            id: 3,
                            thread_id: thread.clone(),
                            text: self.turn_text.clone(),
                        },
                    );
                },
            }
        } else if message.id == Some(3i64) {
            self.turn_id = clone_text(&message.result_turn_id);
            events.push(
                CodexExecutionEvent {
                    module_id: self.module_id.clone(),
                    phase: CodexExecutionPhase::Running,
                    status_line: String::from_str("Codex 已接受受控任务，正在执行。"),
                    thread_id: clone_text(&self.thread_id),
                    turn_id: clone_text(&self.turn_id),
                },
            );
        }
        if let Some(event) = event_from_notification(
            self.module_id.as_str(),
            message,
            &self.thread_id,
            &self.turn_id,
        ) {
            events.push(event);
        }
        accumulate_summary(&mut self.final_summary, message);
        if method_equals(message, "turn/completed") {
            let status = text_or(&message.turn_status, "unknown");
            let phase = if str_equals(status.as_str(), "completed") {
                CodexExecutionPhase::Completed
            } else {
                CodexExecutionPhase::Blocked
            };
            let trimmed = trim_str(self.final_summary.as_str());
            let summary = if trimmed.is_empty() {
                String::from_str("Codex turn ended with status `").concat(status.as_str()).concat(
                    "` and no final text summary.",
                )
            } else {
                String::from_str(trimmed)
            };
            events.push(
                CodexExecutionEvent {
                    module_id: self.module_id.clone(),
                    phase,
                    status_line: String::from_str("Codex 回合结束：").concat(status.as_str()).concat("。"),
                    thread_id: clone_text(&self.thread_id),
                    turn_id: clone_text(&self.turn_id),
                },
            );
            let result = CodexTurnResult {
                module_id: self.module_id.clone(),
                status: phase,
                summary,
                thread_id: clone_text(&self.thread_id),
                turn_id: clone_text(&self.turn_id),
            };
            return AppServerTurnStep { requests, events, outcome: Some(Ok(result)) };
        }
        AppServerTurnStep { requests, events, outcome: None }
    }
}

/// What a controlled turn's outcome does to the orchestration: a completed
/// turn goes on to the verification of its commit; a turn that ended
/// otherwise blocks the module with its summary; an App Server error blocks
/// it with the error.
pub open spec fn settled_turn(r: Runtime, outcome: Result<CodexTurnResultView, Seq<char>>) -> (Runtime, Option<Seq<char>>) {
    match outcome {
        Ok(t) => if t.status == CodexExecutionPhase::Completed {
            (r, None)
        } else {
            (in_phase(r, Phase::Blocked), Some(t.summary))
        },
        Err(e) => (in_phase(r, Phase::Blocked), Some("Codex App Server 错误："@ + e)),
    }
}

pub open spec fn outcome_view(outcome: Result<CodexTurnResult, String>) -> Result<CodexTurnResultView, Seq<char>> {
    match outcome {
        Ok(t) => Ok(result_view(t)),
        Err(e) => Err(e@),
    }
}

/// Settles a controlled turn's outcome on the orchestration. Returns the
/// completed turn, whose commit is verified next, or `None` when the module
/// was blocked; the block action carries the reason.
pub fn settle_controlled_turn(runtime: &mut Runtime, outcome: Result<CodexTurnResult, String>) -> (r: (Option<CodexTurnResult>, Option<Action>))
    ensures
        *final(runtime) == settled_turn(*old(runtime), outcome_view(outcome)).0,
        match r.0 {
            Some(t) => outcome == Ok::<CodexTurnResult, String>(t) && t.status == CodexExecutionPhase::Completed,
            None => settled_turn(*old(runtime), outcome_view(outcome)).1 is Some,
        },
        match settled_turn(*old(runtime), outcome_view(outcome)).1 {
            Some(reason) => r.1 matches Some(Action::Block { reason: given }) && given@ == reason,
            None => r.1 is None,
        },
{
    match outcome {
        Ok(t) => {
            if t.status == CodexExecutionPhase::Completed {
                (Some(t), None)
            } else {
                let action = runtime.block(t.summary);
                (None, Some(action))
            }
        },
        Err(e) => {
            let reason = String::from_str("Codex App Server 错误：").concat(e.as_str());
            let action = runtime.block(reason);
            (None, Some(action))
        },
    }
}

} // verus!
