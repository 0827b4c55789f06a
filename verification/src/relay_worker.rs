//! The worker that holds a relay module's Codex conversation: one App Server
//! thread, one turn at a time, until the module releases it.

use crate::app_server::{
    accumulate_summary, clone_text, completed_status, method_is, summary_after, AppServerMessage,
    AppServerRequest, AppServerRequestView, request_view,
};
use crate::middleware::string_option_view;
use crate::text::{str_equals, trim, trim_str};
use vstd::prelude::*;

verus! {

/// What the worker is told: by the module (start a turn, release) or by the
/// App Server (a message, an unreadable line, the end of its output).
#[derive(Debug, Clone)]
pub enum RelayWorkerInput {
    StartTurn { cycle_id: String, prompt: String },
    Release,
    Message(AppServerMessage),
    ReadError(String),
    Disconnected,
}

/// What the worker does, in order.
#[derive(Debug, Clone, PartialEq, Eq)]
pub enum RelayWorkerAction {
    /// Send the request. If sending fails, fail cycle `fail_cycle_id` with
    /// `fail_reason` (with the sending error when it is `None`) and stop.
    Send { request: AppServerRequest, fail_cycle_id: Option<String>, fail_reason: Option<String> },
    /// Record that the cycle's turn runs on the thread. If recording fails,
    /// fail the cycle with that error and stop.
    TurnStarted { cycle_id: String, thread_id: String },
    /// The module's Codex thread is known.
    ThreadReady(String),
    /// The cycle's turn completed with this final text.
    TurnCompleted { cycle_id: String, summary: String },
    /// The cycle, if any, failed for this reason.
    Fail { cycle_id: Option<String>, reason: String },
    /// A release was asked for while a turn runs; it is refused.
    RefuseRelease,
    /// The worker stops; `released` when the module released it.
    Exit { released: bool },
}

/// The worker's state.
#[derive(Debug, Clone)]
pub struct RelayWorker {
    pub thread_id: Option<String>,
    /// A turn waiting for the thread: cycle id and prompt.
    pub pending_turn: Option<(String, String)>,
    pub active_cycle_id: Option<String>,
    pub next_request_id: i64,
    pub final_summary: String,
    /// Whether a turn is running, as the module sees it.
    pub turn_active: bool,
}

pub struct RelayWorkerView {
    pub thread_id: Option<Seq<char>>,
    pub pending_turn: Option<(Seq<char>, Seq<char>)>,
    pub active_cycle_id: Option<Seq<char>>,
    pub next_request_id: int,
    pub final_summary: Seq<char>,
    pub turn_active: bool,
}

pub open spec fn worker_view(w: RelayWorker) -> RelayWorkerView {
    RelayWorkerView {
        thread_id: string_option_view(w.thread_id),
        pending_turn: match w.pending_turn {
            Some((c, p)) => Some((c@, p@)),
            None => None,
        },
        active_cycle_id: string_option_view(w.active_cycle_id),
        next_request_id: w.next_request_id as int,
        final_summary: w.final_summary@,
        turn_active: w.turn_active,
    }
}

pub enum RelayWorkerInputView {
    StartTurn(Seq<char>, Seq<char>),
    Release,
    Message(AppServerMessage),
    ReadError(Seq<char>),
    Disconnected,
}

pub open spec fn input_view(i: RelayWorkerInput) -> RelayWorkerInputView {
    match i {
        RelayWorkerInput::StartTurn { cycle_id, prompt } => RelayWorkerInputView::StartTurn(cycle_id@, prompt@),
        RelayWorkerInput::Release => RelayWorkerInputView::Release,
        RelayWorkerInput::Message(m) => RelayWorkerInputView::Message(m),
        RelayWorkerInput::ReadError(e) => RelayWorkerInputView::ReadError(e@),
        RelayWorkerInput::Disconnected => RelayWorkerInputView::Disconnected,
    }
}

pub enum RelayWorkerActionView {
    Send(AppServerRequestView, Option<Seq<char>>, Option<Seq<char>>),
    TurnStarted(Seq<char>, Seq<char>),
    ThreadReady(Seq<char>),
    TurnCompleted(Seq<char>, Seq<char>),
    Fail(Option<Seq<char>>, Seq<char>),
    RefuseRelease,
    Exit(bool),
}

pub open spec fn action_view(a: RelayWorkerAction) -> RelayWorkerActionView {
    match a {
        RelayWorkerAction::Send { request, fail_cycle_id, fail_reason } => RelayWorkerActionView::Send(
            request_view(request),
            string_option_view(fail_cycle_id),
            string_option_view(fail_reason),
        ),
        RelayWorkerAction::TurnStarted { cycle_id, thread_id } => RelayWorkerActionView::TurnStarted(
            cycle_id@,
            thread_id@,
        ),
        RelayWorkerAction::ThreadReady(t) => RelayWorkerActionView::ThreadReady(t@),
        RelayWorkerAction::TurnCompleted { cycle_id, summary } => RelayWorkerActionView::TurnCompleted(
            cycle_id@,
            summary@,
        ),
        RelayWorkerAction::Fail { cycle_id, reason } => RelayWorkerActionView::Fail(
            string_option_view(cycle_id),
            reason@,
        ),
        RelayWorkerAction::RefuseRelease => RelayWorkerActionView::RefuseRelease,
        RelayWorkerAction::Exit { released } => RelayWorkerActionView::Exit(released),
    }
}

pub open spec fn actions_view(v: Seq<RelayWorkerAction>) -> Seq<RelayWorkerActionView> {
    v.map_values(|a: RelayWorkerAction| action_view(a))
}

pub open spec fn init_failure_reason() -> Seq<char> {
    "无法初始化 Codex 对话。"@
}

/// The worker's answer to one App Server message.
pub open spec fn message_step(w: RelayWorkerView, m: AppServerMessage) -> (RelayWorkerView, Seq<RelayWorkerActionView>) {
    if m.error_message is Some {
        (
            w,
            seq![
                RelayWorkerActionView::Fail(
                    w.active_cycle_id,
                    "Codex App Server 错误："@ + m.error_message.unwrap()@,
                ),
                RelayWorkerActionView::Exit(false),
            ],
        )
    } else if m.id == Some(2i64) && m.result_thread_id is None {
        (
            RelayWorkerView { thread_id: None, ..w },
            seq![
                RelayWorkerActionView::Fail(w.active_cycle_id, "Codex 未返回对话 ID。"@),
                RelayWorkerActionView::Exit(false),
            ],
        )
    } else {
        let (w1, first) = if m.id == Some(1i64) {
            (
                w,
                seq![
                    RelayWorkerActionView::Send(
                        AppServerRequestView::Initialized,
                        w.active_cycle_id,
                        Some(init_failure_reason()),
                    ),
                    RelayWorkerActionView::Send(
                        AppServerRequestView::ThreadStart,
                        w.active_cycle_id,
                        Some(init_failure_reason()),
                    ),
                ],
            )
        } else if m.id == Some(2i64) {
            let thread = m.result_thread_id.unwrap()@;
            match w.pending_turn {
                Some((cycle, prompt)) => (
                    RelayWorkerView {
                        thread_id: Some(thread),
                        pending_turn: None,
                        next_request_id: w.next_request_id + 1,
                        final_summary: Seq::empty(),
                        ..w
                    },
                    seq![
                        RelayWorkerActionView::ThreadReady(thread),
                        RelayWorkerActionView::Send(
                            AppServerRequestView::TurnStart(w.next_request_id, thread, prompt),
                            Some(cycle),
                            None,
                        ),
                        RelayWorkerActionView::TurnStarted(cycle, thread),
                    ],
                ),
                None => (
                    RelayWorkerView { thread_id: Some(thread), ..w },
                    seq![RelayWorkerActionView::ThreadReady(thread)],
                ),
            }
        } else {
            (w, seq![])
        };
        let w2 = RelayWorkerView { final_summary: summary_after(w1.final_summary, m), ..w1 };
        if method_is(m, "turn/completed"@) {
            let status = completed_status(m);
            if status == "completed"@ {
                match w2.active_cycle_id {
                    Some(cycle) => (
                        RelayWorkerView { active_cycle_id: None, turn_active: false, ..w2 },
                        first + seq![RelayWorkerActionView::TurnCompleted(cycle, trim(w2.final_summary))],
                    ),
                    None => (
                        w2,
                        first + seq![
                            RelayWorkerActionView::Fail(None, "Codex 回合完成事件没有对应的通讯循环。"@),
                        ],
                    ),
                }
            } else {
                (
                    RelayWorkerView { active_cycle_id: None, turn_active: false, ..w2 },
                    first + seq![
                        RelayWorkerActionView::Fail(
                            w2.active_cycle_id,
                            "Codex 回合以 `"@ + status + "` 结束。"@,
                        ),
                    ],
                )
            }
        } else {
            (w2, first)
        }
    }
}

/// Whether an App Server message starts the turn that waited for the thread:
/// the thread arrives and a turn is pending.
pub open spec fn message_starts_turn(w: RelayWorkerView, m: AppServerMessage) -> bool {
    m.error_message is None && m.id == Some(2i64) && m.result_thread_id is Some && w.pending_turn is Some
}

/// Whether the input starts a Codex turn now, which takes the next request id:
/// a new turn on a known thread while none runs, or the thread a waiting turn
/// needed.
pub open spec fn step_starts_turn(w: RelayWorkerView, input: RelayWorkerInputView) -> bool {
    match input {
        RelayWorkerInputView::StartTurn(_, _) => w.thread_id is Some && !(w.active_cycle_id is Some
            && w.pending_turn is None),
        RelayWorkerInputView::Message(m) => message_starts_turn(w, m),
        _ => false,
    }
}

/// The worker's protocol. A new turn is refused while one runs; it waits for
/// the thread when there is none yet; a release is refused while a turn runs
/// or waits; a failure of the App Server fails the running cycle and stops
/// the worker; a completed turn hands its final text back.
pub open spec fn worker_step(w: RelayWorkerView, input: RelayWorkerInputView) -> (RelayWorkerView, Seq<RelayWorkerActionView>) {
    match input {
        RelayWorkerInputView::StartTurn(cycle, prompt) => {
            let w0 = RelayWorkerView { turn_active: true, ..w };
            if w.active_cycle_id is Some && w.pending_turn is None && w.thread_id is Some {
                (
                    w0,
                    seq![
                        RelayWorkerActionView::Fail(
                            Some(cycle),
                            "上一 Codex 回合尚未结束，不能启动新的回合。"@,
                        ),
                    ],
                )
            } else {
                match w.thread_id {
                    Some(thread) => (
                        RelayWorkerView {
                            active_cycle_id: Some(cycle),
                            next_request_id: w.next_request_id + 1,
                            final_summary: Seq::empty(),
                            ..w0
                        },
                        seq![
                            RelayWorkerActionView::Send(
                                AppServerRequestView::TurnStart(w.next_request_id, thread, prompt),
                                Some(cycle),
                                None,
                            ),
                            RelayWorkerActionView::TurnStarted(cycle, thread),
                        ],
                    ),
                    None => (
                        RelayWorkerView {
                            active_cycle_id: Some(cycle),
                            pending_turn: Some((cycle, prompt)),
                            ..w0
                        },
                        seq![],
                    ),
                }
            }
        },
        RelayWorkerInputView::Release => if w.active_cycle_id is Some || w.pending_turn is Some {
            (w, seq![RelayWorkerActionView::RefuseRelease])
        } else {
            (w, seq![RelayWorkerActionView::Exit(true)])
        },
        RelayWorkerInputView::ReadError(e) => (
            w,
            seq![RelayWorkerActionView::Fail(w.active_cycle_id, e), RelayWorkerActionView::Exit(false)],
        ),
        RelayWorkerInputView::Disconnected => (
            w,
            seq![
                RelayWorkerActionView::Fail(
                    w.active_cycle_id,
                    "Codex App Server 已在回合完成前退出。"@,
                ),
                RelayWorkerActionView::Exit(false),
            ],
        ),
        RelayWorkerInputView::Message(m) => message_step(w, m),
    }
}

fn fail_action(cycle_id: &Option<String>, reason: String) -> (a: RelayWorkerAction)
    ensures
        action_view(a) == RelayWorkerActionView::Fail(string_option_view(*cycle_id), reason@),
{
    RelayWorkerAction::Fail { cycle_id: clone_text(cycle_id), reason }
}

impl RelayWorker {
    /// A worker for a module whose first turn is `initial_cycle_id`; it first
    /// sends `initialize`, and fails that cycle if it cannot.
    pub fn start(initial_cycle_id: String) -> (r: (RelayWorker, Vec<RelayWorkerAction>))
        ensures
            worker_view(r.0) == (RelayWorkerView {
                thread_id: None,
                pending_turn: None,
                active_cycle_id: Some(initial_cycle_id@),
                next_request_id: 3,
                final_summary: Seq::empty(),
                turn_active: true,
            }),
            actions_view(r.1@) == seq![
                RelayWorkerActionView::Send(
                    AppServerRequestView::Initialize,
                    Some(initial_cycle_id@),
                    None,
                ),
            ],
    {
        let mut actions: Vec<RelayWorkerAction> = Vec::new();
        actions.push(
            RelayWorkerAction::Send {
                request: AppServerRequest::Initialize,
                fail_cycle_id: Some(initial_cycle_id.clone()),
                fail_reason: None,
            },
        );
        let worker = RelayWorker {
            thread_id: None,
            pending_turn: None,
            active_cycle_id: Some(initial_cycle_id),
            next_request_id: 3,
            final_summary: String::new(),
            turn_active: true,
        };
        assert(actions_view(actions@) =~= seq![
            RelayWorkerActionView::Send(
                AppServerRequestView::Initialize,
                Some(initial_cycle_id@),
                None,
            ),
        ]);
        (worker, actions)
    }

    /// Whether `input` starts a Codex turn now (see `step_starts_turn`).
    pub fn starts_turn(&self, input: &RelayWorkerInput) -> (b: bool)
        ensures
            b == step_starts_turn(worker_view(*self), input_view(*input)),
    {
        match input {
            RelayWorkerInput::StartTurn { .. } => self.thread_id.is_some() && !(
            self.active_cycle_id.is_some() && self.pending_turn.is_none()),
            RelayWorkerInput::Message(m) => m.error_message.is_none() && m.id == Some(2i64)
                && m.result_thread_id.is_some() && self.pending_turn.is_some(),
            _ => false,
        }
    }

    /// Takes one input and says what to do, in order.
    pub fn step(&mut self, input: RelayWorkerInput) -> (actions: Vec<RelayWorkerAction>)
        requires
            step_starts_turn(worker_view(*old(self)), input_view(input)) ==> old(self).next_request_id
                < i64::MAX,
        ensures
            worker_view(*final(self)) == worker_step(worker_view(*old(self)), input_view(input)).0,
            actions_view(actions@) == worker_step(worker_view(*old(self)), input_view(input)).1,
    {
        let mut actions: Vec<RelayWorkerAction> = Vec::new();
        match input {
            RelayWorkerInput::StartTurn { cycle_id, prompt } => {
                self.turn_active = true;
                if self.active_cycle_id.is_some() && self.pending_turn.is_none()
                    && self.thread_id.is_some() {
                    actions.push(
                        RelayWorkerAction::Fail {
                            cycle_id: Some(cycle_id),
                            reason: String::from_str("上一 Codex 回合尚未结束，不能启动新的回合。"),
                        },
                    );
                    return actions;
                }
                self.active_cycle_id = Some(cycle_id.clone());
                match &self.thread_id {
                    Some(thread) => {
                        actions.push(
                            RelayWorkerAction::Send {
                                request: AppServerRequest::TurnStart {
                                    id: self.next_request_id,
                                    thread_id: thread.clone(),
                                    text: prompt,
                                },
                                fail_cycle_id: Some(cycle_id.clone()),
                                fail_reason: None,
                            },
                        );
                        actions.push(
                            RelayWorkerAction::TurnStarted {
                                cycle_id,
                                thread_id: thread.clone(),
                            },
                        );
                        self.next_request_id = self.next_request_id + 1;
                        self.final_summary = String::new();
                    },
                    None => {
                        self.pending_turn = Some((cycle_id, prompt));
                    },
                }
                actions
            },
            RelayWorkerInput::Release => {
                if self.active_cycle_id.is_some() || self.pending_turn.is_some() {
                    actions.push(RelayWorkerAction::RefuseRelease);
                } else {
                    actions.push(RelayWorkerAction::Exit { released: true });
                }
                actions
            },
            RelayWorkerInput::ReadError(e) => {
                actions.push(fail_action(&self.active_cycle_id, e));
                actions.push(RelayWorkerAction::Exit { released: false });
                actions
            },
            RelayWorkerInput::Disconnected => {
                actions.push(
                    fail_action(
                        &self.active_cycle_id,
                        String::from_str("Codex App Server 已在回合完成前退出。"),
                    ),
                );
                actions.push(RelayWorkerAction::Exit { released: false });
                actions
            },
            RelayWorkerInput::Message(m) => self.take_message(&m),
        }
    }

    fn take_message(&mut self, m: &AppServerMessage) -> (actions: Vec<RelayWorkerAction>)
        requires
            message_starts_turn(worker_view(*old(self)), *m) ==> old(self).next_request_id < i64::MAX,
        ensures
            worker_view(*final(self)) == message_step(worker_view(*old(self)), *m).0,
            actions_view(actions@) == message_step(worker_view(*old(self)), *m).1,
    {
        let mut actions: Vec<RelayWorkerAction> = Vec::new();
        if let Some(error) = &m.error_message {
            let reason = String::from_str("Codex App Server 错误：").concat(error.as_str());
            actions.push(fail_action(&self.active_cycle_id, reason));
            actions.push(RelayWorkerAction::Exit { released: false });
            return actions;
        }
        if m.id == Some(1i64) {
            actions.push(
                RelayWorkerAction::Send {
                    request: AppServerRequest::Initialized,
                    fail_cycle_id: clone_text(&self.active_cycle_id),
                    fail_reason: Some(String::from_str("无法初始化 Codex 对话。")),
                },
            );
            actions.push(
                RelayWorkerAction::Send {
                    request: AppServerRequest::ThreadStart,
                    fail_cycle_id: clone_text(&self.active_cycle_id),
                    fail_reason: Some(String::from_str("无法初始化 Codex 对话。")),
                },
            );
        } else if m.id == Some(2i64) {
            match &m.result_thread_id {
                None => {
                    self.thread_id = None;
                    actions.push(
                        fail_action(
                            &self.active_cycle_id,
                            String::from_str("Codex 未返回对话 ID。"),
                        ),
                    );
                    actions.push(RelayWorkerAction::Exit { released: false });
                    return actions;
                },
                Some(thread) => {
                    self.thread_id = Some(thread.clone());
                    actions.push(RelayWorkerAction::ThreadReady(thread.clone()));
                    let pending = self.pending_turn.take();
                    if let Some((cycle_id, prompt)) = pending {
                        actions.push(
                            RelayWorkerAction::Send {
                                request: AppServerRequest::TurnStart {
                                    id: self.next_request_id,
                                    thread_id: thread.clone(),
                                    text: prompt,
                                },
                                fail_cycle_id: Some(cycle_id.clone()),
                                fail_reason: None,
                            },
                        );
                        actions.push(
                            RelayWorkerAction::TurnStarted { cycle_id, thread_id: thread.clone() },
                        );
                        self.next_request_id = self.next_request_id + 1;
                        self.final_summary = String::new();
                    }
                },
            }
        }
        accumulate_summary(&mut self.final_summary, m);
        let completed = match &m.method {
            Some(method) => str_equals(method.as_str(), "turn/completed"),
            None => false,
        };
        if completed {
            let finished = match &m.turn_status {
                Some(status) => str_equals(status.as_str(), "completed"),
                None => false,
            };
            proof {
                reveal_strlit("unknown");
                reveal_strlit("completed");
            }
            if finished {
                match self.active_cycle_id.take() {
                    Some(cycle_id) => {
                        self.turn_active = false;
                        let summary = String::from_str(trim_str(self.final_summary.as_str()));
                        actions.push(RelayWorkerAction::TurnCompleted { cycle_id, summary });
                    },
                    None => {
                        actions.push(
                            RelayWorkerAction::Fail {
                                cycle_id: None,
                                reason: String::from_str("Codex 回合完成事件没有对应的通讯循环。"),
                            },
                        );
                    },
                }
            } else {
                self.turn_active = false;
                let status = match &m.turn_status {
                    Some(s) => s.clone(),
                    None => String::from_str("unknown"),
                };
                let reason = String::from_str("Codex 回合以 `").concat(status.as_str()).concat("` 结束。");
                let cycle_id = self.active_cycle_id.take();
                actions.push(RelayWorkerAction::Fail { cycle_id, reason });
            }
        }
        actions
    }
}

/// A prompt reaches Codex unchanged: when a turn starts on a known thread,
/// or when the thread a waiting turn needed arrives, the `turn/start` request
/// carries the prompt as it was given, for the cycle it was given for.
pub proof fn lemma_worker_sends_the_prompt_verbatim(
    w: RelayWorkerView,
    cycle: Seq<char>,
    prompt: Seq<char>,
    m: AppServerMessage,
)
    ensures
        !(w.active_cycle_id is Some && w.pending_turn is None && w.thread_id is Some) && w.thread_id
            is Some ==> worker_step(w, RelayWorkerInputView::StartTurn(cycle, prompt)).1[0]
            == RelayWorkerActionView::Send(
            AppServerRequestView::TurnStart(w.next_request_id, w.thread_id.unwrap(), prompt),
            Some(cycle),
            None,
        ),
        w.thread_id is None ==> worker_step(w, RelayWorkerInputView::StartTurn(cycle, prompt)).0.pending_turn
            == Some((cycle, prompt)),
        m.error_message is None && m.id == Some(2i64) && m.result_thread_id is Some
            && w.pending_turn == Some((cycle, prompt)) ==> message_step(w, m).1[1]
            == RelayWorkerActionView::Send(
            AppServerRequestView::TurnStart(w.next_request_id, m.result_thread_id.unwrap()@, prompt),
            Some(cycle),
            None,
        ),
{
    if m.error_message is None && m.id == Some(2i64) && m.result_thread_id is Some
        && w.pending_turn == Some((cycle, prompt)) {
        let (w1, first) = (
            RelayWorkerView {
                thread_id: Some(m.result_thread_id.unwrap()@),
                pending_turn: None,
                next_request_id: w.next_request_id + 1,
                final_summary: Seq::empty(),
                ..w
            },
            seq![
                RelayWorkerActionView::ThreadReady(m.result_thread_id.unwrap()@),
                RelayWorkerActionView::Send(
                    AppServerRequestView::TurnStart(w.next_request_id, m.result_thread_id.unwrap()@, prompt),
                    Some(cycle),
                    None,
                ),
                RelayWorkerActionView::TurnStarted(cycle, m.result_thread_id.unwrap()@),
            ],
        );
        assert((first + seq![RelayWorkerActionView::Fail(None, "x"@)])[1] == first[1]);
    }
}

} // verus!
