//! The module orchestration state machine: ChatGPT plans and reviews, Codex
//! runs one turn at a time, and the user accepts, continues or stops.

use crate::text::{is_blank_str, trim};
use vstd::prelude::*;

verus! {

#[derive(Debug, Clone, Copy, PartialEq, Eq, Structural)]
pub enum Phase {
    WaitingForChatGptPlan,
    StartingCodexTurn,
    CodexRunning,
    WaitingForChatGptReview,
    PausedForAcceptance,
    Blocked,
    Completed,
    Stopped,
}

#[derive(Debug, Clone, PartialEq, Eq)]
pub enum Action {
    SendPlanningRequest,
    StartCodexTurn { round: u32, codex_prompt: String },
    SendReviewRequest { round: u32, codex_summary: String },
    PauseForAcceptance { reason: String },
    Block { reason: String },
}

#[derive(Debug, Clone, PartialEq, Eq, Structural)]
pub struct Runtime {
    pub phase: Phase,
    pub completed_rounds: u32,
    pub pause_after_current_turn: bool,
}

/// An action with its texts as character sequences.
pub enum ActionView {
    SendPlanningRequest,
    StartCodexTurn { round: u32, codex_prompt: Seq<char> },
    SendReviewRequest { round: u32, codex_summary: Seq<char> },
    PauseForAcceptance { reason: Seq<char> },
    Block { reason: Seq<char> },
}

impl View for Action {
    type V = ActionView;

    open spec fn view(&self) -> ActionView {
        match self {
            Action::SendPlanningRequest => ActionView::SendPlanningRequest,
            Action::StartCodexTurn { round, codex_prompt } => ActionView::StartCodexTurn {
                round: *round,
                codex_prompt: codex_prompt@,
            },
            Action::SendReviewRequest { round, codex_summary } => ActionView::SendReviewRequest {
                round: *round,
                codex_summary: codex_summary@,
            },
            Action::PauseForAcceptance { reason } => ActionView::PauseForAcceptance {
                reason: reason@,
            },
            Action::Block { reason } => ActionView::Block { reason: reason@ },
        }
    }
}

/// A failed step's error text, or the step's value.
pub open spec fn text_result<T>(r: Result<T, String>) -> Result<T, Seq<char>> {
    match r {
        Ok(v) => Ok(v),
        Err(e) => Err(e@),
    }
}

/// ChatGPT's reply is awaited: planning or review.
pub open spec fn waits_for_chatgpt(phase: Phase) -> bool {
    phase == Phase::WaitingForChatGptPlan || phase == Phase::WaitingForChatGptReview
}

/// A Codex turn has been handed out and has not finished.
pub open spec fn turn_in_flight(phase: Phase) -> bool {
    phase == Phase::StartingCodexTurn || phase == Phase::CodexRunning
}

/// Automation was under way: a restart must not leave it running unattended.
pub open spec fn automation_in_progress(phase: Phase) -> bool {
    waits_for_chatgpt(phase) || turn_in_flight(phase)
}

pub open spec fn next_task_phase_error() -> Seq<char> {
    "NEXT_TASK is only valid while waiting for ChatGPT planning or review"@
}

pub open spec fn next_task_prompt_error() -> Seq<char> {
    "NEXT_TASK requires a non-empty Codex prompt"@
}

pub open spec fn codex_start_error() -> Seq<char> {
    "Codex can start only after a valid NEXT_TASK"@
}

pub open spec fn codex_completion_error() -> Seq<char> {
    "Codex completion is only valid for a running turn"@
}

pub open spec fn deferred_pause_error() -> Seq<char> {
    "a deferred budget pause requires a running Codex turn"@
}

pub open spec fn module_done_error() -> Seq<char> {
    "MODULE_DONE is only valid while waiting for ChatGPT planning or review"@
}

pub open spec fn approve_error() -> Seq<char> {
    "approval is only valid at an acceptance pause"@
}

pub open spec fn continue_error() -> Seq<char> {
    "continue is only valid after a pause or block"@
}

pub open spec fn stop_error() -> Seq<char> {
    "a running Codex turn cannot be interrupted; it will pause after completion"@
}

pub open spec fn restart_pause_reason() -> Seq<char> {
    "应用重启时存在未完成自动化；已安全暂停等待验收。"@
}

/// The runtime in `phase`, everything else kept.
pub open spec fn in_phase(r: Runtime, phase: Phase) -> Runtime {
    Runtime { phase, ..r }
}

/// What `receive_next_task` does to `r` and what it returns.
pub open spec fn next_task_step(r: Runtime, codex_prompt: String) -> (Runtime, Result<Action, Seq<char>>) {
    if !waits_for_chatgpt(r.phase) {
        (r, Err(next_task_phase_error()))
    } else if trim(codex_prompt@).len() == 0 {
        (r, Err(next_task_prompt_error()))
    } else {
        (
            in_phase(r, Phase::StartingCodexTurn),
            Ok(Action::StartCodexTurn { round: (r.completed_rounds + 1) as u32, codex_prompt }),
        )
    }
}

/// What `codex_started` does to `r` and what it returns.
pub open spec fn started_step(r: Runtime) -> (Runtime, Result<(), Seq<char>>) {
    if r.phase != Phase::StartingCodexTurn {
        (r, Err(codex_start_error()))
    } else {
        (in_phase(r, Phase::CodexRunning), Ok(()))
    }
}

/// What `codex_completed` does to `r` and what it returns.
pub open spec fn completed_step(r: Runtime, codex_summary: String) -> (Runtime, Result<Action, Seq<char>>) {
    if r.phase != Phase::CodexRunning {
        (r, Err(codex_completion_error()))
    } else {
        let rounds = (r.completed_rounds + 1) as u32;
        (
            Runtime { phase: Phase::WaitingForChatGptReview, completed_rounds: rounds, ..r },
            Ok(Action::SendReviewRequest { round: rounds, codex_summary }),
        )
    }
}

/// What `request_pause_after_current_turn` does to `r` and what it returns.
pub open spec fn deferred_pause_step(r: Runtime) -> (Runtime, Result<(), Seq<char>>) {
    if r.phase != Phase::CodexRunning {
        (r, Err(deferred_pause_error()))
    } else {
        (Runtime { pause_after_current_turn: true, ..r }, Ok(()))
    }
}

/// What `receive_module_done` does to `r` and what it returns.
pub open spec fn module_done_step(r: Runtime, reason: String) -> (Runtime, Result<Action, Seq<char>>) {
    if !waits_for_chatgpt(r.phase) {
        (r, Err(module_done_error()))
    } else {
        (in_phase(r, Phase::PausedForAcceptance), Ok(Action::PauseForAcceptance { reason }))
    }
}

/// What `approve` does to `r` and what it returns.
pub open spec fn approve_step(r: Runtime) -> (Runtime, Result<(), Seq<char>>) {
    if r.phase != Phase::PausedForAcceptance {
        (r, Err(approve_error()))
    } else {
        (in_phase(r, Phase::Completed), Ok(()))
    }
}

/// What `continue_after_pause` does to `r` and what it returns.
pub open spec fn continue_step(r: Runtime) -> (Runtime, Result<(), Seq<char>>) {
    if !(r.phase == Phase::PausedForAcceptance || r.phase == Phase::Blocked) {
        (r, Err(continue_error()))
    } else {
        (
            Runtime {
                phase: Phase::WaitingForChatGptPlan,
                pause_after_current_turn: false,
                ..r
            },
            Ok(()),
        )
    }
}

/// What `stop` does to `r` and what it returns.
pub open spec fn stop_step(r: Runtime) -> (Runtime, Result<(), Seq<char>>) {
    if turn_in_flight(r.phase) {
        (r, Err(stop_error()))
    } else {
        (in_phase(r, Phase::Stopped), Ok(()))
    }
}

/// The runtime after a restart, and whether it had to be paused.
pub open spec fn restart_step(r: Runtime) -> Runtime {
    if automation_in_progress(r.phase) {
        in_phase(r, Phase::PausedForAcceptance)
    } else {
        r
    }
}

impl Runtime {
    pub fn start() -> (res: (Self, Action))
        ensures
            res.0 == (Runtime {
                phase: Phase::WaitingForChatGptPlan,
                completed_rounds: 0,
                pause_after_current_turn: false,
            }),
            res.1 == Action::SendPlanningRequest,
    {
        (
            Self {
                phase: Phase::WaitingForChatGptPlan,
                completed_rounds: 0,
                pause_after_current_turn: false,
            },
            Action::SendPlanningRequest,
        )
    }

    pub fn receive_next_task(&mut self, codex_prompt: String) -> (res: Result<Action, String>)
        requires
            waits_for_chatgpt(old(self).phase) && trim(codex_prompt@).len() > 0
                ==> old(self).completed_rounds < u32::MAX,
        ensures
            (*final(self), text_result(res)) == next_task_step(*old(self), codex_prompt),
    {
        if !(self.phase == Phase::WaitingForChatGptPlan || self.phase
            == Phase::WaitingForChatGptReview) {
            return Err(
                String::from_str(
                    "NEXT_TASK is only valid while waiting for ChatGPT planning or review",
                ),
            );
        }
        if is_blank_str(codex_prompt.as_str()) {
            return Err(String::from_str("NEXT_TASK requires a non-empty Codex prompt"));
        }
        self.phase = Phase::StartingCodexTurn;
        Ok(Action::StartCodexTurn { round: self.completed_rounds + 1, codex_prompt })
    }

    pub fn codex_started(&mut self) -> (res: Result<(), String>)
        ensures
            (*final(self), text_result(res)) == started_step(*old(self)),
    {
        if self.phase != Phase::StartingCodexTurn {
            return Err(String::from_str("Codex can start only after a valid NEXT_TASK"));
        }
        self.phase = Phase::CodexRunning;
        Ok(())
    }

    pub fn codex_completed(&mut self, codex_summary: String) -> (res: Result<Action, String>)
        requires
            old(self).phase == Phase::CodexRunning ==> old(self).completed_rounds < u32::MAX,
        ensures
            (*final(self), text_result(res)) == completed_step(*old(self), codex_summary),
    {
        if self.phase != Phase::CodexRunning {
            return Err(String::from_str("Codex completion is only valid for a running turn"));
        }
        self.completed_rounds = self.completed_rounds + 1;
        self.phase = Phase::WaitingForChatGptReview;
        Ok(Action::SendReviewRequest { round: self.completed_rounds, codex_summary })
    }

    pub fn request_pause_after_current_turn(&mut self) -> (res: Result<(), String>)
        ensures
            (*final(self), text_result(res)) == deferred_pause_step(*old(self)),
    {
        if self.phase != Phase::CodexRunning {
            return Err(
                String::from_str("a deferred budget pause requires a running Codex turn"),
            );
        }
        self.pause_after_current_turn = true;
        Ok(())
    }

    pub fn pause(&mut self, reason: String) -> (res: Action)
        ensures
            *final(self) == in_phase(*old(self), Phase::PausedForAcceptance),
            res == (Action::PauseForAcceptance { reason }),
    {
        self.phase = Phase::PausedForAcceptance;
        Action::PauseForAcceptance { reason }
    }

    pub fn receive_module_done(&mut self, reason: String) -> (res: Result<Action, String>)
        ensures
            (*final(self), text_result(res)) == module_done_step(*old(self), reason),
    {
        if !(self.phase == Phase::WaitingForChatGptPlan || self.phase
            == Phase::WaitingForChatGptReview) {
            return Err(
                String::from_str(
                    "MODULE_DONE is only valid while waiting for ChatGPT planning or review",
                ),
            );
        }
        Ok(self.pause(reason))
    }

    pub fn receive_pause(&mut self, reason: String) -> (res: Action)
        ensures
            *final(self) == in_phase(*old(self), Phase::PausedForAcceptance),
            res == (Action::PauseForAcceptance { reason }),
    {
        self.pause(reason)
    }

    pub fn block(&mut self, reason: String) -> (res: Action)
        ensures
            *final(self) == in_phase(*old(self), Phase::Blocked),
            res == (Action::Block { reason }),
    {
        self.phase = Phase::Blocked;
        Action::Block { reason }
    }

    pub fn approve(&mut self) -> (res: Result<(), String>)
        ensures
            (*final(self), text_result(res)) == approve_step(*old(self)),
    {
        if self.phase != Phase::PausedForAcceptance {
            return Err(String::from_str("approval is only valid at an acceptance pause"));
        }
        self.phase = Phase::Completed;
        Ok(())
    }

    pub fn continue_after_pause(&mut self) -> (res: Result<(), String>)
        ensures
            (*final(self), text_result(res)) == continue_step(*old(self)),
    {
        if !(self.phase == Phase::PausedForAcceptance || self.phase == Phase::Blocked) {
            return Err(String::from_str("continue is only valid after a pause or block"));
        }
        self.phase = Phase::WaitingForChatGptPlan;
        self.pause_after_current_turn = false;
        Ok(())
    }

    pub fn stop(&mut self) -> (res: Result<(), String>)
        ensures
            (*final(self), text_result(res)) == stop_step(*old(self)),
    {
        if self.phase == Phase::CodexRunning || self.phase == Phase::StartingCodexTurn {
            return Err(
                String::from_str(
                    "a running Codex turn cannot be interrupted; it will pause after completion",
                ),
            );
        }
        self.phase = Phase::Stopped;
        Ok(())
    }

    pub fn recover_after_restart(&mut self) -> (res: Option<Action>)
        ensures
            *final(self) == restart_step(*old(self)),
            match res {
                Some(Action::PauseForAcceptance { reason }) => automation_in_progress(
                    old(self).phase,
                ) && reason@ == restart_pause_reason(),
                Some(_) => false,
                None => !automation_in_progress(old(self).phase),
            },
    {
        if self.phase == Phase::StartingCodexTurn || self.phase == Phase::CodexRunning
            || self.phase == Phase::WaitingForChatGptPlan || self.phase
            == Phase::WaitingForChatGptReview {
            Some(self.pause(String::from_str("应用重启时存在未完成自动化；已安全暂停等待验收。")))
        } else {
            None
        }
    }
}

/// A refused step leaves the runtime exactly as it was.
pub proof fn lemma_refused_steps_change_nothing(r: Runtime, text: String)
    ensures
        next_task_step(r, text).1 is Err ==> next_task_step(r, text).0 == r,
        started_step(r).1 is Err ==> started_step(r).0 == r,
        completed_step(r, text).1 is Err ==> completed_step(r, text).0 == r,
        deferred_pause_step(r).1 is Err ==> deferred_pause_step(r).0 == r,
        module_done_step(r, text).1 is Err ==> module_done_step(r, text).0 == r,
        approve_step(r).1 is Err ==> approve_step(r).0 == r,
        continue_step(r).1 is Err ==> continue_step(r).0 == r,
        stop_step(r).1 is Err ==> stop_step(r).0 == r,
{
}

/// One full Codex turn, from a valid NEXT_TASK to its completion, counts exactly
/// one round, reviews the round it started, and returns to waiting for review.
pub proof fn lemma_turn_counts_one_round(r: Runtime, prompt: String, summary: String)
    requires
        waits_for_chatgpt(r.phase),
        trim(prompt@).len() > 0,
        r.completed_rounds < u32::MAX,
    ensures
        ({
            let (r1, a1) = next_task_step(r, prompt);
            let (r2, s2) = started_step(r1);
            let (r3, a3) = completed_step(r2, summary);
            &&& a1 == Ok::<Action, Seq<char>>(
                Action::StartCodexTurn { round: (r.completed_rounds + 1) as u32, codex_prompt: prompt },
            )
            &&& s2 is Ok
            &&& a3 == Ok::<Action, Seq<char>>(
                Action::SendReviewRequest { round: (r.completed_rounds + 1) as u32, codex_summary: summary },
            )
            &&& r3.completed_rounds == r.completed_rounds + 1
            &&& r3.phase == Phase::WaitingForChatGptReview
            &&& r3.pause_after_current_turn == r.pause_after_current_turn
        }),
{
}

/// No step ever lowers the number of completed rounds, and only a completed
/// Codex turn raises it.
pub proof fn lemma_rounds_only_grow_on_completion(r: Runtime, text: String)
    requires
        r.completed_rounds < u32::MAX,
    ensures
        next_task_step(r, text).0.completed_rounds == r.completed_rounds,
        started_step(r).0.completed_rounds == r.completed_rounds,
        completed_step(r, text).0.completed_rounds >= r.completed_rounds,
        deferred_pause_step(r).0.completed_rounds == r.completed_rounds,
        module_done_step(r, text).0.completed_rounds == r.completed_rounds,
        approve_step(r).0.completed_rounds == r.completed_rounds,
        continue_step(r).0.completed_rounds == r.completed_rounds,
        stop_step(r).0.completed_rounds == r.completed_rounds,
        restart_step(r).completed_rounds == r.completed_rounds,
{
}

/// A Codex turn that has been handed out cannot be stopped; every other phase can.
pub proof fn lemma_running_turn_cannot_be_stopped(r: Runtime)
    ensures
        turn_in_flight(r.phase) <==> stop_step(r).1 is Err,
        stop_step(r).1 is Ok ==> stop_step(r).0.phase == Phase::Stopped,
{
}

/// After a restart no automation is left in progress, and nothing that was not
/// in progress is touched.
pub proof fn lemma_restart_leaves_nothing_running(r: Runtime)
    ensures
        !automation_in_progress(restart_step(r).phase),
        !automation_in_progress(r.phase) ==> restart_step(r) == r,
{
}

/// Completion is reachable only through the user's approval of an acceptance
/// pause: ChatGPT's MODULE_DONE pauses, it never completes.
pub proof fn lemma_completion_needs_approval(r: Runtime, text: String)
    requires
        r.phase != Phase::Completed,
    ensures
        next_task_step(r, text).0.phase != Phase::Completed,
        started_step(r).0.phase != Phase::Completed,
        completed_step(r, text).0.phase != Phase::Completed,
        deferred_pause_step(r).0.phase != Phase::Completed,
        module_done_step(r, text).0.phase != Phase::Completed,
        continue_step(r).0.phase != Phase::Completed,
        stop_step(r).0.phase != Phase::Completed,
        restart_step(r).phase != Phase::Completed,
        approve_step(r).0.phase == Phase::Completed <==> r.phase == Phase::PausedForAcceptance,
{
}

/// Continuing after a pause or block always returns to planning and drops any
/// deferred budget pause.
pub proof fn lemma_continue_returns_to_planning(r: Runtime)
    requires
        r.phase == Phase::PausedForAcceptance || r.phase == Phase::Blocked,
    ensures
        continue_step(r).1 is Ok,
        continue_step(r).0.phase == Phase::WaitingForChatGptPlan,
        !continue_step(r).0.pause_after_current_turn,
        continue_step(r).0.completed_rounds == r.completed_rounds,
{
}

} // verus!
