//! How a relay module's stored state moves: on ChatGPT's replies, on the
//! user's acceptance and termination, around Codex turns and around uncertain
//! deliveries; and the rules that keep a finished module finished.

use crate::relay::{
    acceptance_decision, queue_decision, start_block_reason, start_decision, terminal_phase,
    termination_decision, is_terminal_phase, RelayMessageKind,
    RelayModuleAcceptance, RelayModuleRecord, RelayModuleTermination,
};
use crate::relay_protocol::{
    input_answers, no_pending_input_error, parse_terminal_control_block,
    terminal_control_block, ControlBlock, ControlBlockView,
};
use crate::app_server::clone_text;
use crate::relay_queue::{
    count_state, mark_in_flight_uncertain_after_restart, restart_step, with_state, DeliveryState,
    RelayQueueEntry,
};
use crate::text::str_equals;
use vstd::prelude::*;

verus! {

/// What follows a ChatGPT reply for a module.
#[derive(Debug, Clone, PartialEq, Eq)]
pub enum RelayReplyDecision {
    /// The module is finished; the reply is kept, nothing else happens.
    TerminalIgnored,
    /// A reply to a manual message; no automation follows.
    ManualReply,
    /// Codex is asked to work: cycle `cycle_number` is created with `prompt`.
    CodexPrompt { prompt: String, cycle_number: i64 },
    /// ChatGPT asks for the user's acceptance.
    ModuleDone,
    /// ChatGPT reports the module blocked, for this reason.
    Blocked(String),
    /// A first invalid reply: the module's retry template is queued once.
    Retry(String),
    /// A second invalid reply in a row: the module is blocked.
    ControlFailed(String),
}

pub enum RelayReplyDecisionView {
    TerminalIgnored,
    ManualReply,
    CodexPrompt(Seq<char>, int),
    ModuleDone,
    Blocked(Seq<char>),
    Retry(Seq<char>),
    ControlFailed(Seq<char>),
}

pub open spec fn reply_view(d: RelayReplyDecision) -> RelayReplyDecisionView {
    match d {
        RelayReplyDecision::TerminalIgnored => RelayReplyDecisionView::TerminalIgnored,
        RelayReplyDecision::ManualReply => RelayReplyDecisionView::ManualReply,
        RelayReplyDecision::CodexPrompt { prompt, cycle_number } => RelayReplyDecisionView::CodexPrompt(
            prompt@,
            cycle_number as int,
        ),
        RelayReplyDecision::ModuleDone => RelayReplyDecisionView::ModuleDone,
        RelayReplyDecision::Blocked(r) => RelayReplyDecisionView::Blocked(r@),
        RelayReplyDecision::Retry(e) => RelayReplyDecisionView::Retry(e@),
        RelayReplyDecision::ControlFailed(e) => RelayReplyDecisionView::ControlFailed(e@),
    }
}

/// An invalid automation reply: the first one is retried, a further one fails.
pub open spec fn invalid_reply(m: RelayModuleRecord, error: Seq<char>) -> RelayReplyDecisionView {
    if m.invalid_reply_count + 1 == 1 {
        RelayReplyDecisionView::Retry(error)
    } else {
        RelayReplyDecisionView::ControlFailed(error)
    }
}

/// The reply rule. A finished module ignores replies; a reply to a manual
/// message starts nothing; an automation reply must end with one control
/// block (no Codex input request is pending in the relay).
pub open spec fn reply_decision(m: RelayModuleRecord, kind: RelayMessageKind, reply: Seq<char>) -> RelayReplyDecisionView {
    if terminal_phase(m.phase@) {
        RelayReplyDecisionView::TerminalIgnored
    } else if kind == RelayMessageKind::Manual {
        RelayReplyDecisionView::ManualReply
    } else {
        match terminal_control_block(reply, None) {
            Ok(ControlBlockView::CodexPrompt(p)) => RelayReplyDecisionView::CodexPrompt(
                p,
                m.started_cycles + 1,
            ),
            Ok(ControlBlockView::ModuleDone) => RelayReplyDecisionView::ModuleDone,
            Ok(ControlBlockView::Blocked(r)) => RelayReplyDecisionView::Blocked(r),
            Ok(ControlBlockView::CodexInput(_)) => invalid_reply(m, no_pending_input_error()),
            Err(e) => invalid_reply(m, e),
        }
    }
}

/// The module's counters can take the reply: a Codex prompt needs room for
/// one more started cycle, an invalid reply for one more invalid reply; any
/// other reply counts nothing.
pub open spec fn reply_counters_fit(m: RelayModuleRecord, kind: RelayMessageKind, reply: Seq<char>) -> bool {
    match reply_decision(m, kind, reply) {
        RelayReplyDecisionView::CodexPrompt(_, _) => m.started_cycles < i64::MAX,
        RelayReplyDecisionView::Retry(_) | RelayReplyDecisionView::ControlFailed(_) => m.invalid_reply_count
            < i64::MAX,
        _ => true,
    }
}

/// `new` is `old` with only its phase changed, to `phase`.
pub open spec fn phase_set(old: RelayModuleRecord, new: RelayModuleRecord, phase: Seq<char>) -> bool {
    new.phase@ == phase && new == RelayModuleRecord { phase: new.phase, ..old }
}

/// The module after a reply: a prompt makes it CODEX_PROMPT_READY and clears
/// the count of invalid replies; MODULE_DONE makes it wait for acceptance;
/// BLOCKED blocks it; an invalid reply is counted, and a second one blocks it.
pub open spec fn module_after_reply(old: RelayModuleRecord, new: RelayModuleRecord, d: RelayReplyDecisionView) -> bool {
    match d {
        RelayReplyDecisionView::TerminalIgnored | RelayReplyDecisionView::ManualReply => new == old,
        RelayReplyDecisionView::CodexPrompt(_, _) => {
            &&& new.phase@ == "CODEX_PROMPT_READY"@
            &&& new == RelayModuleRecord { phase: new.phase, invalid_reply_count: 0, ..old }
        },
        RelayReplyDecisionView::ModuleDone => phase_set(old, new, "WAITING_FOR_ACCEPTANCE"@),
        RelayReplyDecisionView::Blocked(_) => phase_set(old, new, "BLOCKED"@),
        RelayReplyDecisionView::Retry(_) => new == RelayModuleRecord {
            invalid_reply_count: (old.invalid_reply_count + 1) as i64,
            ..old
        },
        RelayReplyDecisionView::ControlFailed(_) => {
            &&& new.phase@ == "BLOCKED"@
            &&& new == RelayModuleRecord {
                phase: new.phase,
                invalid_reply_count: (old.invalid_reply_count + 1) as i64,
                ..old
            }
        },
    }
}

/// Without a pending question count, no reply is read as a Codex input block.
proof fn lemma_no_input_block_without_questions(reply: Seq<char>)
    ensures
        !(terminal_control_block(reply, None) matches Ok(ControlBlockView::CodexInput(_))),
{
    let text = crate::text::trim_end(reply);
    match input_answers(text, None) {
        Ok(input) => {
            assert(input is None);
        },
        Err(_) => {},
    }
}

/// Decides what follows ChatGPT's `reply` to a message of kind `outgoing_kind`
/// of `module`, and moves the module accordingly.
pub fn decide_relay_reply(module: &mut RelayModuleRecord, outgoing_kind: RelayMessageKind, reply: &str) -> (d: RelayReplyDecision)
    requires
        reply_counters_fit(*old(module), outgoing_kind, reply@),
    ensures
        reply_view(d) == reply_decision(*old(module), outgoing_kind, reply@),
        module_after_reply(*old(module), *final(module), reply_view(d)),
{
    if is_terminal_phase(module.phase.as_str()) {
        return RelayReplyDecision::TerminalIgnored;
    }
    if outgoing_kind == RelayMessageKind::Manual {
        return RelayReplyDecision::ManualReply;
    }
    let parsed = parse_terminal_control_block(reply, None);
    let error = match parsed {
        Ok(ControlBlock::CodexPrompt(prompt)) => {
            module.phase = String::from_str("CODEX_PROMPT_READY");
            module.invalid_reply_count = 0;
            return RelayReplyDecision::CodexPrompt { prompt, cycle_number: module.started_cycles + 1 };
        },
        Ok(ControlBlock::ModuleDone) => {
            module.phase = String::from_str("WAITING_FOR_ACCEPTANCE");
            return RelayReplyDecision::ModuleDone;
        },
        Ok(ControlBlock::Blocked(reason)) => {
            module.phase = String::from_str("BLOCKED");
            return RelayReplyDecision::Blocked(reason);
        },
        Ok(ControlBlock::CodexInput(_)) => {
            proof {
                lemma_no_input_block_without_questions(reply@);
            }
            String::from_str("当前没有待回答的 Codex 输入请求")
        },
        Err(e) => e,
    };
    let next_invalid_count = module.invalid_reply_count + 1;
    module.invalid_reply_count = next_invalid_count;
    if next_invalid_count == 1 {
        RelayReplyDecision::Retry(error)
    } else {
        module.phase = String::from_str("BLOCKED");
        RelayReplyDecision::ControlFailed(error)
    }
}

/// Whether the module's counters can take `reply` (see `reply_counters_fit`).
pub fn relay_reply_fits(module: &RelayModuleRecord, outgoing_kind: RelayMessageKind, reply: &str) -> (b: bool)
    ensures
        b == reply_counters_fit(*module, outgoing_kind, reply@),
{
    if is_terminal_phase(module.phase.as_str()) || outgoing_kind == RelayMessageKind::Manual {
        return true;
    }
    match parse_terminal_control_block(reply, None) {
        Ok(ControlBlock::CodexPrompt(_)) => module.started_cycles < i64::MAX,
        Ok(ControlBlock::ModuleDone) | Ok(ControlBlock::Blocked(_)) => true,
        Ok(ControlBlock::CodexInput(_)) => {
            proof {
                lemma_no_input_block_without_questions(reply@);
            }
            module.invalid_reply_count < i64::MAX
        },
        Err(_) => module.invalid_reply_count < i64::MAX,
    }
}

/// The user accepted the module: it is COMPLETED.
pub fn complete_relay_module(module: &mut RelayModuleRecord)
    ensures
        phase_set(*old(module), *final(module), "COMPLETED"@),
{
    module.phase = String::from_str("COMPLETED");
}

/// The module after the user's termination: stopped at once, or marked to
/// stop after the running turn; otherwise unchanged.
pub open spec fn module_after_termination(old: RelayModuleRecord, new: RelayModuleRecord, t: RelayModuleTermination) -> bool {
    match t {
        RelayModuleTermination::Stopped => {
            &&& new.phase@ == "STOPPED"@
            &&& new == RelayModuleRecord { phase: new.phase, stop_after_turn: false, ..old }
        },
        RelayModuleTermination::StopRequested => new == RelayModuleRecord {
            stop_after_turn: true,
            ..old
        },
        _ => new == old,
    }
}

pub fn apply_relay_module_termination(module: &mut RelayModuleRecord, termination: RelayModuleTermination)
    ensures
        module_after_termination(*old(module), *final(module), termination),
{
    match termination {
        RelayModuleTermination::Stopped => {
            module.phase = String::from_str("STOPPED");
            module.stop_after_turn = false;
        },
        RelayModuleTermination::StopRequested => {
            module.stop_after_turn = true;
        },
        _ => {},
    }
}

/// A module marked to stop after its turn, and not finished, stops now.
pub open spec fn stop_finalizes(m: RelayModuleRecord) -> bool {
    m.stop_after_turn && !terminal_phase(m.phase@)
}

pub open spec fn module_after_stop_finalized(old: RelayModuleRecord, new: RelayModuleRecord, changed: bool) -> bool {
    &&& changed == stop_finalizes(old)
    &&& changed ==> new.phase@ == "STOPPED"@ && new == RelayModuleRecord {
        phase: new.phase,
        stop_after_turn: false,
        ..old
    }
    &&& !changed ==> new == old
}

pub fn finalize_relay_module_stop_after_turn(module: &mut RelayModuleRecord) -> (changed: bool)
    ensures
        module_after_stop_finalized(*old(module), *final(module), changed),
{
    if module.stop_after_turn && !is_terminal_phase(module.phase.as_str()) {
        module.phase = String::from_str("STOPPED");
        module.stop_after_turn = false;
        true
    } else {
        false
    }
}

/// A Codex turn starts: one more cycle is spent, and the module's runtime
/// starts with its first turn.
pub open spec fn module_after_turn_start(old: RelayModuleRecord, new: RelayModuleRecord, now: String) -> bool {
    &&& new.phase@ == "CODEX_STARTING"@
    &&& new == RelayModuleRecord {
        phase: new.phase,
        started_cycles: (old.started_cycles + 1) as i64,
        module_started_at: if old.module_started_at is Some {
            old.module_started_at
        } else {
            Some(now)
        },
        ..old
    }
}

pub fn mark_relay_codex_turn_starting(module: &mut RelayModuleRecord, now: String)
    requires
        old(module).started_cycles < i64::MAX,
    ensures
        module_after_turn_start(*old(module), *final(module), now),
{
    module.phase = String::from_str("CODEX_STARTING");
    module.started_cycles = module.started_cycles + 1;
    if module.module_started_at.is_none() {
        module.module_started_at = Some(now);
    }
}

/// Codex accepted the turn: the module is CODEX_RUNNING.
pub fn mark_relay_codex_turn_running(module: &mut RelayModuleRecord)
    ensures
        phase_set(*old(module), *final(module), "CODEX_RUNNING"@),
{
    module.phase = String::from_str("CODEX_RUNNING");
}

/// A spent cycle or runtime budget: the module waits for acceptance.
pub fn pause_relay_module_for_budget(module: &mut RelayModuleRecord)
    ensures
        phase_set(*old(module), *final(module), "WAITING_FOR_ACCEPTANCE"@),
{
    module.phase = String::from_str("WAITING_FOR_ACCEPTANCE");
}

/// A delivery of the module became uncertain: an unfinished module requires
/// recovery; a finished one stays as it is.
pub open spec fn module_after_uncertain_delivery(old: RelayModuleRecord, new: RelayModuleRecord) -> bool {
    if terminal_phase(old.phase@) {
        new == old
    } else {
        phase_set(old, new, "RECOVERY_REQUIRED"@)
    }
}

pub fn relay_module_after_uncertain_delivery(module: &mut RelayModuleRecord)
    ensures
        module_after_uncertain_delivery(*old(module), *final(module)),
{
    if !is_terminal_phase(module.phase.as_str()) {
        module.phase = String::from_str("RECOVERY_REQUIRED");
    }
}

/// After the user resolved one uncertain delivery: an unfinished module is
/// READY when none of its deliveries is still uncertain, else it still
/// requires recovery; a finished module stays as it is.
pub open spec fn module_after_recovery(old: RelayModuleRecord, new: RelayModuleRecord, remaining_unknown: i64) -> bool {
    if terminal_phase(old.phase@) {
        new == old
    } else if remaining_unknown > 0 {
        phase_set(old, new, "RECOVERY_REQUIRED"@)
    } else {
        phase_set(old, new, "READY"@)
    }
}

pub fn relay_module_after_recovery(module: &mut RelayModuleRecord, remaining_unknown: i64)
    ensures
        module_after_recovery(*old(module), *final(module), remaining_unknown),
{
    if is_terminal_phase(module.phase.as_str()) {
        return;
    }
    if remaining_unknown > 0 {
        module.phase = String::from_str("RECOVERY_REQUIRED");
    } else {
        module.phase = String::from_str("READY");
    }
}

/// Whether the queue holds an UNKNOWN message of the module `module_id`.
pub open spec fn owns_unknown(q: Seq<RelayQueueEntry>, module_id: Seq<char>) -> bool {
    exists|j: int|
        0 <= j < q.len() && (#[trigger] q[j]).module_id@ == module_id && q[j].delivery_state
            == DeliveryState::Unknown
}

/// A module at start-up, once the queue has become `q`: a module that owns an
/// uncertain delivery takes the step for an uncertain delivery (an unfinished
/// one requires recovery, a finished one stays as it is); any other is left
/// as it is.
pub open spec fn module_after_restart(old: RelayModuleRecord, new: RelayModuleRecord, q: Seq<RelayQueueEntry>) -> bool {
    if owns_unknown(q, old.id@) {
        module_after_uncertain_delivery(old, new)
    } else {
        new == old
    }
}

fn owns_unknown_message(queue: &Vec<RelayQueueEntry>, module_id: &str) -> (b: bool)
    ensures
        b == owns_unknown(queue@, module_id@),
{
    let mut j: usize = 0;
    while j < queue.len()
        invariant
            j <= queue.len(),
            forall|k: int|
                0 <= k < j ==> !((#[trigger] queue@[k]).module_id@ == module_id@ && queue@[k].delivery_state
                    == DeliveryState::Unknown),
        decreases queue.len() - j,
    {
        if queue[j].delivery_state == DeliveryState::Unknown && str_equals(
            queue[j].module_id.as_str(),
            module_id,
        ) {
            assert(queue@[j as int].module_id@ == module_id@);
            return true;
        }
        j = j + 1;
    }
    false
}

fn copy_module(m: &RelayModuleRecord) -> (c: RelayModuleRecord)
    ensures
        c == *m,
{
    RelayModuleRecord {
        id: m.id.clone(),
        name: m.name.clone(),
        working_directory: m.working_directory.clone(),
        max_cycles: m.max_cycles,
        max_runtime_minutes: m.max_runtime_minutes,
        retry_template: m.retry_template.clone(),
        phase: m.phase.clone(),
        codex_thread_id: clone_text(&m.codex_thread_id),
        module_started_at: clone_text(&m.module_started_at),
        stop_after_turn: m.stop_after_turn,
        invalid_reply_count: m.invalid_reply_count,
        started_cycles: m.started_cycles,
        created_at: m.created_at.clone(),
        updated_at: m.updated_at.clone(),
    }
}

/// Start-up recovery: nobody knows whether a message that was with ChatGPT
/// arrived, so every SENT message becomes UNKNOWN and none is queued again
/// (returns how many). When any did, every module that owns an UNKNOWN
/// message takes the step for an uncertain delivery: an unfinished one
/// requires recovery, and a finished one is never reopened.
pub fn recover_relay_after_restart(queue: &mut Vec<RelayQueueEntry>, modules: &mut Vec<RelayModuleRecord>) -> (n: usize)
    ensures
        n == count_state(old(queue)@, DeliveryState::Sent),
        final(queue)@.len() == old(queue)@.len(),
        forall|i: int|
            0 <= i < old(queue)@.len() ==> #[trigger] final(queue)@[i] == with_state(
                old(queue)@[i],
                restart_step(old(queue)@[i].delivery_state),
            ),
        final(modules)@.len() == old(modules)@.len(),
        n == 0 ==> final(modules)@ == old(modules)@,
        n > 0 ==> forall|i: int|
            0 <= i < old(modules)@.len() ==> module_after_restart(
                old(modules)@[i],
                #[trigger] final(modules)@[i],
                final(queue)@,
            ),
        forall|i: int|
            0 <= i < old(modules)@.len() && terminal_phase(old(modules)@[i].phase@)
                ==> #[trigger] final(modules)@[i] == old(modules)@[i],
{
    let n = mark_in_flight_uncertain_after_restart(queue);
    if n == 0 {
        return n;
    }
    let ghost q = queue@;
    let mut i: usize = 0;
    while i < modules.len()
        invariant
            i <= modules.len(),
            modules@.len() == old(modules)@.len(),
            queue@ == q,
            forall|k: int|
                0 <= k < i ==> module_after_restart(old(modules)@[k], #[trigger] modules@[k], q),
            forall|k: int| i <= k < modules@.len() ==> #[trigger] modules@[k] == old(modules)@[k],
        decreases modules.len() - i,
    {
        if owns_unknown_message(queue, modules[i].id.as_str()) {
            let mut m = copy_module(&modules[i]);
            relay_module_after_uncertain_delivery(&mut m);
            modules.set(i, m);
        }
        i = i + 1;
    }
    n
}

/// Where a completed Codex turn's result goes.
#[derive(Debug, Clone, Copy, PartialEq, Eq, Structural)]
pub enum RelayCodexTurnCompletion {
    /// The result is queued to ChatGPT and the module is READY.
    ReturnedToChatGpt,
    /// The module was being terminated, or is stopped: the result stays local.
    StoppedAfterTurn,
}

/// The module after a Codex turn completed: a stop requested during the turn
/// takes effect; a stopped module keeps the result; an accepted module cannot
/// take it; otherwise the result goes to ChatGPT and the module is READY.
pub open spec fn turn_completion(old: RelayModuleRecord, new: RelayModuleRecord, r: Result<RelayCodexTurnCompletion, Seq<char>>) -> bool {
    if old.stop_after_turn {
        if stop_finalizes(old) {
            &&& r == Ok::<RelayCodexTurnCompletion, Seq<char>>(RelayCodexTurnCompletion::StoppedAfterTurn)
            &&& module_after_stop_finalized(old, new, true)
        } else {
            &&& r == Err::<RelayCodexTurnCompletion, Seq<char>>("终止中的传话模块状态已被并发更新。"@)
            &&& new == old
        }
    } else if old.phase@ == "STOPPED"@ {
        r == Ok::<RelayCodexTurnCompletion, Seq<char>>(RelayCodexTurnCompletion::StoppedAfterTurn)
            && new == old
    } else if old.phase@ == "COMPLETED"@ {
        r == Err::<RelayCodexTurnCompletion, Seq<char>>("模块已验收完成，不能回传 Codex 结果。"@) && new
            == old
    } else {
        r == Ok::<RelayCodexTurnCompletion, Seq<char>>(RelayCodexTurnCompletion::ReturnedToChatGpt)
            && phase_set(old, new, "READY"@)
    }
}

pub open spec fn completion_result(r: Result<RelayCodexTurnCompletion, String>) -> Result<RelayCodexTurnCompletion, Seq<char>> {
    match r {
        Ok(c) => Ok(c),
        Err(e) => Err(e@),
    }
}

pub fn complete_relay_codex_turn(module: &mut RelayModuleRecord) -> (r: Result<RelayCodexTurnCompletion, String>)
    ensures
        turn_completion(*old(module), *final(module), completion_result(r)),
{
    if module.stop_after_turn {
        if !finalize_relay_module_stop_after_turn(module) {
            return Err(String::from_str("终止中的传话模块状态已被并发更新。"));
        }
        return Ok(RelayCodexTurnCompletion::StoppedAfterTurn);
    }
    if str_equals(module.phase.as_str(), "STOPPED") {
        return Ok(RelayCodexTurnCompletion::StoppedAfterTurn);
    }
    if str_equals(module.phase.as_str(), "COMPLETED") {
        return Err(String::from_str("模块已验收完成，不能回传 Codex 结果。"));
    }
    module.phase = String::from_str("READY");
    Ok(RelayCodexTurnCompletion::ReturnedToChatGpt)
}

/// The module after its Codex turn failed: a stop requested during the turn
/// takes effect (`true` when it did); otherwise the module is BLOCKED.
pub open spec fn module_after_codex_failure(old: RelayModuleRecord, new: RelayModuleRecord, stopped: bool) -> bool {
    if old.stop_after_turn {
        module_after_stop_finalized(old, new, stopped)
    } else {
        !stopped && phase_set(old, new, "BLOCKED"@)
    }
}

pub fn relay_module_after_codex_failure(module: &mut RelayModuleRecord) -> (stopped_after_turn: bool)
    ensures
        module_after_codex_failure(*old(module), *final(module), stopped_after_turn),
{
    if module.stop_after_turn {
        finalize_relay_module_stop_after_turn(module)
    } else {
        module.phase = String::from_str("BLOCKED");
        false
    }
}

/// The user's acceptance feedback was queued: the module waits for ChatGPT.
pub fn relay_module_after_feedback(module: &mut RelayModuleRecord)
    ensures
        phase_set(*old(module), *final(module), "WAITING_FOR_CHATGPT"@),
{
    module.phase = String::from_str("WAITING_FOR_CHATGPT");
}

/// The module's Codex thread is known.
pub fn record_relay_codex_thread(module: &mut RelayModuleRecord, thread_id: String)
    ensures
        *final(module) == (RelayModuleRecord { codex_thread_id: Some(thread_id), ..*old(module) }),
{
    module.codex_thread_id = Some(thread_id);
}

/// A finished module stays finished: replies, acceptance, termination,
/// queueing, Codex turns, stop requests and delivery recovery change neither
/// its phase nor anything else. (A failure of its Codex worker is the one
/// event that is not covered: it blocks a module that was not stopping.)
pub proof fn lemma_finished_module_stays_finished(
    m: RelayModuleRecord,
    kind: RelayMessageKind,
    reply: Seq<char>,
    text: Seq<char>,
    unknown_count: i64,
    running_cycle_count: i64,
    has_active_turn: bool,
    runtime_elapsed_ns: Option<i128>,
    remaining_unknown: i64,
    new: RelayModuleRecord,
)
    requires
        terminal_phase(m.phase@),
    ensures
        reply_decision(m, kind, reply) == RelayReplyDecisionView::TerminalIgnored,
        module_after_reply(m, new, reply_decision(m, kind, reply)) ==> new == m,
        !(acceptance_decision(Some(m), unknown_count, running_cycle_count) == Ok::<
            RelayModuleAcceptance,
            Seq<char>,
        >(RelayModuleAcceptance::Accepted)),
        match termination_decision(Some(m), unknown_count, running_cycle_count, has_active_turn) {
            Ok(t) => module_after_termination(m, new, t) ==> new == m,
            Err(_) => true,
        },
        queue_decision(text, Some(m)) is Err,
        start_decision(m, runtime_elapsed_ns) is Refused,
        module_after_uncertain_delivery(m, new) ==> new == m,
        module_after_recovery(m, new, remaining_unknown) ==> new == m,
        !m.stop_after_turn ==> (module_after_stop_finalized(m, new, false) ==> new == m),
        stop_finalizes(m) == false,
{
}

/// A reply to a manual message never starts automation and changes nothing.
pub proof fn lemma_manual_reply_never_automates(m: RelayModuleRecord, reply: Seq<char>, new: RelayModuleRecord)
    requires
        !terminal_phase(m.phase@),
    ensures
        reply_decision(m, RelayMessageKind::Manual, reply) == RelayReplyDecisionView::ManualReply,
        module_after_reply(m, new, reply_decision(m, RelayMessageKind::Manual, reply)) ==> new == m,
{
}

/// An invalid automation reply is retried once: with no invalid reply
/// counted the retry template is queued and one is counted; with one already
/// counted the module is blocked.
pub proof fn lemma_invalid_reply_is_retried_once(m: RelayModuleRecord, reply: Seq<char>, new: RelayModuleRecord)
    requires
        !terminal_phase(m.phase@),
        terminal_control_block(reply, None) is Err,
        m.invalid_reply_count >= 0,
        m.invalid_reply_count < i64::MAX,
        module_after_reply(m, new, reply_decision(m, RelayMessageKind::Automation, reply)),
    ensures
        m.invalid_reply_count == 0 ==> reply_decision(m, RelayMessageKind::Automation, reply) is Retry
            && new.invalid_reply_count == 1 && new.phase == m.phase,
        m.invalid_reply_count > 0 ==> reply_decision(m, RelayMessageKind::Automation, reply) is ControlFailed
            && new.phase@ == "BLOCKED"@,
{
}

/// A valid Codex prompt clears the count of invalid replies, so the next
/// invalid reply is retried again.
pub proof fn lemma_valid_prompt_resets_retry(m: RelayModuleRecord, reply: Seq<char>, new: RelayModuleRecord)
    requires
        !terminal_phase(m.phase@),
        terminal_control_block(reply, None) matches Ok(ControlBlockView::CodexPrompt(_)),
        module_after_reply(m, new, reply_decision(m, RelayMessageKind::Automation, reply)),
    ensures
        new.invalid_reply_count == 0,
        new.started_cycles == m.started_cycles,
        reply_decision(m, RelayMessageKind::Automation, reply) matches RelayReplyDecisionView::CodexPrompt(
            _,
            n,
        ) && n == m.started_cycles + 1,
{
}

/// Acceptance is idempotent: once accepted, accepting again changes nothing.
pub proof fn lemma_acceptance_is_idempotent(m: RelayModuleRecord, new: RelayModuleRecord, unknown_count: i64, running_cycle_count: i64)
    requires
        acceptance_decision(Some(m), unknown_count, running_cycle_count) == Ok::<
            RelayModuleAcceptance,
            Seq<char>,
        >(RelayModuleAcceptance::Accepted),
        phase_set(m, new, "COMPLETED"@),
    ensures
        acceptance_decision(Some(new), unknown_count, running_cycle_count) == Ok::<
            RelayModuleAcceptance,
            Seq<char>,
        >(RelayModuleAcceptance::AlreadyCompleted),
{
}

/// Termination is idempotent: a second termination finds the module stopped
/// or already stopping and changes nothing.
pub proof fn lemma_termination_is_idempotent(
    m: RelayModuleRecord,
    new: RelayModuleRecord,
    t: RelayModuleTermination,
    unknown_count: i64,
    running_cycle_count: i64,
    has_active_turn: bool,
)
    requires
        termination_decision(Some(m), unknown_count, running_cycle_count, has_active_turn) == Ok::<
            RelayModuleTermination,
            Seq<char>,
        >(t),
        module_after_termination(m, new, t),
    ensures
        t == RelayModuleTermination::Stopped || t == RelayModuleTermination::AlreadyStopped
            ==> termination_decision(Some(new), unknown_count, running_cycle_count, has_active_turn)
            == Ok::<RelayModuleTermination, Seq<char>>(RelayModuleTermination::AlreadyStopped),
        t == RelayModuleTermination::StopRequested || t == RelayModuleTermination::AlreadyStopRequested
            ==> termination_decision(Some(new), unknown_count, running_cycle_count, has_active_turn)
            == Ok::<RelayModuleTermination, Seq<char>>(RelayModuleTermination::AlreadyStopRequested),
{
}

/// A termination while a Codex turn runs only records the request: the
/// module's phase is kept, no new turn may start, and when the turn ends,
/// whether it completed or failed, the module is STOPPED and its result is
/// not returned to ChatGPT.
pub proof fn lemma_stop_during_turn_takes_effect_after_it(
    m: RelayModuleRecord,
    requested: RelayModuleRecord,
    completed: RelayModuleRecord,
    failed: RelayModuleRecord,
    unknown_count: i64,
    running_cycle_count: i64,
    has_active_turn: bool,
    runtime_elapsed_ns: Option<i128>,
    r: Result<RelayCodexTurnCompletion, Seq<char>>,
    stopped: bool,
)
    requires
        running_cycle_count > 0 || has_active_turn,
        termination_decision(Some(m), unknown_count, running_cycle_count, has_active_turn) == Ok::<
            RelayModuleTermination,
            Seq<char>,
        >(RelayModuleTermination::StopRequested),
        module_after_termination(m, requested, RelayModuleTermination::StopRequested),
        turn_completion(requested, completed, r),
        module_after_codex_failure(requested, failed, stopped),
    ensures
        requested.phase == m.phase,
        start_block_reason(requested) is Some,
        start_decision(requested, runtime_elapsed_ns) is Refused,
        r == Ok::<RelayCodexTurnCompletion, Seq<char>>(RelayCodexTurnCompletion::StoppedAfterTurn),
        completed.phase@ == "STOPPED"@ && !completed.stop_after_turn,
        stopped && failed.phase@ == "STOPPED"@ && !failed.stop_after_turn,
{
}

/// MODULE_DONE asks for the user's acceptance; it does not complete the module.
pub proof fn lemma_module_done_waits_for_acceptance(m: RelayModuleRecord, reply: Seq<char>, new: RelayModuleRecord)
    requires
        !terminal_phase(m.phase@),
        terminal_control_block(reply, None) == Ok::<ControlBlockView, Seq<char>>(ControlBlockView::ModuleDone),
        module_after_reply(m, new, reply_decision(m, RelayMessageKind::Automation, reply)),
    ensures
        reply_decision(m, RelayMessageKind::Automation, reply) == RelayReplyDecisionView::ModuleDone,
        new.phase@ == "WAITING_FOR_ACCEPTANCE"@,
        new.phase@ != "COMPLETED"@,
{
    reveal_strlit("WAITING_FOR_ACCEPTANCE");
    reveal_strlit("COMPLETED");
    assert("WAITING_FOR_ACCEPTANCE"@[0] != "COMPLETED"@[0]);
}

/// The count of started cycles grows only when a Codex turn starts, by one:
/// replies (manual ones and protocol retries included), acceptance,
/// termination, delivery recovery and the end of a turn leave it as it is.
pub proof fn lemma_started_cycles_count_only_turn_starts(
    m: RelayModuleRecord,
    new: RelayModuleRecord,
    kind: RelayMessageKind,
    reply: Seq<char>,
    t: RelayModuleTermination,
    remaining_unknown: i64,
    r: Result<RelayCodexTurnCompletion, Seq<char>>,
    stopped: bool,
    now: String,
)
    requires
        m.started_cycles < i64::MAX,
    ensures
        module_after_reply(m, new, reply_decision(m, kind, reply)) ==> new.started_cycles == m.started_cycles,
        phase_set(m, new, "COMPLETED"@) ==> new.started_cycles == m.started_cycles,
        module_after_termination(m, new, t) ==> new.started_cycles == m.started_cycles,
        module_after_uncertain_delivery(m, new) ==> new.started_cycles == m.started_cycles,
        module_after_recovery(m, new, remaining_unknown) ==> new.started_cycles == m.started_cycles,
        turn_completion(m, new, r) ==> new.started_cycles == m.started_cycles,
        module_after_codex_failure(m, new, stopped) ==> new.started_cycles == m.started_cycles,
        module_after_turn_start(m, new, now) ==> new.started_cycles == m.started_cycles + 1,
{
}

/// No Codex turn starts once all of the module's cycles are spent.
pub proof fn lemma_cycle_budget_stops_turns(m: RelayModuleRecord, runtime_elapsed_ns: Option<i128>)
    requires
        m.started_cycles >= m.max_cycles,
    ensures
        !(start_decision(m, runtime_elapsed_ns) is Start),
{
}

} // verus!
