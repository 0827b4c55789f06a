//! Conversation-relay modules: one ChatGPT conversation and one Codex thread per
//! module, with user acceptance, termination, and the rules that keep a
//! finished module finished.

use crate::middleware::{minutes_representable, str_option_view, unit_result};
use crate::text::{is_blank_str, str_equals, trim, trim_str};
use vstd::prelude::*;

verus! {

#[derive(Debug, Clone)]
pub struct RelayModuleInput {
    pub name: String,
    pub working_directory: String,
    pub max_cycles: i64,
    pub max_runtime_minutes: i64,
    pub retry_template: String,
}

#[derive(Debug, Clone)]
pub struct RelayModuleRecord {
    pub id: String,
    pub name: String,
    pub working_directory: String,
    pub max_cycles: i64,
    pub max_runtime_minutes: i64,
    pub retry_template: String,
    pub phase: String,
    pub codex_thread_id: Option<String>,
    pub module_started_at: Option<String>,
    pub stop_after_turn: bool,
    pub invalid_reply_count: i64,
    pub started_cycles: i64,
    pub created_at: String,
    pub updated_at: String,
}

#[derive(Debug, Clone, Copy, PartialEq, Eq, Structural)]
pub enum RelayMessageKind {
    Manual,
    Automation,
}

impl RelayMessageKind {
    pub open spec fn db_name(self) -> Seq<char> {
        match self {
            RelayMessageKind::Manual => "MANUAL"@,
            RelayMessageKind::Automation => "AUTOMATION"@,
        }
    }

    pub fn as_db(self) -> (s: &'static str)
        ensures
            s@ == self.db_name(),
    {
        match self {
            RelayMessageKind::Manual => "MANUAL",
            RelayMessageKind::Automation => "AUTOMATION",
        }
    }
}

/// Why a relay module input is refused, if it is.
pub open spec fn relay_input_error(input: RelayModuleInput) -> Option<Seq<char>> {
    if trim(input.name@).len() == 0 || trim(input.working_directory@).len() == 0 {
        Some("请填写模块名称和 Codex 工作目录。"@)
    } else if input.max_cycles <= 0 || input.max_runtime_minutes <= 0 {
        Some("最大循环次数和最长运行时间必须为正数。"@)
    } else if trim(input.retry_template@).len() == 0 {
        Some("请填写 ChatGPT 协议重试模板。"@)
    } else {
        None
    }
}

/// A relay module needs a name, a working directory, positive budgets and a
/// retry template.
pub fn validate_relay_module(input: &RelayModuleInput) -> (r: Result<(), String>)
    ensures
        unit_result(r) == relay_input_error(*input),
{
    if is_blank_str(input.name.as_str()) || is_blank_str(input.working_directory.as_str()) {
        return Err(String::from_str("请填写模块名称和 Codex 工作目录。"));
    }
    if input.max_cycles <= 0 || input.max_runtime_minutes <= 0 {
        return Err(String::from_str("最大循环次数和最长运行时间必须为正数。"));
    }
    if is_blank_str(input.retry_template.as_str()) {
        return Err(String::from_str("请填写 ChatGPT 协议重试模板。"));
    }
    Ok(())
}

/// A new module as it is first stored: inputs trimmed, READY, nothing started.
pub fn new_relay_module(id: String, input: &RelayModuleInput, now: String) -> (m: RelayModuleRecord)
    ensures
        m.id == id,
        m.name@ == trim(input.name@),
        m.working_directory@ == trim(input.working_directory@),
        m.max_cycles == input.max_cycles,
        m.max_runtime_minutes == input.max_runtime_minutes,
        m.retry_template@ == trim(input.retry_template@),
        m.phase@ == "READY"@,
        m.codex_thread_id is None,
        m.module_started_at is None,
        !m.stop_after_turn,
        m.invalid_reply_count == 0,
        m.started_cycles == 0,
        m.created_at == now,
        m.updated_at@ == now@,
{
    RelayModuleRecord {
        id,
        name: String::from_str(trim_str(input.name.as_str())),
        working_directory: String::from_str(trim_str(input.working_directory.as_str())),
        max_cycles: input.max_cycles,
        max_runtime_minutes: input.max_runtime_minutes,
        retry_template: String::from_str(trim_str(input.retry_template.as_str())),
        phase: String::from_str("READY"),
        codex_thread_id: None,
        module_started_at: None,
        stop_after_turn: false,
        invalid_reply_count: 0,
        started_cycles: 0,
        created_at: now.clone(),
        updated_at: now,
    }
}

/// A finished module: accepted by the user, or terminated.
pub open spec fn terminal_phase(phase: Seq<char>) -> bool {
    phase == "COMPLETED"@ || phase == "STOPPED"@
}

pub fn is_terminal_phase(phase: &str) -> (b: bool)
    ensures
        b == terminal_phase(phase@),
{
    str_equals(phase, "COMPLETED") || str_equals(phase, "STOPPED")
}

#[derive(Debug, Clone, Copy, PartialEq, Eq, Structural)]
pub enum RelayModuleAcceptance {
    Accepted,
    AlreadyCompleted,
}

#[derive(Debug, Clone, Copy, PartialEq, Eq, Structural)]
pub enum RelayModuleTermination {
    Stopped,
    StopRequested,
    AlreadyStopped,
    AlreadyStopRequested,
}

pub open spec fn missing_module_error() -> Seq<char> {
    "传话模块不存在。"@
}

pub open spec fn unresolved_unknown_error() -> Seq<char> {
    "请先处理本模块的不确定送达消息。"@
}

/// The user's acceptance of a module: accepted only while it waits for
/// acceptance, is not being terminated, has no unresolved UNKNOWN delivery and
/// no running Codex turn; accepting a completed module again is a no-op.
pub open spec fn acceptance_decision(
    module: Option<RelayModuleRecord>,
    unknown_count: i64,
    running_cycle_count: i64,
) -> Result<RelayModuleAcceptance, Seq<char>> {
    match module {
        None => Err(missing_module_error()),
        Some(m) => if m.phase@ == "COMPLETED"@ {
            Ok(RelayModuleAcceptance::AlreadyCompleted)
        } else if m.phase@ == "STOPPED"@ {
            Err("模块已终止，不能验收完成。"@)
        } else if m.phase@ != "WAITING_FOR_ACCEPTANCE"@ {
            Err("模块当前未等待人工验收，不能验收完成。"@)
        } else if m.stop_after_turn {
            Err("模块正在终止，不能验收完成。"@)
        } else if unknown_count > 0 {
            Err(unresolved_unknown_error())
        } else if running_cycle_count > 0 {
            Err("当前 Codex 回合仍在运行，不能验收完成。"@)
        } else {
            Ok(RelayModuleAcceptance::Accepted)
        },
    }
}

pub open spec fn record_option(module: Option<&RelayModuleRecord>) -> Option<RelayModuleRecord> {
    match module {
        Some(m) => Some(*m),
        None => None,
    }
}

pub open spec fn record_cycle_option(cycle: Option<&RelayCodexCycleRecord>) -> Option<RelayCodexCycleRecord> {
    match cycle {
        Some(c) => Some(*c),
        None => None,
    }
}

pub open spec fn decision_result<T>(r: Result<T, String>) -> Result<T, Seq<char>> {
    match r {
        Ok(v) => Ok(v),
        Err(e) => Err(e@),
    }
}

/// Decides the user's acceptance of `module`; on `Accepted` the module's queued
/// messages are cancelled and it becomes COMPLETED.
pub fn decide_relay_module_acceptance(
    module: Option<&RelayModuleRecord>,
    unknown_count: i64,
    running_cycle_count: i64,
) -> (r: Result<RelayModuleAcceptance, String>)
    ensures
        decision_result(r) == acceptance_decision(
            record_option(module),
            unknown_count,
            running_cycle_count,
        ),
{
    let m = match module {
        None => {
            return Err(String::from_str("传话模块不存在。"));
        },
        Some(m) => m,
    };
    if str_equals(m.phase.as_str(), "COMPLETED") {
        return Ok(RelayModuleAcceptance::AlreadyCompleted);
    }
    if str_equals(m.phase.as_str(), "STOPPED") {
        return Err(String::from_str("模块已终止，不能验收完成。"));
    }
    if !str_equals(m.phase.as_str(), "WAITING_FOR_ACCEPTANCE") {
        return Err(String::from_str("模块当前未等待人工验收，不能验收完成。"));
    }
    if m.stop_after_turn {
        return Err(String::from_str("模块正在终止，不能验收完成。"));
    }
    if unknown_count > 0 {
        return Err(String::from_str("请先处理本模块的不确定送达消息。"));
    }
    if running_cycle_count > 0 {
        return Err(String::from_str("当前 Codex 回合仍在运行，不能验收完成。"));
    }
    Ok(RelayModuleAcceptance::Accepted)
}

/// The user's termination of a module: an idle module stops at once, a module
/// with a running Codex turn stops after it; a stopped module or one already
/// stopping is left alone; an accepted module cannot be terminated; unresolved
/// UNKNOWN deliveries must be handled first.
pub open spec fn termination_decision(
    module: Option<RelayModuleRecord>,
    unknown_count: i64,
    running_cycle_count: i64,
    has_active_turn: bool,
) -> Result<RelayModuleTermination, Seq<char>> {
    match module {
        None => Err(missing_module_error()),
        Some(m) => if m.phase@ == "STOPPED"@ {
            Ok(RelayModuleTermination::AlreadyStopped)
        } else if m.phase@ == "COMPLETED"@ {
            Err("模块已验收完成，不能终止。"@)
        } else if m.stop_after_turn {
            Ok(RelayModuleTermination::AlreadyStopRequested)
        } else if unknown_count > 0 {
            Err(unresolved_unknown_error())
        } else if running_cycle_count > 0 || has_active_turn {
            Ok(RelayModuleTermination::StopRequested)
        } else {
            Ok(RelayModuleTermination::Stopped)
        },
    }
}

/// Decides the user's termination of `module`; queued messages are cancelled
/// on `StopRequested` and `Stopped`.
pub fn decide_relay_module_termination(
    module: Option<&RelayModuleRecord>,
    unknown_count: i64,
    running_cycle_count: i64,
    has_active_turn: bool,
) -> (r: Result<RelayModuleTermination, String>)
    ensures
        decision_result(r) == termination_decision(
            record_option(module),
            unknown_count,
            running_cycle_count,
            has_active_turn,
        ),
{
    let m = match module {
        None => {
            return Err(String::from_str("传话模块不存在。"));
        },
        Some(m) => m,
    };
    if str_equals(m.phase.as_str(), "STOPPED") {
        return Ok(RelayModuleTermination::AlreadyStopped);
    }
    if str_equals(m.phase.as_str(), "COMPLETED") {
        return Err(String::from_str("模块已验收完成，不能终止。"));
    }
    if m.stop_after_turn {
        return Ok(RelayModuleTermination::AlreadyStopRequested);
    }
    if unknown_count > 0 {
        return Err(String::from_str("请先处理本模块的不确定送达消息。"));
    }
    if running_cycle_count > 0 || has_active_turn {
        Ok(RelayModuleTermination::StopRequested)
    } else {
        Ok(RelayModuleTermination::Stopped)
    }
}

/// Acceptance feedback: non-blank text, for a module that waits for acceptance
/// and is not being terminated. The trimmed feedback is queued to ChatGPT.
pub open spec fn feedback_decision(text: Seq<char>, module: Option<RelayModuleRecord>) -> Result<Seq<char>, Seq<char>> {
    if trim(text).len() == 0 {
        Err("验收反馈不能为空。"@)
    } else {
        match module {
            None => Err(missing_module_error()),
            Some(m) => if m.phase@ != "WAITING_FOR_ACCEPTANCE"@ {
                Err("模块当前未等待人工验收，不能提交验收反馈。"@)
            } else if m.stop_after_turn {
                Err("模块正在终止，不能提交验收反馈。"@)
            } else {
                Ok(trim(text))
            },
        }
    }
}

pub open spec fn text_decision(r: Result<&str, String>) -> Result<Seq<char>, Seq<char>> {
    match r {
        Ok(t) => Ok(t@),
        Err(e) => Err(e@),
    }
}

/// Decides whether acceptance feedback may be queued; returns the trimmed text.
pub fn decide_relay_acceptance_feedback<'a>(text: &'a str, module: Option<&RelayModuleRecord>) -> (r: Result<&'a str, String>)
    ensures
        text_decision(r) == feedback_decision(text@, record_option(module)),
{
    let feedback = trim_str(text);
    if feedback.is_empty() {
        return Err(String::from_str("验收反馈不能为空。"));
    }
    let m = match module {
        None => {
            return Err(String::from_str("传话模块不存在。"));
        },
        Some(m) => m,
    };
    if !str_equals(m.phase.as_str(), "WAITING_FOR_ACCEPTANCE") {
        return Err(String::from_str("模块当前未等待人工验收，不能提交验收反馈。"));
    }
    if m.stop_after_turn {
        return Err(String::from_str("模块正在终止，不能提交验收反馈。"));
    }
    Ok(feedback)
}

/// A message to ChatGPT: non-blank, for an existing module that is not
/// finished. The trimmed text is queued.
pub open spec fn queue_decision(text: Seq<char>, module: Option<RelayModuleRecord>) -> Result<Seq<char>, Seq<char>> {
    if trim(text).len() == 0 {
        Err("消息不能为空。"@)
    } else {
        match module {
            None => Err(missing_module_error()),
            Some(m) => if terminal_phase(m.phase@) {
                Err("模块已经结束，不能再发送消息。"@)
            } else {
                Ok(trim(text))
            },
        }
    }
}

/// Decides whether a message may join the ChatGPT queue; returns the trimmed text.
pub fn decide_queue_relay_message<'a>(text: &'a str, module: Option<&RelayModuleRecord>) -> (r: Result<&'a str, String>)
    ensures
        text_decision(r) == queue_decision(text@, record_option(module)),
{
    let trimmed = trim_str(text);
    if trimmed.is_empty() {
        return Err(String::from_str("消息不能为空。"));
    }
    let m = match module {
        None => {
            return Err(String::from_str("传话模块不存在。"));
        },
        Some(m) => m,
    };
    if is_terminal_phase(m.phase.as_str()) {
        return Err(String::from_str("模块已经结束，不能再发送消息。"));
    }
    Ok(trimmed)
}

/// Why a new Codex turn may not start for a module, if it may not.
pub open spec fn start_block_reason(m: RelayModuleRecord) -> Option<Seq<char>> {
    if m.stop_after_turn {
        Some("模块正在终止，不能启动新的 Codex 回合。"@)
    } else if terminal_phase(m.phase@) {
        Some("模块已经结束，不能启动新的 Codex 回合。"@)
    } else {
        None
    }
}

pub open spec fn static_option_view(o: Option<&'static str>) -> Option<Seq<char>> {
    match o {
        Some(s) => Some(s@),
        None => None,
    }
}

pub fn relay_codex_start_block_reason(module: &RelayModuleRecord) -> (r: Option<&'static str>)
    ensures
        static_option_view(r) == start_block_reason(*module),
{
    if module.stop_after_turn {
        Some("模块正在终止，不能启动新的 Codex 回合。")
    } else if is_terminal_phase(module.phase.as_str()) {
        Some("模块已经结束，不能启动新的 Codex 回合。")
    } else {
        None
    }
}

/// Whether a new Codex turn may start for a module.
#[derive(Debug, Clone, Copy, PartialEq, Eq)]
pub enum RelayCodexStart {
    /// The module is finished or being terminated; the cycle fails with this reason.
    Refused(&'static str),
    /// All cycles are spent; the module waits for acceptance.
    CycleBudgetReached,
    /// The runtime is spent; the module waits for acceptance.
    RuntimeBudgetReached,
    Start,
}

/// The view of a start decision: a refusal reason, or which budget is spent, or start.
pub enum RelayCodexStartView {
    Refused(Seq<char>),
    CycleBudgetReached,
    RuntimeBudgetReached,
    Start,
}

pub open spec fn start_view(s: RelayCodexStart) -> RelayCodexStartView {
    match s {
        RelayCodexStart::Refused(r) => RelayCodexStartView::Refused(r@),
        RelayCodexStart::CycleBudgetReached => RelayCodexStartView::CycleBudgetReached,
        RelayCodexStart::RuntimeBudgetReached => RelayCodexStartView::RuntimeBudgetReached,
        RelayCodexStart::Start => RelayCodexStartView::Start,
    }
}

/// Whether a Codex turn may start: not for a finished or stopping module, not
/// past the cycle budget, not past the runtime budget (counted from the
/// module's first turn; `runtime_elapsed_ns` is `None` before it, else the
/// exact span in nanoseconds).
pub open spec fn start_decision(m: RelayModuleRecord, runtime_elapsed_ns: Option<i128>) -> RelayCodexStartView {
    match start_block_reason(m) {
        Some(reason) => RelayCodexStartView::Refused(reason),
        None => if m.started_cycles >= m.max_cycles {
            RelayCodexStartView::CycleBudgetReached
        } else {
            match runtime_elapsed_ns {
                Some(elapsed) => if elapsed >= m.max_runtime_minutes * 60_000_000_000 {
                    RelayCodexStartView::RuntimeBudgetReached
                } else {
                    RelayCodexStartView::Start
                },
                None => RelayCodexStartView::Start,
            }
        },
    }
}

pub fn decide_relay_codex_start(module: &RelayModuleRecord, runtime_elapsed_ns: Option<i128>) -> (r: RelayCodexStart)
    requires
        start_block_reason(*module) is None && module.started_cycles < module.max_cycles
            && runtime_elapsed_ns is Some ==> minutes_representable(module.max_runtime_minutes),
    ensures
        start_view(r) == start_decision(*module, runtime_elapsed_ns),
{
    if let Some(reason) = relay_codex_start_block_reason(module) {
        return RelayCodexStart::Refused(reason);
    }
    if module.started_cycles >= module.max_cycles {
        return RelayCodexStart::CycleBudgetReached;
    }
    if let Some(elapsed) = runtime_elapsed_ns {
        if elapsed >= module.max_runtime_minutes as i128 * 60_000_000_000 {
            return RelayCodexStart::RuntimeBudgetReached;
        }
    }
    RelayCodexStart::Start
}

/// Where a Codex turn for a module goes, given the module that holds the one
/// Codex session, if any.
#[derive(Debug, Clone, Copy, PartialEq, Eq, Structural)]
pub enum RelayCodexRoute {
    /// Another module holds the session; the turn fails.
    HeldByOtherModule,
    /// The module's own session takes the turn.
    ExistingSession,
    /// No session exists; a new one is spawned for the module.
    NewSession,
}

pub open spec fn route_decision(session_module_id: Option<Seq<char>>, module_id: Seq<char>) -> RelayCodexRoute {
    match session_module_id {
        Some(holder) => if holder != module_id {
            RelayCodexRoute::HeldByOtherModule
        } else {
            RelayCodexRoute::ExistingSession
        },
        None => RelayCodexRoute::NewSession,
    }
}

pub fn route_relay_codex_turn(session_module_id: Option<&str>, module_id: &str) -> (r: RelayCodexRoute)
    ensures
        r == route_decision(str_option_view(session_module_id), module_id@),
{
    match session_module_id {
        Some(holder) => if !str_equals(holder, module_id) {
            RelayCodexRoute::HeldByOtherModule
        } else {
            RelayCodexRoute::ExistingSession
        },
        None => RelayCodexRoute::NewSession,
    }
}

pub open spec fn turn_running_release_error() -> Seq<char> {
    "当前 Codex 回合仍在运行，不能释放 Codex 对话。"@
}

/// Releasing a module's Codex session: nothing to do when no session or another
/// module's session exists; refused while the module's turn runs; otherwise the
/// release is sent (`true`).
pub open spec fn release_decision(session: Option<(Seq<char>, bool)>, module_id: Seq<char>) -> Result<bool, Seq<char>> {
    match session {
        None => Ok(false),
        Some((holder, turn_active)) => if holder != module_id {
            Ok(false)
        } else if turn_active {
            Err(turn_running_release_error())
        } else {
            Ok(true)
        },
    }
}

pub open spec fn session_view(session: Option<(&str, bool)>) -> Option<(Seq<char>, bool)> {
    match session {
        Some((holder, active)) => Some((holder@, active)),
        None => None,
    }
}

pub fn decide_relay_codex_release(session: Option<(&str, bool)>, module_id: &str) -> (r: Result<bool, String>)
    ensures
        decision_result(r) == release_decision(session_view(session), module_id@),
{
    match session {
        None => Ok(false),
        Some((holder, turn_active)) => {
            if !str_equals(holder, module_id) {
                Ok(false)
            } else if turn_active {
                Err(String::from_str("当前 Codex 回合仍在运行，不能释放 Codex 对话。"))
            } else {
                Ok(true)
            }
        },
    }
}

/// Whether the session, if any, belongs to `module_id`; only then is it cleared
/// or marked idle on the module's behalf.
pub fn session_belongs_to(session_module_id: Option<&str>, module_id: &str) -> (b: bool)
    ensures
        b == (str_option_view(session_module_id) == Some(module_id@)),
{
    match session_module_id {
        Some(holder) => str_equals(holder, module_id),
        None => false,
    }
}

#[derive(Debug, Clone)]
pub struct RelayCodexCycleRecord {
    pub id: String,
    pub module_id: String,
    pub cycle_number: i64,
    pub status: String,
    pub prompt_text: String,
    pub codex_thread_id: Option<String>,
    pub codex_turn_id: Option<String>,
    pub result_text: Option<String>,
    pub outbound_chatgpt_message_id: Option<String>,
    pub error_text: Option<String>,
    pub created_at: String,
    pub codex_started_at: Option<String>,
    pub codex_completed_at: Option<String>,
    pub relay_queued_at: Option<String>,
    pub relay_delivered_at: Option<String>,
    pub updated_at: String,
    pub block_reason: Option<String>,
}

/// A new Codex cycle as it is first stored: waiting to be sent to Codex.
pub fn new_relay_codex_cycle(id: String, module_id: &str, cycle_number: i64, prompt_text: &str, now: String) -> (c: RelayCodexCycleRecord)
    ensures
        c.id == id,
        c.module_id@ == module_id@,
        c.cycle_number == cycle_number,
        c.status@ == "WAITING_TO_SEND_CODEX"@,
        c.prompt_text@ == prompt_text@,
        c.codex_thread_id is None && c.codex_turn_id is None && c.result_text is None,
        c.outbound_chatgpt_message_id is None && c.error_text is None,
        c.created_at == now && c.updated_at@ == now@,
        c.codex_started_at is None && c.codex_completed_at is None,
        c.relay_queued_at is None && c.relay_delivered_at is None && c.block_reason is None,
{
    RelayCodexCycleRecord {
        id,
        module_id: String::from_str(module_id),
        cycle_number,
        status: String::from_str("WAITING_TO_SEND_CODEX"),
        prompt_text: String::from_str(prompt_text),
        codex_thread_id: None,
        codex_turn_id: None,
        result_text: None,
        outbound_chatgpt_message_id: None,
        error_text: None,
        created_at: now.clone(),
        codex_started_at: None,
        codex_completed_at: None,
        relay_queued_at: None,
        relay_delivered_at: None,
        updated_at: now,
        block_reason: None,
    }
}

pub open spec fn cycle_status_error(status: Seq<char>, tail: Seq<char>) -> Seq<char> {
    "Codex 通讯循环当前状态为 `"@ + status + tail
}

/// A Codex turn starts only for a cycle that waits to be sent to Codex.
pub open spec fn turn_start_check(status: Seq<char>) -> Option<Seq<char>> {
    if status != "WAITING_TO_SEND_CODEX"@ {
        Some(cycle_status_error(status, "`，不能开始回合。"@))
    } else {
        None
    }
}

pub fn check_relay_codex_turn_start(status: &str) -> (r: Result<(), String>)
    ensures
        unit_result(r) == turn_start_check(status@),
{
    if !str_equals(status, "WAITING_TO_SEND_CODEX") {
        let e = String::from_str("Codex 通讯循环当前状态为 `").concat(status).concat(
            "`，不能开始回合。",
        );
        assert(e@ =~= cycle_status_error(status@, "`，不能开始回合。"@));
        return Err(e);
    }
    Ok(())
}

#[derive(Debug, Clone, Copy, PartialEq, Eq, Structural)]
pub enum RelayCodexResultReceipt {
    /// The same final text was already stored; nothing changes.
    AlreadyRecorded,
    /// The running cycle completes with this final text.
    Record,
}

/// Storing a cycle's final text: once stored it never changes (the same text
/// again is a no-op), and only a running cycle takes one.
pub open spec fn result_receipt(status: Seq<char>, existing_result: Option<Seq<char>>, result_text: Seq<char>) -> Result<RelayCodexResultReceipt, Seq<char>> {
    match existing_result {
        Some(existing) => if existing == result_text {
            Ok(RelayCodexResultReceipt::AlreadyRecorded)
        } else {
            Err("Codex final text 已持久化，不能覆盖。"@)
        },
        None => if status != "CODEX_RUNNING"@ {
            Err(cycle_status_error(status, "`，不能记录 final text。"@))
        } else {
            Ok(RelayCodexResultReceipt::Record)
        },
    }
}

pub fn decide_relay_codex_result(status: &str, existing_result: Option<&str>, result_text: &str) -> (r: Result<RelayCodexResultReceipt, String>)
    ensures
        decision_result(r) == result_receipt(status@, str_option_view(existing_result), result_text@),
{
    if let Some(existing) = existing_result {
        if str_equals(existing, result_text) {
            return Ok(RelayCodexResultReceipt::AlreadyRecorded);
        }
        return Err(String::from_str("Codex final text 已持久化，不能覆盖。"));
    }
    if !str_equals(status, "CODEX_RUNNING") {
        let e = String::from_str("Codex 通讯循环当前状态为 `").concat(status).concat(
            "`，不能记录 final text。",
        );
        assert(e@ =~= cycle_status_error(status@, "`，不能记录 final text。"@));
        return Err(e);
    }
    Ok(RelayCodexResultReceipt::Record)
}

#[derive(Debug, Clone)]
pub enum RelayCodexResultQueueing {
    /// The result already has its outbound message; that message is reused.
    AlreadyQueued(String),
    /// A new outbound message with this final text joins the ChatGPT queue.
    Queue(String),
}

pub enum RelayCodexResultQueueingView {
    AlreadyQueued(Seq<char>),
    Queue(Seq<char>),
}

/// Queueing a cycle's result to ChatGPT: at most one outbound message per
/// cycle, and only a completed cycle with a final text is queued.
pub open spec fn result_queueing(c: RelayCodexCycleRecord) -> Result<RelayCodexResultQueueingView, Seq<char>> {
    match c.outbound_chatgpt_message_id {
        Some(id) => Ok(RelayCodexResultQueueingView::AlreadyQueued(id@)),
        None => if c.status@ != "CODEX_COMPLETED"@ {
            Err(cycle_status_error(c.status@, "`，不能排队回传 ChatGPT。"@))
        } else {
            match c.result_text {
                Some(text) => Ok(RelayCodexResultQueueingView::Queue(text@)),
                None => Err("Codex 通讯循环没有 final text，不能排队回传。"@),
            }
        },
    }
}

pub open spec fn queueing_result(r: Result<RelayCodexResultQueueing, String>) -> Result<RelayCodexResultQueueingView, Seq<char>> {
    match r {
        Ok(RelayCodexResultQueueing::AlreadyQueued(id)) => Ok(
            RelayCodexResultQueueingView::AlreadyQueued(id@),
        ),
        Ok(RelayCodexResultQueueing::Queue(text)) => Ok(RelayCodexResultQueueingView::Queue(text@)),
        Err(e) => Err(e@),
    }
}

pub fn decide_relay_codex_result_queueing(cycle: &RelayCodexCycleRecord) -> (r: Result<RelayCodexResultQueueing, String>)
    ensures
        queueing_result(r) == result_queueing(*cycle),
{
    if let Some(id) = &cycle.outbound_chatgpt_message_id {
        return Ok(RelayCodexResultQueueing::AlreadyQueued(id.clone()));
    }
    if !str_equals(cycle.status.as_str(), "CODEX_COMPLETED") {
        let e = String::from_str("Codex 通讯循环当前状态为 `").concat(cycle.status.as_str()).concat(
            "`，不能排队回传 ChatGPT。",
        );
        assert(e@ =~= cycle_status_error(cycle.status@, "`，不能排队回传 ChatGPT。"@));
        return Err(e);
    }
    match &cycle.result_text {
        Some(text) => Ok(RelayCodexResultQueueing::Queue(text.clone())),
        None => Err(String::from_str("Codex 通讯循环没有 final text，不能排队回传。")),
    }
}

} // verus!
