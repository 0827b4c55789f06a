//! What the two relay channels are doing (ChatGPT and Codex), why a Codex
//! cycle waits, and how a cycle follows the delivery of its result to ChatGPT.

use crate::middleware::{str_option_view, string_option_view, unit_result};
use crate::relay::RelayCodexCycleRecord;
use crate::text::{signed_decimal, signed_decimal_string, str_equals};
use vstd::prelude::*;

verus! {

/// The message that occupies the ChatGPT channel, as stored.
#[derive(Debug, Clone)]
pub struct ActiveChatGptMessage {
    pub module_id: String,
    pub module_name: String,
    pub message_id: String,
    pub kind: String,
    pub delivery_state: String,
}

#[derive(Debug, Clone)]
pub struct RelayChatGptChannelSnapshot {
    pub status: String,
    pub active_module_id: Option<String>,
    pub active_module_name: Option<String>,
    pub active_message_id: Option<String>,
    pub active_kind: Option<String>,
    pub active_phase: Option<String>,
    pub recovery_blocker_count: i64,
}

/// The cycle that occupies the Codex channel, as stored.
#[derive(Debug, Clone)]
pub struct ActiveCodexCycle {
    pub module_id: String,
    pub module_name: String,
    pub cycle_number: i64,
    pub codex_thread_id: Option<String>,
    pub codex_turn_id: Option<String>,
    pub cycle_status: String,
}

#[derive(Debug, Clone)]
pub struct RelayCodexChannelSnapshot {
    pub status: String,
    pub active_module_id: Option<String>,
    pub active_module_name: Option<String>,
    pub cycle_number: Option<i64>,
    pub codex_thread_id: Option<String>,
    pub codex_turn_id: Option<String>,
    pub cycle_status: Option<String>,
}

#[derive(Debug, Clone)]
pub struct RelayChannelSnapshot {
    pub chatgpt: RelayChatGptChannelSnapshot,
    pub codex: RelayCodexChannelSnapshot,
}

/// The ChatGPT channel: blocked for recovery while deliveries are uncertain
/// (showing the oldest uncertain message), in flight while a message is with
/// ChatGPT (showing it), idle otherwise. `active` is the oldest uncertain
/// message when `recovery_blocker_count` is positive, else the oldest sent one.
pub open spec fn chatgpt_snapshot_holds(
    s: RelayChatGptChannelSnapshot,
    recovery_blocker_count: i64,
    active: Option<ActiveChatGptMessage>,
) -> bool {
    match active {
        Some(m) => if recovery_blocker_count > 0 {
            &&& s.status@ == "RECOVERY_BLOCKED"@
            &&& s.recovery_blocker_count == recovery_blocker_count
            &&& shows_message(s, m)
        } else if recovery_blocker_count == 0 {
            &&& s.status@ == "IN_FLIGHT"@
            &&& s.recovery_blocker_count == 0
            &&& shows_message(s, m)
        } else {
            idle_chatgpt(s)
        },
        None => idle_chatgpt(s),
    }
}

pub open spec fn shows_message(s: RelayChatGptChannelSnapshot, m: ActiveChatGptMessage) -> bool {
    &&& string_option_view(s.active_module_id) == Some(m.module_id@)
    &&& string_option_view(s.active_module_name) == Some(m.module_name@)
    &&& string_option_view(s.active_message_id) == Some(m.message_id@)
    &&& string_option_view(s.active_kind) == Some(m.kind@)
    &&& string_option_view(s.active_phase) == Some(m.delivery_state@)
}

pub open spec fn idle_chatgpt(s: RelayChatGptChannelSnapshot) -> bool {
    &&& s.status@ == "IDLE"@
    &&& s.active_module_id is None && s.active_module_name is None
    &&& s.active_message_id is None && s.active_kind is None && s.active_phase is None
    &&& s.recovery_blocker_count == 0
}

pub fn chatgpt_channel_snapshot(recovery_blocker_count: i64, active: Option<ActiveChatGptMessage>) -> (s: RelayChatGptChannelSnapshot)
    ensures
        chatgpt_snapshot_holds(s, recovery_blocker_count, active),
{
    match active {
        Some(m) => if recovery_blocker_count >= 0 {
            let status = if recovery_blocker_count > 0 {
                String::from_str("RECOVERY_BLOCKED")
            } else {
                String::from_str("IN_FLIGHT")
            };
            RelayChatGptChannelSnapshot {
                status,
                active_module_id: Some(m.module_id),
                active_module_name: Some(m.module_name),
                active_message_id: Some(m.message_id),
                active_kind: Some(m.kind),
                active_phase: Some(m.delivery_state),
                recovery_blocker_count,
            }
        } else {
            idle_chatgpt_snapshot()
        },
        None => idle_chatgpt_snapshot(),
    }
}

fn idle_chatgpt_snapshot() -> (s: RelayChatGptChannelSnapshot)
    ensures
        idle_chatgpt(s),
{
    RelayChatGptChannelSnapshot {
        status: String::from_str("IDLE"),
        active_module_id: None,
        active_module_name: None,
        active_message_id: None,
        active_kind: None,
        active_phase: None,
        recovery_blocker_count: 0,
    }
}

/// The Codex channel: running while a cycle runs (the oldest started one),
/// idle otherwise.
pub open spec fn codex_snapshot_holds(s: RelayCodexChannelSnapshot, active: Option<ActiveCodexCycle>) -> bool {
    match active {
        Some(c) => {
            &&& s.status@ == "RUNNING"@
            &&& string_option_view(s.active_module_id) == Some(c.module_id@)
            &&& string_option_view(s.active_module_name) == Some(c.module_name@)
            &&& s.cycle_number == Some(c.cycle_number)
            &&& string_option_view(s.codex_thread_id) == string_option_view(c.codex_thread_id)
            &&& string_option_view(s.codex_turn_id) == string_option_view(c.codex_turn_id)
            &&& string_option_view(s.cycle_status) == Some(c.cycle_status@)
        },
        None => {
            &&& s.status@ == "IDLE"@
            &&& s.active_module_id is None && s.active_module_name is None && s.cycle_number is None
            &&& s.codex_thread_id is None && s.codex_turn_id is None && s.cycle_status is None
        },
    }
}

pub fn codex_channel_snapshot(active: Option<ActiveCodexCycle>) -> (s: RelayCodexChannelSnapshot)
    ensures
        codex_snapshot_holds(s, active),
{
    match active {
        Some(c) => RelayCodexChannelSnapshot {
            status: String::from_str("RUNNING"),
            active_module_id: Some(c.module_id),
            active_module_name: Some(c.module_name),
            cycle_number: Some(c.cycle_number),
            codex_thread_id: c.codex_thread_id,
            codex_turn_id: c.codex_turn_id,
            cycle_status: Some(c.cycle_status),
        },
        None => RelayCodexChannelSnapshot {
            status: String::from_str("IDLE"),
            active_module_id: None,
            active_module_name: None,
            cycle_number: None,
            codex_thread_id: None,
            codex_turn_id: None,
            cycle_status: None,
        },
    }
}

pub open spec fn or_default(o: Option<Seq<char>>, default: Seq<char>) -> Seq<char> {
    match o {
        Some(s) => s,
        None => default,
    }
}

pub open spec fn recovery_blockers_text(count: i64) -> Seq<char> {
    "存在待人工处理的不确定送达消息（"@ + signed_decimal(count as int) + " 条）。"@
}

/// Why a Codex cycle waits, in the words the user sees, if it waits.
/// `module_phase` is the phase of the cycle's module; `outbound_state` is the
/// delivery state of the cycle's outbound message, if it has one.
pub open spec fn block_reason(
    c: RelayCodexCycleRecord,
    module_phase: Option<Seq<char>>,
    outbound_state: Option<Seq<char>>,
    chatgpt: RelayChatGptChannelSnapshot,
) -> Option<Seq<char>> {
    let status = c.status@;
    if status == "CODEX_COMPLETED"@ && c.outbound_chatgpt_message_id is None && module_phase
        == Some("STOPPED"@) {
        Some("模块已由用户终止，结果未回传 ChatGPT"@)
    } else if status == "FAILED"@ {
        string_option_view(c.error_text)
    } else if status != "WAITING_FOR_CHATGPT"@ && status != "SENDING_TO_CHATGPT"@ {
        None
    } else if outbound_state == Some("UNKNOWN"@) {
        Some("回传结果不确定，等待人工恢复。"@)
    } else if chatgpt.status@ == "RECOVERY_BLOCKED"@ {
        Some(recovery_blockers_text(chatgpt.recovery_blocker_count))
    } else if status == "SENDING_TO_CHATGPT"@ {
        Some("等待 ChatGPT 完成回复。"@)
    } else if chatgpt.status@ == "IN_FLIGHT"@ && string_option_view(chatgpt.active_module_id)
        != Some(c.module_id@) {
        Some(
            "ChatGPT 通道当前被模块「"@ + or_default(
                string_option_view(chatgpt.active_module_name),
                "未知模块"@,
            ) + "」占用（消息 "@ + or_default(
                string_option_view(chatgpt.active_message_id),
                "未知消息"@,
            ) + "）。"@,
        )
    } else {
        Some("等待全局 FIFO 调度。"@)
    }
}

fn string_or<'a>(o: &'a Option<String>, default: &'a str) -> (s: &'a str)
    ensures
        s@ == or_default(string_option_view(*o), default@),
{
    match o {
        Some(s) => s.as_str(),
        None => default,
    }
}

fn same_module(active: &Option<String>, module_id: &str) -> (b: bool)
    ensures
        b == (string_option_view(*active) == Some(module_id@)),
{
    match active {
        Some(id) => str_equals(id.as_str(), module_id),
        None => false,
    }
}

pub fn relay_codex_cycle_block_reason(
    cycle: &RelayCodexCycleRecord,
    module_phase: Option<&str>,
    outbound_state: Option<&str>,
    chatgpt: &RelayChatGptChannelSnapshot,
) -> (r: Option<String>)
    ensures
        string_option_view(r) == block_reason(
            *cycle,
            str_option_view(module_phase),
            str_option_view(outbound_state),
            *chatgpt,
        ),
{
    let status = cycle.status.as_str();
    if str_equals(status, "CODEX_COMPLETED") && cycle.outbound_chatgpt_message_id.is_none() {
        if let Some(phase) = module_phase {
            if str_equals(phase, "STOPPED") {
                return Some(String::from_str("模块已由用户终止，结果未回传 ChatGPT"));
            }
        }
    }
    if str_equals(status, "FAILED") {
        return match &cycle.error_text {
            Some(e) => Some(e.clone()),
            None => None,
        };
    }
    if !str_equals(status, "WAITING_FOR_CHATGPT") && !str_equals(status, "SENDING_TO_CHATGPT") {
        return None;
    }
    if let Some(state) = outbound_state {
        if str_equals(state, "UNKNOWN") {
            return Some(String::from_str("回传结果不确定，等待人工恢复。"));
        }
    }
    if str_equals(chatgpt.status.as_str(), "RECOVERY_BLOCKED") {
        let text = String::from_str("存在待人工处理的不确定送达消息（").concat(
            signed_decimal_string(chatgpt.recovery_blocker_count).as_str(),
        ).concat(" 条）。");
        return Some(text);
    }
    if str_equals(status, "SENDING_TO_CHATGPT") {
        return Some(String::from_str("等待 ChatGPT 完成回复。"));
    }
    if str_equals(chatgpt.status.as_str(), "IN_FLIGHT") && !same_module(
        &chatgpt.active_module_id,
        cycle.module_id.as_str(),
    ) {
        let text = String::from_str("ChatGPT 通道当前被模块「").concat(
            string_or(&chatgpt.active_module_name, "未知模块"),
        ).concat("」占用（消息 ").concat(string_or(&chatgpt.active_message_id, "未知消息")).concat(
            "）。",
        );
        return Some(text);
    }
    Some(String::from_str("等待全局 FIFO 调度。"))
}

/// How a cycle follows the delivery state of its outbound message.
#[derive(Debug, Clone)]
pub struct CycleDeliverySync {
    pub target_status: &'static str,
    pub error_text: Option<String>,
    /// The event recorded for the change, when the cycle's status changes.
    pub event_type: Option<&'static str>,
    /// Whether the delivery time is recorded now (first delivery only).
    pub stamp_delivered_at: bool,
}

pub struct CycleDeliverySyncView {
    pub target_status: Seq<char>,
    pub error_text: Option<Seq<char>>,
    pub event_type: Option<Seq<char>>,
    pub stamp_delivered_at: bool,
}

pub open spec fn sync_view(s: CycleDeliverySync) -> CycleDeliverySyncView {
    CycleDeliverySyncView {
        target_status: s.target_status@,
        error_text: string_option_view(s.error_text),
        event_type: match s.event_type {
            Some(e) => Some(e@),
            None => None,
        },
        stamp_delivered_at: s.stamp_delivered_at,
    }
}

pub open spec fn sync_result(r: Result<CycleDeliverySync, String>) -> Result<CycleDeliverySyncView, Seq<char>> {
    match r {
        Ok(s) => Ok(sync_view(s)),
        Err(e) => Err(e@),
    }
}

pub open spec fn sync_parts(delivery_state: Seq<char>, error_text: Option<Seq<char>>) -> Option<(Seq<char>, Option<Seq<char>>, Option<Seq<char>>)> {
    if delivery_state == "QUEUED"@ {
        Some(("WAITING_FOR_CHATGPT"@, None, None))
    } else if delivery_state == "SENT"@ {
        Some(("SENDING_TO_CHATGPT"@, None, Some("CODEX_RESULT_SEND_STARTED"@)))
    } else if delivery_state == "DELIVERED"@ {
        Some(("DELIVERED_TO_CHATGPT"@, None, Some("CODEX_RESULT_DELIVERED_TO_CHATGPT"@)))
    } else if delivery_state == "UNKNOWN"@ {
        Some(
            (
                "WAITING_FOR_CHATGPT"@,
                Some(or_default(error_text, "ChatGPT 回传送达结果不确定，等待人工恢复。"@)),
                None,
            ),
        )
    } else if delivery_state == "FAILED"@ {
        Some(("FAILED"@, Some(or_default(error_text, "用户确认不重发 Codex 回传结果。"@)), None))
    } else {
        None
    }
}

/// The cycle follows its message: QUEUED and UNKNOWN wait for ChatGPT, SENT
/// is being sent, DELIVERED is delivered, FAILED fails; an uncertain or
/// abandoned delivery keeps its reason. An event is recorded only when the
/// status changes; the delivery time is recorded once.
pub open spec fn delivery_sync(
    current_status: Seq<char>,
    delivered_at_recorded: bool,
    delivery_state: Seq<char>,
    error_text: Option<Seq<char>>,
) -> Result<CycleDeliverySyncView, Seq<char>> {
    match sync_parts(delivery_state, error_text) {
        None => Err("不支持同步的 ChatGPT 送达状态：`"@ + delivery_state + "`。"@),
        Some((target, error, event)) => Ok(
            CycleDeliverySyncView {
                target_status: target,
                error_text: error,
                event_type: if current_status != target {
                    event
                } else {
                    None
                },
                stamp_delivered_at: target == "DELIVERED_TO_CHATGPT"@ && !delivered_at_recorded,
            },
        ),
    }
}

fn text_or(o: Option<&str>, default: &str) -> (s: String)
    ensures
        s@ == or_default(str_option_view(o), default@),
{
    match o {
        Some(t) => String::from_str(t),
        None => String::from_str(default),
    }
}

pub fn relay_codex_cycle_delivery_sync(
    current_status: &str,
    delivered_at_recorded: bool,
    delivery_state: &str,
    error_text: Option<&str>,
) -> (r: Result<CycleDeliverySync, String>)
    ensures
        sync_result(r) == delivery_sync(
            current_status@,
            delivered_at_recorded,
            delivery_state@,
            str_option_view(error_text),
        ),
{
    let (target, error, event): (&'static str, Option<String>, Option<&'static str>) = if str_equals(
        delivery_state,
        "QUEUED",
    ) {
        ("WAITING_FOR_CHATGPT", None, None)
    } else if str_equals(delivery_state, "SENT") {
        ("SENDING_TO_CHATGPT", None, Some("CODEX_RESULT_SEND_STARTED"))
    } else if str_equals(delivery_state, "DELIVERED") {
        ("DELIVERED_TO_CHATGPT", None, Some("CODEX_RESULT_DELIVERED_TO_CHATGPT"))
    } else if str_equals(delivery_state, "UNKNOWN") {
        (
            "WAITING_FOR_CHATGPT",
            Some(text_or(error_text, "ChatGPT 回传送达结果不确定，等待人工恢复。")),
            None,
        )
    } else if str_equals(delivery_state, "FAILED") {
        ("FAILED", Some(text_or(error_text, "用户确认不重发 Codex 回传结果。")), None)
    } else {
        let e = String::from_str("不支持同步的 ChatGPT 送达状态：`").concat(delivery_state).concat(
            "`。",
        );
        return Err(e);
    };
    let event_type = if str_equals(current_status, target) {
        None
    } else {
        event
    };
    let stamp_delivered_at = str_equals(target, "DELIVERED_TO_CHATGPT") && !delivered_at_recorded;
    Ok(CycleDeliverySync { target_status: target, error_text: error, event_type, stamp_delivered_at })
}

/// A cycle may be marked failed only while it exists and has neither a result
/// nor an outbound message.
pub open spec fn cycle_failure_check(cycle: Option<RelayCodexCycleRecord>) -> Option<Seq<char>> {
    match cycle {
        Some(c) => if c.result_text is None && c.outbound_chatgpt_message_id is None {
            None
        } else {
            Some("Codex 通讯循环已拥有结果，不能标记为失败。"@)
        },
        None => Some("Codex 通讯循环已拥有结果，不能标记为失败。"@),
    }
}

pub fn check_relay_codex_cycle_failure(cycle: Option<&RelayCodexCycleRecord>) -> (r: Result<(), String>)
    ensures
        unit_result(r) == cycle_failure_check(crate::relay::record_cycle_option(cycle)),
{
    match cycle {
        Some(c) => if c.result_text.is_none() && c.outbound_chatgpt_message_id.is_none() {
            Ok(())
        } else {
            Err(String::from_str("Codex 通讯循环已拥有结果，不能标记为失败。"))
        },
        None => Err(String::from_str("Codex 通讯循环已拥有结果，不能标记为失败。")),
    }
}

} // verus!
