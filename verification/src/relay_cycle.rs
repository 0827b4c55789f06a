//! How a stored Codex cycle changes: its turn starts, its final text is
//! recorded once, its result is linked to one outbound ChatGPT message, it
//! follows that message's delivery, or it fails.

use crate::middleware::{str_option_view, string_option_view, unit_result};
use crate::relay::{
    check_relay_codex_turn_start, decide_relay_codex_result, result_receipt, turn_start_check,
    RelayCodexCycleRecord, RelayCodexResultReceipt,
};
use crate::relay_channel::{
    check_relay_codex_cycle_failure, cycle_failure_check, delivery_sync,
    relay_codex_cycle_delivery_sync,
};
use vstd::prelude::*;

verus! {

/// `new` is `old` with only the status, the Codex ids, the start time and the
/// update time changed: the turn runs on `thread_id` / `turn_id` since `now`.
pub open spec fn turn_started(
    old: RelayCodexCycleRecord,
    new: RelayCodexCycleRecord,
    thread_id: Option<String>,
    turn_id: Option<String>,
    now: String,
) -> bool {
    &&& new.status@ == "CODEX_RUNNING"@
    &&& new == RelayCodexCycleRecord {
        status: new.status,
        codex_thread_id: thread_id,
        codex_turn_id: turn_id,
        codex_started_at: Some(now),
        updated_at: now,
        ..old
    }
}

/// Starts the cycle's Codex turn: only a cycle that waits to be sent to Codex
/// starts; any other is left as it is and the reason is returned.
pub fn start_relay_codex_cycle_turn(
    cycle: &mut RelayCodexCycleRecord,
    thread_id: Option<String>,
    turn_id: Option<String>,
    now: String,
) -> (r: Result<(), String>)
    ensures
        unit_result(r) == turn_start_check(old(cycle).status@),
        r is Ok ==> turn_started(*old(cycle), *final(cycle), thread_id, turn_id, now),
        r is Err ==> *final(cycle) == *old(cycle),
{
    match check_relay_codex_turn_start(cycle.status.as_str()) {
        Err(e) => Err(e),
        Ok(()) => {
            cycle.status = String::from_str("CODEX_RUNNING");
            cycle.codex_thread_id = thread_id;
            cycle.codex_turn_id = turn_id;
            cycle.codex_started_at = Some(now.clone());
            cycle.updated_at = now;
            Ok(())
        },
    }
}

fn text_of(o: &Option<String>) -> (r: Option<&str>)
    ensures
        str_option_view(r) == string_option_view(*o),
{
    match o {
        Some(s) => Some(s.as_str()),
        None => None,
    }
}

/// `new` is `old` completed with `result_text` at `now`.
pub open spec fn result_recorded(
    old: RelayCodexCycleRecord,
    new: RelayCodexCycleRecord,
    result_text: Seq<char>,
    now: String,
) -> bool {
    &&& new.status@ == "CODEX_COMPLETED"@
    &&& string_option_view(new.result_text) == Some(result_text)
    &&& new == RelayCodexCycleRecord {
        status: new.status,
        result_text: new.result_text,
        codex_completed_at: Some(now),
        updated_at: now,
        ..old
    }
}

/// What recording `result_text` gives: `Ok(true)` when the running cycle
/// completes with it, `Ok(false)` when the same text was stored before, or
/// the reason it is refused.
pub open spec fn result_recording(
    status: Seq<char>,
    existing_result: Option<Seq<char>>,
    result_text: Seq<char>,
) -> Result<bool, Seq<char>> {
    match result_receipt(status, existing_result, result_text) {
        Ok(RelayCodexResultReceipt::Record) => Ok(true),
        Ok(RelayCodexResultReceipt::AlreadyRecorded) => Ok(false),
        Err(e) => Err(e),
    }
}

pub open spec fn bool_result(r: Result<bool, String>) -> Result<bool, Seq<char>> {
    match r {
        Ok(b) => Ok(b),
        Err(e) => Err(e@),
    }
}

/// Records the final text of the cycle's turn: a running cycle completes with
/// it; once stored the text never changes (the same text again changes
/// nothing); otherwise the cycle is left as it is.
pub fn record_relay_codex_cycle_result(
    cycle: &mut RelayCodexCycleRecord,
    result_text: &str,
    now: String,
) -> (r: Result<bool, String>)
    ensures
        bool_result(r) == result_recording(
            old(cycle).status@,
            string_option_view(old(cycle).result_text),
            result_text@,
        ),
        r == Ok::<bool, String>(true) ==> result_recorded(*old(cycle), *final(cycle), result_text@, now),
        r != Ok::<bool, String>(true) ==> *final(cycle) == *old(cycle),
{
    let receipt = decide_relay_codex_result(
        cycle.status.as_str(),
        text_of(&cycle.result_text),
        result_text,
    );
    match receipt {
        Err(e) => Err(e),
        Ok(RelayCodexResultReceipt::AlreadyRecorded) => Ok(false),
        Ok(RelayCodexResultReceipt::Record) => {
            cycle.status = String::from_str("CODEX_COMPLETED");
            cycle.result_text = Some(String::from_str(result_text));
            cycle.codex_completed_at = Some(now.clone());
            cycle.updated_at = now;
            Ok(true)
        },
    }
}

/// `new` is `old` waiting for ChatGPT with its result queued as `message_id` at `now`.
pub open spec fn result_linked(
    old: RelayCodexCycleRecord,
    new: RelayCodexCycleRecord,
    message_id: String,
    now: String,
) -> bool {
    &&& new.status@ == "WAITING_FOR_CHATGPT"@
    &&& new == RelayCodexCycleRecord {
        status: new.status,
        outbound_chatgpt_message_id: Some(message_id),
        relay_queued_at: Some(now),
        updated_at: now,
        ..old
    }
}

/// Links the cycle's result to its outbound ChatGPT message `message_id`:
/// the cycle waits for ChatGPT. A cycle has at most one outbound message, so
/// one that is linked already keeps its message and is left as it is.
pub fn link_relay_codex_cycle_result(cycle: &mut RelayCodexCycleRecord, message_id: String, now: String)
    ensures
        old(cycle).outbound_chatgpt_message_id is Some ==> *final(cycle) == *old(cycle),
        old(cycle).outbound_chatgpt_message_id is None ==> result_linked(
            *old(cycle),
            *final(cycle),
            message_id,
            now,
        ),
{
    if cycle.outbound_chatgpt_message_id.is_none() {
        cycle.status = String::from_str("WAITING_FOR_CHATGPT");
        cycle.outbound_chatgpt_message_id = Some(message_id);
        cycle.relay_queued_at = Some(now.clone());
        cycle.updated_at = now;
    }
}

pub open spec fn event_view(e: Option<&'static str>) -> Option<Seq<char>> {
    match e {
        Some(s) => Some(s@),
        None => None,
    }
}

pub open spec fn event_result(r: Result<Option<&'static str>, String>) -> Result<Option<Seq<char>>, Seq<char>> {
    match r {
        Ok(e) => Ok(event_view(e)),
        Err(e) => Err(e@),
    }
}

/// Makes the cycle follow the delivery state of its outbound message (see
/// `delivery_sync`): the status and the error text follow, the delivery time
/// is recorded on the first delivery, and the update time is `now`. Returns
/// the event to record, if the status changed to one that has one. An
/// unsupported state leaves the cycle as it is.
pub fn follow_relay_codex_cycle_delivery(
    cycle: &mut RelayCodexCycleRecord,
    delivery_state: &str,
    error_text: Option<&str>,
    now: String,
) -> (r: Result<Option<&'static str>, String>)
    ensures
        match delivery_sync(
            old(cycle).status@,
            old(cycle).relay_delivered_at is Some,
            delivery_state@,
            str_option_view(error_text),
        ) {
            Err(e) => event_result(r) == Err::<Option<Seq<char>>, Seq<char>>(e) && *final(cycle) == *old(
                cycle,
            ),
            Ok(v) => {
                &&& event_result(r) == Ok::<Option<Seq<char>>, Seq<char>>(v.event_type)
                &&& final(cycle).status@ == v.target_status
                &&& string_option_view(final(cycle).error_text) == v.error_text
                &&& final(cycle).relay_delivered_at == (if v.stamp_delivered_at {
                    Some(now)
                } else {
                    old(cycle).relay_delivered_at
                })
                &&& *final(cycle) == RelayCodexCycleRecord {
                    status: final(cycle).status,
                    error_text: final(cycle).error_text,
                    relay_delivered_at: final(cycle).relay_delivered_at,
                    updated_at: now,
                    ..*old(cycle)
                }
            },
        },
{
    let sync = relay_codex_cycle_delivery_sync(
        cycle.status.as_str(),
        cycle.relay_delivered_at.is_some(),
        delivery_state,
        error_text,
    );
    match sync {
        Err(e) => Err(e),
        Ok(s) => {
            cycle.status = String::from_str(s.target_status);
            cycle.error_text = s.error_text;
            if s.stamp_delivered_at {
                cycle.relay_delivered_at = Some(now.clone());
            }
            cycle.updated_at = now;
            Ok(s.event_type)
        },
    }
}

/// `new` is `old` failed with `error_text` at `now`.
pub open spec fn cycle_failed(old: RelayCodexCycleRecord, new: RelayCodexCycleRecord, error_text: Seq<char>, now: String) -> bool {
    &&& new.status@ == "FAILED"@
    &&& string_option_view(new.error_text) == Some(error_text)
    &&& new == RelayCodexCycleRecord {
        status: new.status,
        error_text: new.error_text,
        updated_at: now,
        ..old
    }
}

/// Marks the cycle failed with `error_text`: only a cycle with neither a
/// result nor an outbound message fails; any other is left as it is.
pub fn fail_relay_codex_cycle(cycle: &mut RelayCodexCycleRecord, error_text: &str, now: String) -> (r: Result<(), String>)
    ensures
        unit_result(r) == cycle_failure_check(Some(*old(cycle))),
        r is Ok ==> cycle_failed(*old(cycle), *final(cycle), error_text@, now),
        r is Err ==> *final(cycle) == *old(cycle),
{
    match check_relay_codex_cycle_failure(Some(&*cycle)) {
        Err(e) => Err(e),
        Ok(()) => {
            cycle.status = String::from_str("FAILED");
            cycle.error_text = Some(String::from_str(error_text));
            cycle.updated_at = now;
            Ok(())
        },
    }
}

} // verus!
