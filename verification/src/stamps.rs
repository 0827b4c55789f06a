//! Identifiers and times for the relay's records: fresh ids from `uuid`,
//! the clock and RFC 3339 timestamps from `chrono`.

use crate::relay::{
    new_relay_codex_cycle, new_relay_module, relay_input_error, validate_relay_module,
    RelayCodexCycleRecord, RelayModuleInput, RelayModuleRecord,
};
use crate::text::trim;
use vstd::prelude::*;

verus! {

/// A fresh random identifier: `uuid::Uuid::new_v4()` in its `Display` form,
/// which the `uuid` crate writes hyphenated, 36 characters long. Nothing else
/// about the value is claimed.
#[verifier::external_body]
fn fresh_id() -> (id: String)
    ensures
        id@.len() == 36,
{
    uuid::Uuid::new_v4().to_string()
}

/// The current time, `chrono::Utc::now().to_rfc3339()`. Nothing is claimed
/// about the value.
#[verifier::external_body]
fn now_rfc3339() -> String {
    chrono::Utc::now().to_rfc3339()
}

/// What `chrono::DateTime::parse_from_rfc3339` reports for a text it cannot
/// read: its error's `Display` text; `None` when it reads the text.
pub uninterp spec fn rfc3339_parse_error(text: Seq<char>) -> Option<Seq<char>>;

/// Reads an RFC 3339 timestamp with `chrono::DateTime::parse_from_rfc3339` and
/// takes chrono's exact difference `chrono::Utc::now() - start`, returned as the
/// `TimeDelta`'s `num_seconds()` and `subsec_nanos()` (whose sum in nanoseconds
/// is the whole span, as chrono documents). The contract claims that whether
/// the text is read, and the error text when it is not, depend on the text
/// alone (named `rfc3339_parse_error`). The span depends on the clock; nothing
/// is claimed about it.
#[verifier::external_body]
fn elapsed_since_rfc3339(text: &str) -> (r: Result<(i64, i32), String>)
    ensures
        match r {
            Ok(_) => rfc3339_parse_error(text@) is None,
            Err(e) => rfc3339_parse_error(text@) == Some(e@),
        },
{
    match chrono::DateTime::parse_from_rfc3339(text) {
        Ok(start) => {
            let elapsed = chrono::Utc::now() - start.with_timezone(&chrono::Utc);
            Ok((elapsed.num_seconds(), elapsed.subsec_nanos()))
        },
        Err(error) => Err(error.to_string()),
    }
}

/// A span of `seconds` whole seconds and `nanos` nanoseconds, in nanoseconds.
pub open spec fn span_nanos(seconds: int, nanos: int) -> int {
    seconds * 1_000_000_000 + nanos
}

/// The span of `seconds` whole seconds and `nanos` nanoseconds, in nanoseconds.
pub fn elapsed_nanos(seconds: i64, nanos: i32) -> (n: i128)
    ensures
        n == span_nanos(seconds as int, nanos as int),
{
    seconds as i128 * 1_000_000_000 + nanos as i128
}

/// Why a module's stored start time cannot be read.
pub open spec fn start_read_error(e: Seq<char>) -> Seq<char> {
    "模块开始时间无法读取："@ + e
}

/// The module's running time now, in nanoseconds: nothing before its first
/// turn; otherwise chrono's exact span from its stored start to now, or why the
/// stored start cannot be read.
pub fn runtime_elapsed(started_at: Option<&str>) -> (r: Result<Option<i128>, String>)
    ensures
        match started_at {
            None => r == Ok::<Option<i128>, String>(None),
            Some(text) => match rfc3339_parse_error(text@) {
                Some(e) => r is Err && r->Err_0@ == start_read_error(e),
                None => r is Ok && r->Ok_0 is Some,
            },
        },
{
    match started_at {
        None => Ok(None),
        Some(text) => match elapsed_since_rfc3339(text) {
            Err(e) => Err(String::from_str("模块开始时间无法读取：").concat(e.as_str())),
            Ok((seconds, nanos)) => Ok(Some(elapsed_nanos(seconds, nanos))),
        },
    }
}

/// A new relay module, checked, with a fresh id and stamped now; it is READY
/// and has started nothing.
pub fn create_relay_module_record(input: &RelayModuleInput) -> (r: Result<RelayModuleRecord, String>)
    ensures
        match r {
            Ok(m) => {
                &&& relay_input_error(*input) is None
                &&& m.id@.len() == 36
                &&& m.name@ == trim(input.name@)
                &&& m.working_directory@ == trim(input.working_directory@)
                &&& m.max_cycles == input.max_cycles
                &&& m.max_runtime_minutes == input.max_runtime_minutes
                &&& m.retry_template@ == trim(input.retry_template@)
                &&& m.phase@ == "READY"@
                &&& m.codex_thread_id is None && m.module_started_at is None
                &&& !m.stop_after_turn && m.invalid_reply_count == 0 && m.started_cycles == 0
                &&& m.created_at@ == m.updated_at@
            },
            Err(e) => relay_input_error(*input) == Some(e@),
        },
{
    validate_relay_module(input)?;
    Ok(new_relay_module(fresh_id(), input, now_rfc3339()))
}

/// A new Codex cycle for the module, with a fresh id and stamped now; it waits
/// to be sent to Codex.
pub fn create_relay_codex_cycle_record(module_id: &str, cycle_number: i64, prompt_text: &str) -> (c: RelayCodexCycleRecord)
    ensures
        c.id@.len() == 36,
        c.module_id@ == module_id@,
        c.cycle_number == cycle_number,
        c.status@ == "WAITING_TO_SEND_CODEX"@,
        c.prompt_text@ == prompt_text@,
        c.codex_thread_id is None && c.codex_turn_id is None && c.result_text is None,
        c.outbound_chatgpt_message_id is None && c.error_text is None,
        c.created_at@ == c.updated_at@,
        c.codex_started_at is None && c.codex_completed_at is None,
        c.relay_queued_at is None && c.relay_delivered_at is None && c.block_reason is None,
{
    new_relay_codex_cycle(fresh_id(), module_id, cycle_number, prompt_text, now_rfc3339())
}

} // verus!
