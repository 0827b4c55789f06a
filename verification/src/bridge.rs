//! The local bridge to the Chrome extension that drives the ChatGPT tab:
//! pairing, and what each message from the extension leads to.

use crate::middleware::{str_option_view, string_option_view};
use crate::relay_channel::or_default;
use crate::text::{is_blank_str, str_equals, trim};
use vstd::prelude::*;

verus! {

/// A bridge message from the extension, read as far as the bridge needs it.
/// Each member is present only where the message holds a value of the right
/// type there.
#[derive(Debug, Clone)]
pub struct BridgeMessage {
    pub message_type: Option<String>,
    pub pairing_secret: Option<String>,
    pub tab_id: Option<i64>,
    pub session_id: Option<String>,
    pub text: Option<String>,
    pub protocol_json: Option<String>,
    pub protocol_json_present: Option<bool>,
    pub adapter_version: Option<String>,
    pub adapter_error: Option<String>,
    pub adapter_diagnostic: Option<String>,
    pub request_id: Option<String>,
    pub relay: Option<bool>,
}

/// What a bridge message leads to.
#[derive(Debug, Clone, PartialEq, Eq)]
pub enum BridgeDecision {
    /// The pairing attempt is refused.
    RejectPairing,
    /// The extension is paired with this ChatGPT tab.
    Pair { tab_id: i64 },
    /// The bridge reports BLOCKED with `detail`; the active orchestration, if
    /// any, is blocked for `orchestration_reason` when there is one.
    Block { detail: String, orchestration_reason: Option<String> },
    /// The ChatGPT adapter failed on a relay message.
    RelayAdapterFailure { error: String, diagnostic: Option<String> },
    /// ChatGPT replied to a relay message.
    RelayReply { request_id: Option<String>, reply: String },
    /// ChatGPT replied to the orchestration; its protocol reply is checked.
    CheckProtocol { reply: String, structured_json: Option<String> },
    /// Nothing to do.
    Ignore,
}

pub enum BridgeDecisionView {
    RejectPairing,
    Pair(i64),
    Block(Seq<char>, Option<Seq<char>>),
    RelayAdapterFailure(Seq<char>, Option<Seq<char>>),
    RelayReply(Option<Seq<char>>, Seq<char>),
    CheckProtocol(Seq<char>, Option<Seq<char>>),
    Ignore,
}

pub open spec fn bridge_view(d: BridgeDecision) -> BridgeDecisionView {
    match d {
        BridgeDecision::RejectPairing => BridgeDecisionView::RejectPairing,
        BridgeDecision::Pair { tab_id } => BridgeDecisionView::Pair(tab_id),
        BridgeDecision::Block { detail, orchestration_reason } => BridgeDecisionView::Block(
            detail@,
            string_option_view(orchestration_reason),
        ),
        BridgeDecision::RelayAdapterFailure { error, diagnostic } => BridgeDecisionView::RelayAdapterFailure(
            error@,
            string_option_view(diagnostic),
        ),
        BridgeDecision::RelayReply { request_id, reply } => BridgeDecisionView::RelayReply(
            string_option_view(request_id),
            reply@,
        ),
        BridgeDecision::CheckProtocol { reply, structured_json } => BridgeDecisionView::CheckProtocol(
            reply@,
            string_option_view(structured_json),
        ),
        BridgeDecision::Ignore => BridgeDecisionView::Ignore,
    }
}

pub open spec fn unpaired_reply_text() -> Seq<char> {
    "收到未配对或不完整的 ChatGPT 回复。"@
}

pub open spec fn missing_json_detail(m: BridgeMessage) -> Seq<char> {
    or_default(string_option_view(m.adapter_error), "ChatGPT completed without a protocol JSON object."@)
}

/// The status text when the protocol adapter found no structured JSON.
pub open spec fn missing_json_status(m: BridgeMessage) -> Seq<char> {
    "Protocol adapter v"@ + or_default(string_option_view(m.adapter_version), "unknown"@)
        + " did not return structured JSON: "@ + missing_json_detail(m) + match m.adapter_diagnostic {
        Some(d) => " Observed assistant nodes: "@ + d@,
        None => Seq::empty(),
    }
}

/// Whether the message carries the id of the paired session.
pub open spec fn from_paired_session(m: BridgeMessage, session_id: Option<Seq<char>>) -> bool {
    session_id is Some && string_option_view(m.session_id) == session_id
}

pub open spec fn type_is(m: BridgeMessage, t: Seq<char>) -> bool {
    string_option_view(m.message_type) == Some(t)
}

/// The bridge's rule. Unreadable JSON and unknown messages block; pairing
/// needs the one-time secret and a positive tab id; a reply needs the paired
/// session and a text, and goes to the relay (as an adapter failure when the
/// adapter reported one) or to the orchestration's protocol check (unless the
/// adapter found no structured JSON); a heartbeat needs the paired session.
pub open spec fn bridge_decision(
    message: Option<BridgeMessage>,
    pairing_secret: Seq<char>,
    session_id: Option<Seq<char>>,
) -> BridgeDecisionView {
    match message {
        None => BridgeDecisionView::Block("Chrome 扩展发送了无效的桥接 JSON。"@, None),
        Some(m) => if type_is(m, "pair"@) {
            if string_option_view(m.pairing_secret) != Some(pairing_secret) || !(m.tab_id matches Some(
                id,
            ) && id > 0) {
                BridgeDecisionView::RejectPairing
            } else {
                BridgeDecisionView::Pair(m.tab_id.unwrap())
            }
        } else if type_is(m, "chatgptReply"@) {
            if !from_paired_session(m, session_id) || m.text is None {
                BridgeDecisionView::Block(unpaired_reply_text(), Some(unpaired_reply_text()))
            } else if m.relay == Some(true) {
                match m.adapter_error {
                    Some(e) => BridgeDecisionView::RelayAdapterFailure(
                        e@,
                        string_option_view(m.adapter_diagnostic),
                    ),
                    None => BridgeDecisionView::RelayReply(
                        string_option_view(m.request_id),
                        m.text.unwrap()@,
                    ),
                }
            } else if m.protocol_json_present == Some(false) {
                BridgeDecisionView::Block(
                    missing_json_status(m),
                    Some("ChatGPT 协议适配器未返回结构化 JSON："@ + missing_json_detail(m)),
                )
            } else {
                BridgeDecisionView::CheckProtocol(m.text.unwrap()@, string_option_view(m.protocol_json))
            }
        } else if type_is(m, "keepAlive"@) {
            if from_paired_session(m, session_id) {
                BridgeDecisionView::Ignore
            } else {
                BridgeDecisionView::Block("收到未配对的扩展心跳。"@, None)
            }
        } else {
            BridgeDecisionView::Block("Chrome 扩展发送了未知桥接消息。"@, None)
        },
    }
}

fn option_text_equals(o: &Option<String>, expected: &str) -> (b: bool)
    ensures
        b == (string_option_view(*o) == Some(expected@)),
{
    match o {
        Some(s) => str_equals(s.as_str(), expected),
        None => false,
    }
}

fn text_or(o: &Option<String>, default: &str) -> (s: String)
    ensures
        s@ == or_default(string_option_view(*o), default@),
{
    match o {
        Some(t) => t.clone(),
        None => String::from_str(default),
    }
}

/// Decides what a message from the extension leads to; `message` is `None`
/// when the text was not JSON. `session_id` is the paired session's id.
pub fn decide_bridge_message(message: Option<BridgeMessage>, pairing_secret: &str, session_id: Option<&str>) -> (d: BridgeDecision)
    ensures
        bridge_view(d) == bridge_decision(message, pairing_secret@, str_option_view(session_id)),
{
    let m = match message {
        None => {
            return BridgeDecision::Block {
                detail: String::from_str("Chrome 扩展发送了无效的桥接 JSON。"),
                orchestration_reason: None,
            };
        },
        Some(m) => m,
    };
    let paired = match session_id {
        Some(id) => option_text_equals(&m.session_id, id),
        None => false,
    };
    if option_text_equals(&m.message_type, "pair") {
        let secret_ok = option_text_equals(&m.pairing_secret, pairing_secret);
        match m.tab_id {
            Some(id) => if secret_ok && id > 0 {
                BridgeDecision::Pair { tab_id: id }
            } else {
                BridgeDecision::RejectPairing
            },
            None => BridgeDecision::RejectPairing,
        }
    } else if option_text_equals(&m.message_type, "chatgptReply") {
        if !paired || m.text.is_none() {
            return BridgeDecision::Block {
                detail: String::from_str("收到未配对或不完整的 ChatGPT 回复。"),
                orchestration_reason: Some(String::from_str("收到未配对或不完整的 ChatGPT 回复。")),
            };
        }
        if m.relay == Some(true) {
            match m.adapter_error {
                Some(e) => BridgeDecision::RelayAdapterFailure { error: e, diagnostic: m.adapter_diagnostic },
                None => {
                    let reply = match m.text {
                        Some(t) => t,
                        None => String::new(),
                    };
                    BridgeDecision::RelayReply { request_id: m.request_id, reply }
                },
            }
        } else if m.protocol_json_present == Some(false) {
            let detail = text_or(&m.adapter_error, "ChatGPT completed without a protocol JSON object.");
            let diagnostic = match &m.adapter_diagnostic {
                Some(d) => String::from_str(" Observed assistant nodes: ").concat(d.as_str()),
                None => String::new(),
            };
            let status = String::from_str("Protocol adapter v").concat(
                text_or(&m.adapter_version, "unknown").as_str(),
            ).concat(" did not return structured JSON: ").concat(detail.as_str()).concat(
                diagnostic.as_str(),
            );
            let reason = String::from_str("ChatGPT 协议适配器未返回结构化 JSON：").concat(detail.as_str());
            BridgeDecision::Block { detail: status, orchestration_reason: Some(reason) }
        } else {
            let reply = match m.text {
                Some(t) => t,
                None => String::new(),
            };
            BridgeDecision::CheckProtocol { reply, structured_json: m.protocol_json }
        }
    } else if option_text_equals(&m.message_type, "keepAlive") {
        if paired {
            BridgeDecision::Ignore
        } else {
            BridgeDecision::Block {
                detail: String::from_str("收到未配对的扩展心跳。"),
                orchestration_reason: None,
            }
        }
    } else {
        BridgeDecision::Block {
            detail: String::from_str("Chrome 扩展发送了未知桥接消息。"),
            orchestration_reason: None,
        }
    }
}

/// What is recorded when the ChatGPT adapter fails on a relay message: the
/// error, and the adapter's diagnostic when it is not blank.
pub open spec fn adapter_failure_text(error: Seq<char>, diagnostic: Option<Seq<char>>) -> Seq<char> {
    "ChatGPT 适配器失败，消息送达结果不确定，未自动重发："@ + error + match diagnostic {
        Some(d) => if trim(d).len() == 0 {
            Seq::empty()
        } else {
            " 诊断："@ + d
        },
        None => Seq::empty(),
    }
}

pub fn adapter_failure_detail(error: &str, diagnostic: Option<&str>) -> (s: String)
    ensures
        s@ == adapter_failure_text(error@, str_option_view(diagnostic)),
{
    let base = String::from_str("ChatGPT 适配器失败，消息送达结果不确定，未自动重发：").concat(error);
    match diagnostic {
        Some(d) => if is_blank_str(d) {
            base
        } else {
            base.concat(" 诊断：").concat(d)
        },
        None => base,
    }
}

} // verus!
