//! Codex's requests for user input (`item/tool/requestUserInput`) and the
//! answers sent back to it.

use crate::text::{is_blank_str, str_equals, trim};
use vstd::prelude::*;

verus! {

#[derive(Debug, Clone, PartialEq, Eq)]
pub struct RelayCodexInputOption {
    pub label: String,
    pub description: String,
}

#[derive(Debug, Clone, PartialEq, Eq)]
pub struct RelayCodexInputQuestion {
    pub id: String,
    pub header: String,
    pub question: String,
    pub options: Option<Vec<RelayCodexInputOption>>,
    pub is_other: bool,
    pub is_secret: bool,
}

#[derive(Debug, Clone, PartialEq, Eq)]
pub struct RelayCodexInputRequestParams {
    pub thread_id: String,
    pub turn_id: String,
    pub item_id: String,
    pub is_blocking: bool,
    pub auto_resolution_ms: Option<i64>,
    pub questions: Vec<RelayCodexInputQuestion>,
    /// Fields of the request beyond the known ones, each with its JSON text,
    /// kept so that nothing of the request is lost.
    pub compatibility: Vec<(String, String)>,
}

/// A JSON-RPC id that Codex may use: a string or an integer.
#[derive(Debug, Clone, PartialEq, Eq)]
pub enum RelayCodexRequestId {
    Text(String),
    Signed(i64),
    Unsigned(u64),
}

/// The `id` member of a message, as it was found.
#[derive(Debug, Clone, PartialEq, Eq)]
pub enum RelayCodexRequestIdField {
    Missing,
    /// Present, but neither a string nor an integer.
    Invalid,
    Valid(RelayCodexRequestId),
}

/// A JSON-RPC message from Codex, read as far as a request for user input
/// needs: its method when it is a string, its id, and its parameters, or the
/// reason they do not have the shape of a request.
#[derive(Debug, Clone)]
pub struct RelayCodexInputMessage {
    pub method: Option<String>,
    pub request_id: RelayCodexRequestIdField,
    pub params: Option<Result<RelayCodexInputRequestParams, String>>,
}

#[derive(Debug, Clone, PartialEq, Eq)]
pub struct RelayCodexInputRequest {
    pub request_id: RelayCodexRequestId,
    pub params: RelayCodexInputRequestParams,
}

/// The user's answers: question id and answer text, in order.
#[derive(Debug, Clone, PartialEq, Eq)]
pub struct RelayCodexInputSubmission {
    pub answers: Vec<(String, String)>,
}

/// The reply to a request for user input: the request's id and, per answered
/// question, its list of answers.
#[derive(Debug, Clone, PartialEq, Eq)]
pub struct RelayCodexInputResponse {
    pub request_id: RelayCodexRequestId,
    pub answers: Vec<(String, Vec<String>)>,
}

pub open spec fn has_blank_question_id(questions: Seq<RelayCodexInputQuestion>) -> bool {
    exists|i: int| 0 <= i < questions.len() && #[trigger] trim(questions[i].id@).len() == 0
}

pub open spec fn has_duplicate_question_id(questions: Seq<RelayCodexInputQuestion>) -> bool {
    exists|i: int, j: int|
        0 <= i < j < questions.len() && #[trigger] questions[i].id@ == #[trigger] questions[j].id@
}

/// Why a message is not a usable request for user input, if it is not: the
/// method must be `item/tool/requestUserInput`, the id a string or integer,
/// the parameters present and well formed, with at least one question, every
/// question with a non-blank id and no id twice.
pub open spec fn input_request_error(m: RelayCodexInputMessage) -> Option<Seq<char>> {
    if !(m.method matches Some(method) && method@ == "item/tool/requestUserInput"@) {
        Some("不是 Codex 人工输入请求。"@)
    } else {
        match m.request_id {
            RelayCodexRequestIdField::Missing => Some("Codex 输入请求缺少 JSON-RPC id。"@),
            RelayCodexRequestIdField::Invalid => Some("Codex 输入请求的 JSON-RPC id 类型无效。"@),
            RelayCodexRequestIdField::Valid(_) => match m.params {
                None => Some("Codex 输入请求缺少参数。"@),
                Some(Err(e)) => Some("Codex 输入请求格式无效："@ + e@),
                Some(Ok(p)) => if p.questions@.len() == 0 || has_blank_question_id(p.questions@) {
                    Some("Codex 输入请求必须包含带 id 的问题。"@)
                } else if has_duplicate_question_id(p.questions@) {
                    Some("Codex 输入请求包含重复 question.id。"@)
                } else {
                    None
                },
            },
        }
    }
}

fn find_blank_question_id(questions: &Vec<RelayCodexInputQuestion>) -> (b: bool)
    ensures
        b == has_blank_question_id(questions@),
{
    let mut i: usize = 0;
    while i < questions.len()
        invariant
            i <= questions.len(),
            forall|k: int| 0 <= k < i ==> trim(#[trigger] questions@[k].id@).len() != 0,
        decreases questions.len() - i,
    {
        if is_blank_str(questions[i].id.as_str()) {
            return true;
        }
        i = i + 1;
    }
    false
}

fn find_duplicate_question_id(questions: &Vec<RelayCodexInputQuestion>) -> (b: bool)
    ensures
        b == has_duplicate_question_id(questions@),
{
    let mut j: usize = 0;
    while j < questions.len()
        invariant
            j <= questions.len(),
            forall|a: int, b: int|
                0 <= a < b < j ==> #[trigger] questions@[a].id@ != #[trigger] questions@[b].id@,
        decreases questions.len() - j,
    {
        let mut i: usize = 0;
        while i < j
            invariant
                i <= j < questions.len(),
                forall|a: int| 0 <= a < i ==> #[trigger] questions@[a].id@ != questions@[j as int].id@,
            decreases j - i,
        {
            if str_equals(questions[i].id.as_str(), questions[j].id.as_str()) {
                return true;
            }
            i = i + 1;
        }
        j = j + 1;
    }
    false
}

pub open spec fn request_result(r: Result<RelayCodexInputRequest, String>, m: RelayCodexInputMessage) -> bool {
    match r {
        Ok(request) => {
            &&& input_request_error(m) is None
            &&& m.request_id == RelayCodexRequestIdField::Valid(request.request_id)
            &&& m.params == Some(Ok::<RelayCodexInputRequestParams, String>(request.params))
        },
        Err(e) => input_request_error(m) == Some(e@),
    }
}

/// Reads a request for user input out of a Codex message, keeping its id and
/// parameters as they came.
pub fn parse_request(message: RelayCodexInputMessage) -> (r: Result<RelayCodexInputRequest, String>)
    ensures
        request_result(r, message),
{
    let is_request = match &message.method {
        Some(method) => str_equals(method.as_str(), "item/tool/requestUserInput"),
        None => false,
    };
    if !is_request {
        return Err(String::from_str("不是 Codex 人工输入请求。"));
    }
    let request_id = match message.request_id {
        RelayCodexRequestIdField::Missing => {
            return Err(String::from_str("Codex 输入请求缺少 JSON-RPC id。"));
        },
        RelayCodexRequestIdField::Invalid => {
            return Err(String::from_str("Codex 输入请求的 JSON-RPC id 类型无效。"));
        },
        RelayCodexRequestIdField::Valid(id) => id,
    };
    let params = match message.params {
        None => {
            return Err(String::from_str("Codex 输入请求缺少参数。"));
        },
        Some(Err(e)) => {
            let text = String::from_str("Codex 输入请求格式无效：").concat(e.as_str());
            return Err(text);
        },
        Some(Ok(p)) => p,
    };
    if params.questions.len() == 0 || find_blank_question_id(&params.questions) {
        return Err(String::from_str("Codex 输入请求必须包含带 id 的问题。"));
    }
    if find_duplicate_question_id(&params.questions) {
        return Err(String::from_str("Codex 输入请求包含重复 question.id。"));
    }
    Ok(RelayCodexInputRequest { request_id, params })
}

/// The answers sent for one question: none for an empty answer, else the one answer.
pub open spec fn answer_list(answer: Seq<char>) -> Seq<Seq<char>> {
    if answer.len() == 0 {
        Seq::empty()
    } else {
        seq![answer]
    }
}

pub open spec fn strings_view(v: Vec<String>) -> Seq<Seq<char>> {
    v@.map_values(|s: String| s@)
}

/// Builds the reply to request `request_id` from the user's answers, one entry
/// per answer in the order given.
pub fn response_for(request_id: RelayCodexRequestId, submission: &RelayCodexInputSubmission) -> (r: RelayCodexInputResponse)
    ensures
        r.request_id == request_id,
        r.answers@.len() == submission.answers@.len(),
        forall|i: int|
            0 <= i < r.answers@.len() ==> {
                &&& (#[trigger] r.answers@[i]).0@ == submission.answers@[i].0@
                &&& strings_view(r.answers@[i].1) == answer_list(submission.answers@[i].1@)
            },
{
    let mut answers: Vec<(String, Vec<String>)> = Vec::new();
    let mut i: usize = 0;
    while i < submission.answers.len()
        invariant
            i <= submission.answers@.len(),
            answers@.len() == i,
            forall|k: int|
                0 <= k < i ==> {
                    &&& (#[trigger] answers@[k]).0@ == submission.answers@[k].0@
                    &&& strings_view(answers@[k].1) == answer_list(submission.answers@[k].1@)
                },
        decreases submission.answers@.len() - i,
    {
        let question_id = submission.answers[i].0.clone();
        let answer = &submission.answers[i].1;
        let mut list: Vec<String> = Vec::new();
        if !answer.as_str().is_empty() {
            list.push(answer.clone());
        }
        assert(strings_view(list) =~= answer_list(submission.answers@[i as int].1@));
        answers.push((question_id, list));
        i = i + 1;
    }
    RelayCodexInputResponse { request_id, answers }
}

} // verus!
