//! The JSON protocol envelope ChatGPT returns to the single-module middleware:
//! where it stands in a reply, and which envelopes are valid.

use crate::middleware::string_option_view;
use crate::text::{
    chars_of, contains, find, is_blank_str, lemma_find, trim, trim_end, trim_end_index,
    trim_start_index, window_contains, window_find,
};
use vstd::prelude::*;

verus! {

#[derive(Debug, Clone, Copy, PartialEq, Eq, Structural)]
pub enum ProtocolState {
    NextTask,
    ModuleDone,
    Pause,
    Blocked,
}

#[derive(Debug, Clone)]
pub struct ProtocolEnvelope {
    pub state: ProtocolState,
    pub module: String,
    pub reason: String,
    pub codex_prompt: Option<String>,
    pub acceptance_criteria: Vec<String>,
    pub review_scope: Option<String>,
    pub requires_user_input: bool,
}

pub open spec fn state_name(state: ProtocolState) -> Seq<char> {
    match state {
        ProtocolState::NextTask => "NEXT_TASK"@,
        ProtocolState::ModuleDone => "MODULE_DONE"@,
        ProtocolState::Pause => "PAUSE"@,
        ProtocolState::Blocked => "BLOCKED"@,
    }
}

pub fn protocol_state_name(state: &ProtocolState) -> (s: String)
    ensures
        s@ == state_name(*state),
{
    match state {
        ProtocolState::NextTask => String::from_str("NEXT_TASK"),
        ProtocolState::ModuleDone => String::from_str("MODULE_DONE"),
        ProtocolState::Pause => String::from_str("PAUSE"),
        ProtocolState::Blocked => String::from_str("BLOCKED"),
    }
}

/// Why an envelope is not a valid protocol reply, if it is not.
pub open spec fn envelope_error(e: ProtocolEnvelope) -> Option<Seq<char>> {
    if trim(e.module@).len() == 0 || trim(e.reason@).len() == 0 {
        Some("protocol state, module, and reason must be non-empty"@)
    } else if e.state == ProtocolState::NextTask {
        if match e.codex_prompt {
            Some(p) => trim(p@).len() == 0,
            None => true,
        } {
            Some("NEXT_TASK requires a non-empty codex_prompt"@)
        } else if e.acceptance_criteria@.len() == 0 || exists|i: int|
            0 <= i < e.acceptance_criteria@.len() && trim(
                #[trigger] e.acceptance_criteria@[i]@,
            ).len() == 0 {
            Some("NEXT_TASK requires non-empty acceptance_criteria"@)
        } else {
            None
        }
    } else if e.codex_prompt is Some {
        Some("only NEXT_TASK may include codex_prompt"@)
    } else {
        None
    }
}

/// What every valid protocol reply carries: a module and a reason; a NEXT_TASK
/// a non-blank Codex prompt and at least one acceptance criterion, none of
/// them blank; any other state no Codex prompt.
pub proof fn lemma_valid_envelope_is_complete(e: ProtocolEnvelope)
    requires
        envelope_error(e) is None,
    ensures
        trim(e.module@).len() > 0 && trim(e.reason@).len() > 0,
        e.state == ProtocolState::NextTask ==> {
            &&& e.codex_prompt is Some
            &&& trim(e.codex_prompt.unwrap()@).len() > 0
            &&& e.acceptance_criteria@.len() > 0
            &&& forall|i: int|
                0 <= i < e.acceptance_criteria@.len() ==> trim(
                    #[trigger] e.acceptance_criteria@[i]@,
                ).len() > 0
        },
        e.state != ProtocolState::NextTask ==> e.codex_prompt is None,
{
}

/// Whether one of `items` is blank.
fn any_blank(items: &Vec<String>) -> (b: bool)
    ensures
        b == exists|i: int| 0 <= i < items@.len() && trim(#[trigger] items@[i]@).len() == 0,
{
    let mut i: usize = 0;
    while i < items.len()
        invariant
            i <= items@.len(),
            forall|j: int| 0 <= j < i ==> trim(#[trigger] items@[j]@).len() != 0,
        decreases items@.len() - i,
    {
        if is_blank_str(items[i].as_str()) {
            return true;
        }
        i = i + 1;
    }
    false
}

/// The envelope itself when it is a valid protocol reply.
pub fn validate_protocol_envelope(envelope: ProtocolEnvelope) -> (r: Result<ProtocolEnvelope, String>)
    ensures
        match r {
            Ok(e) => e == envelope && envelope_error(envelope) is None,
            Err(m) => envelope_error(envelope) == Some(m@),
        },
{
    if is_blank_str(envelope.module.as_str()) || is_blank_str(envelope.reason.as_str()) {
        return Err(String::from_str("protocol state, module, and reason must be non-empty"));
    }
    match envelope.state {
        ProtocolState::NextTask => {
            let missing = match &envelope.codex_prompt {
                Some(p) => is_blank_str(p.as_str()),
                None => true,
            };
            if missing {
                return Err(String::from_str("NEXT_TASK requires a non-empty codex_prompt"));
            }
            if envelope.acceptance_criteria.len() == 0 || any_blank(
                &envelope.acceptance_criteria,
            ) {
                return Err(String::from_str("NEXT_TASK requires non-empty acceptance_criteria"));
            }
        },
        _ => {
            if envelope.codex_prompt.is_some() {
                return Err(String::from_str("only NEXT_TASK may include codex_prompt"));
            }
        },
    }
    Ok(envelope)
}

/// What serde_json's stream deserializer reads first from the front of `text`:
/// how many characters the leading JSON value spans, and the string held by its
/// `state` member when it has one.
pub uninterp spec fn leading_json_value(text: Seq<char>) -> Option<(nat, Option<Seq<char>>)>;

/// Deserializes the leading JSON value of `text` with
/// `serde_json::Deserializer::from_str(text).into_iter::<Value>().next()`, and
/// reports its span (`byte_offset`, counted in characters) and its `state`
/// string. The contract claims that the result is a function of `text` alone,
/// named `leading_json_value`, and that the span does not exceed `text`.
#[verifier::external_body]
fn first_json_value(text: &str) -> (r: Option<(usize, Option<String>)>)
    ensures
        match r {
            Some((n, state)) => n <= text@.len() && leading_json_value(text@) == Some(
                (n as nat, string_option_view(state)),
            ),
            None => leading_json_value(text@) is None,
        },
{
    let mut values = serde_json::Deserializer::from_str(text).into_iter::<serde_json::Value>();
    match values.next() {
        Some(Ok(value)) => Some(
            (
                text[..values.byte_offset()].chars().count(),
                value.get("state").and_then(serde_json::Value::as_str).map(str::to_owned),
            ),
        ),
        _ => None,
    }
}

/// The protocol objects that start at `{` characters of `s[i..]`: leading JSON
/// values with a string `state` member.
pub open spec fn state_objects_from(s: Seq<char>, i: int) -> Seq<Seq<char>>
    decreases s.len() - i,
{
    if i < 0 || i >= s.len() {
        seq![]
    } else {
        let here = if s[i] == '{' {
            match leading_json_value(s.subrange(i, s.len() as int)) {
                Some((n, Some(_))) => if 0 < n && i + n <= s.len() {
                    seq![s.subrange(i, i + n)]
                } else {
                    seq![]
                },
                _ => seq![],
            }
        } else {
            seq![]
        };
        here + state_objects_from(s, i + 1)
    }
}

/// The only protocol object in an unfenced reply, if there is exactly one.
pub open spec fn unfenced_protocol_json(s: Seq<char>) -> Option<Seq<char>> {
    let found = state_objects_from(s, 0);
    if found.len() == 1 {
        Some(found[0])
    } else {
        None
    }
}

/// Whether the leading JSON value found at character `start` of a reply is a
/// protocol object: a non-empty value with a string `state` member. Returns
/// the object's window of the reply.
pub fn protocol_object_at(start: usize, leading: Option<(usize, Option<String>)>) -> (r: Option<(usize, usize)>)
    requires
        leading matches Some((n, _)) ==> start + n <= usize::MAX,
    ensures
        match leading {
            Some((n, Some(_))) => if 0 < n {
                r == Some((start, (start + n) as usize))
            } else {
                r is None
            },
            _ => r is None,
        },
{
    match leading {
        Some((n, Some(_))) => if 0 < n {
            Some((start, start + n))
        } else {
            None
        },
        _ => None,
    }
}

/// The protocol object of an unfenced reply `v[0..hi]`, as a window of `v`.
fn unfenced_window(v: &Vec<char>, reply: &str, hi: usize) -> (r: Option<(usize, usize)>)
    requires
        v@ == reply@,
        hi <= v@.len(),
    ensures
        match r {
            Some((a, b)) => a <= b <= hi && unfenced_protocol_json(v@.subrange(0, hi as int))
                == Some(v@.subrange(a as int, b as int)),
            None => unfenced_protocol_json(v@.subrange(0, hi as int)) is None,
        },
{
    let ghost s = v@.subrange(0, hi as int);
    let mut found: Vec<(usize, usize)> = Vec::new();
    let mut i: usize = 0;
    while i < hi
        invariant
            i <= hi <= v@.len(),
            v@ == reply@,
            s == v@.subrange(0, hi as int),
            forall|j: int| 0 <= j < found@.len() ==> (#[trigger] found@[j]).0 <= found@[j].1 <= hi,
            found@.map_values(|w: (usize, usize)| v@.subrange(w.0 as int, w.1 as int))
                + state_objects_from(s, i as int) == state_objects_from(s, 0),
        decreases hi - i,
    {
        let ghost before = found@.map_values(|w: (usize, usize)| v@.subrange(w.0 as int, w.1 as int));
        let ghost here: Seq<Seq<char>> = seq![];
        if v[i] == '{' {
            let candidate = reply.substring_char(i, hi);
            assert(candidate@ =~= s.subrange(i as int, s.len() as int));
            let leading = first_json_value(candidate);
            if let Some((a, b)) = protocol_object_at(i, leading) {
                found.push((a, b));
                proof {
                    here = seq![v@.subrange(i as int, b as int)];
                    assert(s.subrange(i as int, b as int) =~= v@.subrange(i as int, b as int));
                }
            }
        }
        assert(found@.map_values(|w: (usize, usize)| v@.subrange(w.0 as int, w.1 as int))
            =~= before + here);
        assert(state_objects_from(s, i as int) == here + state_objects_from(s, i + 1));
        assert(before + here + state_objects_from(s, i + 1) =~= before + (here
            + state_objects_from(s, i + 1)));
        i = i + 1;
    }
    assert(state_objects_from(s, i as int) =~= Seq::<Seq<char>>::empty());
    assert(found@.map_values(|w: (usize, usize)| v@.subrange(w.0 as int, w.1 as int))
        =~= state_objects_from(s, 0));
    if found.len() == 1 {
        Some(found[0])
    } else {
        None
    }
}

pub open spec fn json_fence() -> Seq<char> {
    "```json"@
}

pub open spec fn fence() -> Seq<char> {
    "```"@
}

/// The protocol JSON of a reply: the body of its one ```json block, which must
/// close the reply, or else its one unfenced protocol object.
pub open spec fn protocol_json(reply: Seq<char>) -> Result<Seq<char>, Seq<char>> {
    let text = trim_end(reply);
    match find(text, json_fence()) {
        None => match unfenced_protocol_json(text) {
            Some(json) => Ok(json),
            None => Err("response must contain one JSON code block"@),
        },
        Some(start) => if contains(text.subrange(0, start), fence()) {
            Err("response contains more than one code block"@)
        } else {
            let content_start = start + json_fence().len();
            match find(text.subrange(content_start, text.len() as int), fence()) {
                None => Err("JSON code block is not closed"@),
                Some(close) => {
                    let close_start = content_start + close;
                    if trim(text.subrange(close_start + 3, text.len() as int)).len() != 0 {
                        Err("JSON code block must be at the end of the response"@)
                    } else {
                        let json = trim(text.subrange(content_start, close_start));
                        if json.len() == 0 {
                            Err("JSON code block cannot be empty"@)
                        } else {
                            Ok(json)
                        }
                    }
                },
            }
        },
    }
}

pub fn extract_protocol_json(reply: &str) -> (r: Result<&str, String>)
    ensures
        match r {
            Ok(json) => protocol_json(reply@) == Ok::<Seq<char>, Seq<char>>(json@),
            Err(e) => protocol_json(reply@) == Err::<Seq<char>, Seq<char>>(e@),
        },
{
    let v = chars_of(reply);
    let te = trim_end_index(&v, 0, v.len());
    let ghost text = trim_end(reply@);
    assert(v@.subrange(0, v@.len() as int) =~= v@);
    assert(text == v@.subrange(0, te as int));
    let marker = chars_of("```json");
    let fence_chars = chars_of("```");
    proof {
        reveal_strlit("```");
    }
    let start = match window_find(&v, 0, te, &marker) {
        None => {
            return match unfenced_window(&v, reply, te) {
                Some((a, b)) => Ok(reply.substring_char(a, b)),
                None => Err(String::from_str("response must contain one JSON code block")),
            };
        },
        Some(start) => start,
    };
    proof {
        lemma_find(text, json_fence());
    }
    assert(text.subrange(0, start as int) =~= v@.subrange(0, start as int));
    if window_contains(&v, 0, start, &fence_chars) {
        return Err(String::from_str("response contains more than one code block"));
    }
    let content_start = start + marker.len();
    assert(text.subrange(content_start as int, text.len() as int) =~= v@.subrange(
        content_start as int,
        te as int,
    ));
    let close = match window_find(&v, content_start, te, &fence_chars) {
        None => {
            return Err(String::from_str("JSON code block is not closed"));
        },
        Some(close) => close,
    };
    proof {
        lemma_find(v@.subrange(content_start as int, te as int), fence());
    }
    let after = close + 3;
    assert(text.subrange(after as int, text.len() as int) =~= v@.subrange(after as int, te as int));
    let tail_end = trim_end_index(&v, after, te);
    let tail_start = trim_start_index(&v, after, tail_end);
    if tail_start != tail_end {
        return Err(String::from_str("JSON code block must be at the end of the response"));
    }
    assert(text.subrange(content_start as int, close as int) =~= v@.subrange(
        content_start as int,
        close as int,
    ));
    let json_end = trim_end_index(&v, content_start, close);
    let json_start = trim_start_index(&v, content_start, json_end);
    if json_start == json_end {
        return Err(String::from_str("JSON code block cannot be empty"));
    }
    Ok(reply.substring_char(json_start, json_end))
}

} // verus!
