use chatgpt_codex_bridge::protocol::{
    extract_protocol_json, protocol_object_at, protocol_state_name, validate_protocol_envelope,
    ProtocolEnvelope, ProtocolState,
};
use serde_json::Value;

fn state_from(name: &str) -> Result<ProtocolState, String> {
    match name {
        "NEXT_TASK" => Ok(ProtocolState::NextTask),
        "MODULE_DONE" => Ok(ProtocolState::ModuleDone),
        "PAUSE" => Ok(ProtocolState::Pause),
        "BLOCKED" => Ok(ProtocolState::Blocked),
        other => Err(format!("unknown state {other}")),
    }
}

fn envelope_from_json(json: &str) -> Result<ProtocolEnvelope, String> {
    let value: Value = serde_json::from_str(json).map_err(|error| format!("invalid protocol JSON: {error}"))?;
    let text = |key: &str| -> Result<String, String> {
        value.get(key).and_then(Value::as_str).map(str::to_owned).ok_or_else(|| format!("missing {key}"))
    };
    let criteria = value
        .get("acceptance_criteria")
        .and_then(Value::as_array)
        .ok_or_else(|| "missing acceptance_criteria".to_string())?
        .iter()
        .map(|item| item.as_str().map(str::to_owned).ok_or_else(|| "criterion".to_string()))
        .collect::<Result<Vec<_>, _>>()?;
    Ok(ProtocolEnvelope {
        state: state_from(&text("state")?)?,
        module: text("module")?,
        reason: text("reason")?,
        codex_prompt: value.get("codex_prompt").and_then(Value::as_str).map(str::to_owned),
        acceptance_criteria: criteria,
        review_scope: value.get("review_scope").and_then(Value::as_str).map(str::to_owned),
        requires_user_input: value
            .get("requires_user_input")
            .and_then(Value::as_bool)
            .ok_or_else(|| "missing requires_user_input".to_string())?,
    })
}

fn validate_protocol_payload(reply: &str, structured_json: Option<&str>) -> Result<ProtocolEnvelope, String> {
    let json = match structured_json {
        Some(json) => json,
        None => extract_protocol_json(reply)?,
    };
    validate_protocol_envelope(envelope_from_json(json)?)
}

#[test]
fn protocol_validator_accepts_one_final_pause_envelope() {
    let reply = r#"协议已加载。
```json
{
  "state": "PAUSE",
  "module": "Adapter",
  "reason": "等待用户开始模块",
  "acceptance_criteria": [],
  "requires_user_input": false
}
```"#;
    let envelope = validate_protocol_payload(reply, None).expect("valid protocol reply");
    assert_eq!(protocol_state_name(&envelope.state), "PAUSE");
}

#[test]
fn protocol_validator_accepts_structured_json_from_extension() {
    let json = r#"{
  "state": "PAUSE",
  "module": "Adapter",
  "reason": "等待用户开始模块",
  "acceptance_criteria": [],
  "requires_user_input": false
}"#;
    let envelope = validate_protocol_payload("ChatGPT rendered a code block without fences.", Some(json))
        .expect("structured extension JSON is a valid protocol reply");
    assert_eq!(protocol_state_name(&envelope.state), "PAUSE");
}

#[test]
fn protocol_validator_accepts_unfenced_json_with_chatgpt_presentation_chrome() {
    let reply = r#"协议已加载。
JSON
{
  "state": "PAUSE",
  "module": "Adapter",
  "reason": "等待用户开始模块",
  "acceptance_criteria": [],
  "requires_user_input": false
}
Copy code"#;
    let envelope = validate_protocol_payload(reply, None)
        .expect("unfenced ChatGPT-rendered JSON is a valid protocol reply");
    assert_eq!(protocol_state_name(&envelope.state), "PAUSE");
}

#[test]
fn protocol_validator_blocks_invalid_next_task_and_extra_blocks() {
    let missing_prompt = r#"```json
{"state":"NEXT_TASK","module":"Adapter","reason":"开始","acceptance_criteria":["works"],"requires_user_input":false}
```"#;
    assert!(validate_protocol_payload(missing_prompt, None).is_err());

    let extra_block = r#"```json
{"state":"PAUSE","module":"Adapter","reason":"等待","acceptance_criteria":[],"requires_user_input":false}
```
```json
{} 
```"#;
    assert!(validate_protocol_payload(extra_block, None).is_err());
}

#[test]
fn fenced_json_is_returned_trimmed() {
    assert_eq!(extract_protocol_json("说明\n```json\n  {\"a\":1}  \n```\n"), Ok("{\"a\":1}"));
}

#[test]
fn fence_errors_are_reported() {
    assert_eq!(
        extract_protocol_json("```json\n{}"),
        Err("JSON code block is not closed".to_string())
    );
    assert_eq!(
        extract_protocol_json("```json\n   \n```"),
        Err("JSON code block cannot be empty".to_string())
    );
    assert_eq!(
        extract_protocol_json("```\nx\n```\n```json\n{}\n```"),
        Err("response contains more than one code block".to_string())
    );
    assert_eq!(
        extract_protocol_json("```json\n{}\n```\n之后"),
        Err("JSON code block must be at the end of the response".to_string())
    );
    assert_eq!(
        extract_protocol_json("没有 JSON"),
        Err("response must contain one JSON code block".to_string())
    );
}

#[test]
fn unfenced_replies_need_exactly_one_state_object() {
    let two = "{\"state\":\"PAUSE\"} 以及 {\"state\":\"BLOCKED\"}";
    assert!(extract_protocol_json(two).is_err());
    let nested = "前言 {\"state\":\"PAUSE\",\"module\":\"m\"} 结尾";
    assert_eq!(extract_protocol_json(nested), Ok("{\"state\":\"PAUSE\",\"module\":\"m\"}"));
    assert!(extract_protocol_json("{\"other\":1}").is_err());
}

#[test]
fn only_a_nonempty_value_with_a_state_is_a_protocol_object() {
    assert_eq!(protocol_object_at(3, Some((5, Some("PAUSE".into())))), Some((3, 8)));
    assert_eq!(protocol_object_at(3, Some((5, None))), None);
    assert_eq!(protocol_object_at(3, Some((0, Some("PAUSE".into())))), None);
    assert_eq!(protocol_object_at(3, None), None);
}

#[test]
fn envelope_rules_are_checked_in_order() {
    let base = ProtocolEnvelope {
        state: ProtocolState::NextTask,
        module: "m".into(),
        reason: "r".into(),
        codex_prompt: Some("do".into()),
        acceptance_criteria: vec!["works".into()],
        review_scope: None,
        requires_user_input: false,
    };
    assert!(validate_protocol_envelope(base.clone()).is_ok());
    let mut blank_reason = base.clone();
    blank_reason.reason = " ".into();
    assert_eq!(
        validate_protocol_envelope(blank_reason).err(),
        Some("protocol state, module, and reason must be non-empty".to_string())
    );
    let mut blank_criterion = base.clone();
    blank_criterion.acceptance_criteria = vec!["ok".into(), "  ".into()];
    assert_eq!(
        validate_protocol_envelope(blank_criterion).err(),
        Some("NEXT_TASK requires non-empty acceptance_criteria".to_string())
    );
    let mut pause_with_prompt = base;
    pause_with_prompt.state = ProtocolState::Pause;
    assert_eq!(
        validate_protocol_envelope(pause_with_prompt).err(),
        Some("only NEXT_TASK may include codex_prompt".to_string())
    );
}
