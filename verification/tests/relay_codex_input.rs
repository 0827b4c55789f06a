use chatgpt_codex_bridge::relay_codex_input::{
    parse_request, response_for, RelayCodexInputMessage, RelayCodexInputQuestion,
    RelayCodexInputRequestParams, RelayCodexInputSubmission, RelayCodexRequestId,
    RelayCodexRequestIdField,
};

fn question(id: &str) -> RelayCodexInputQuestion {
    RelayCodexInputQuestion {
        id: id.into(),
        header: "A".into(),
        question: "Q".into(),
        options: None,
        is_other: false,
        is_secret: false,
    }
}

fn params(questions: Vec<RelayCodexInputQuestion>) -> RelayCodexInputRequestParams {
    RelayCodexInputRequestParams {
        thread_id: "thread-a".into(),
        turn_id: "turn-a".into(),
        item_id: "item-a".into(),
        is_blocking: true,
        auto_resolution_ms: Some(100),
        questions,
        compatibility: Vec::new(),
    }
}

fn message(id: RelayCodexRequestIdField, params: Option<Result<RelayCodexInputRequestParams, String>>) -> RelayCodexInputMessage {
    RelayCodexInputMessage {
        method: Some("item/tool/requestUserInput".into()),
        request_id: id,
        params,
    }
}

#[test]
fn request_id_and_question_ids_are_preserved_for_response() {
    let request = parse_request(message(
        RelayCodexRequestIdField::Valid(RelayCodexRequestId::Signed(42)),
        Some(Ok(params(vec![question("question-a")]))),
    ))
    .unwrap();
    let response = response_for(
        request.request_id,
        &RelayCodexInputSubmission { answers: vec![("question-a".into(), "".into())] },
    );
    assert_eq!(response.request_id, RelayCodexRequestId::Signed(42));
    assert_eq!(response.answers, vec![("question-a".to_string(), Vec::<String>::new())]);
}

#[test]
fn rejects_duplicate_or_missing_question_identity() {
    let mut blank = question("");
    blank.header = "".into();
    blank.question = "".into();
    let error = parse_request(message(
        RelayCodexRequestIdField::Valid(RelayCodexRequestId::Text("x".into())),
        Some(Ok(RelayCodexInputRequestParams {
            thread_id: "t".into(),
            turn_id: "u".into(),
            item_id: "i".into(),
            is_blocking: true,
            auto_resolution_ms: None,
            questions: vec![blank],
            compatibility: Vec::new(),
        })),
    ))
    .unwrap_err();
    assert!(error.contains("id") || error.contains("问题"), "{error}");
}

#[test]
fn each_refusal_has_its_reason() {
    let mut other_method = message(
        RelayCodexRequestIdField::Valid(RelayCodexRequestId::Signed(1)),
        Some(Ok(params(vec![question("q")]))),
    );
    other_method.method = Some("turn/started".into());
    assert_eq!(parse_request(other_method).unwrap_err(), "不是 Codex 人工输入请求。");

    assert_eq!(
        parse_request(message(RelayCodexRequestIdField::Missing, Some(Ok(params(vec![question("q")]))))).unwrap_err(),
        "Codex 输入请求缺少 JSON-RPC id。"
    );
    assert_eq!(
        parse_request(message(RelayCodexRequestIdField::Invalid, Some(Ok(params(vec![question("q")]))))).unwrap_err(),
        "Codex 输入请求的 JSON-RPC id 类型无效。"
    );
    assert_eq!(
        parse_request(message(RelayCodexRequestIdField::Valid(RelayCodexRequestId::Unsigned(u64::MAX)), None)).unwrap_err(),
        "Codex 输入请求缺少参数。"
    );
    assert_eq!(
        parse_request(message(
            RelayCodexRequestIdField::Valid(RelayCodexRequestId::Signed(1)),
            Some(Err("missing field `threadId`".into()))
        ))
        .unwrap_err(),
        "Codex 输入请求格式无效：missing field `threadId`"
    );
    assert_eq!(
        parse_request(message(RelayCodexRequestIdField::Valid(RelayCodexRequestId::Signed(1)), Some(Ok(params(vec![]))))).unwrap_err(),
        "Codex 输入请求必须包含带 id 的问题。"
    );
    assert_eq!(
        parse_request(message(
            RelayCodexRequestIdField::Valid(RelayCodexRequestId::Signed(1)),
            Some(Ok(params(vec![question("a"), question("b"), question("a")])))
        ))
        .unwrap_err(),
        "Codex 输入请求包含重复 question.id。"
    );
}

#[test]
fn a_valid_request_keeps_its_parameters() {
    let request = parse_request(message(
        RelayCodexRequestIdField::Valid(RelayCodexRequestId::Text("req-1".into())),
        Some(Ok(params(vec![question("a"), question("b")]))),
    ))
    .expect("valid");
    assert_eq!(request.request_id, RelayCodexRequestId::Text("req-1".into()));
    assert_eq!(request.params, params(vec![question("a"), question("b")]));
}

#[test]
fn answers_keep_their_order_and_drop_empty_text() {
    let response = response_for(
        RelayCodexRequestId::Text("r".into()),
        &RelayCodexInputSubmission {
            answers: vec![("b".into(), "是".into()), ("a".into(), "".into())],
        },
    );
    assert_eq!(
        response.answers,
        vec![("b".to_string(), vec!["是".to_string()]), ("a".to_string(), Vec::new())]
    );
}
