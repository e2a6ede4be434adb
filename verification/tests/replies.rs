use fatcat_api_spec::operation::{Operation, ResponseVariant};
use fatcat_api_spec::request::{internal_error, read_request, BodyOutcome};
use fatcat_api_spec::response::{
    reject, respond, span_header, span_id, unknown_fields_warning, ApiOutcome,
};

#[test]
fn span_id_from_header() {
    assert_eq!(span_id(Some("abc-123".to_string())), "abc-123");
}

#[test]
fn fresh_span_id_is_a_v4_uuid() {
    let s = span_id(None);
    assert_eq!(s.len(), 36);
    for (i, c) in s.chars().enumerate() {
        if i == 8 || i == 13 || i == 18 || i == 23 {
            assert_eq!(c, '-');
        } else {
            assert!(c.is_ascii_hexdigit() && !c.is_ascii_uppercase(), "{}", s);
        }
    }
    assert_eq!(s.chars().nth(14), Some('4'));
    assert_ne!(span_id(None), s);
}

#[test]
fn answered_response() {
    let call = read_request(Operation::CreateContainer, None, None, BodyOutcome::Parsed(vec![])).unwrap();
    let reply = respond(
        &call,
        "span".to_string(),
        ApiOutcome::Answered(ResponseVariant::CreatedEntity, "{\"ident\":\"x\"}".to_string()),
    );
    assert_eq!(reply.status, 201);
    assert_eq!(reply.content_type, Some("application/json".to_string()));
    assert_eq!(reply.body, "{\"ident\":\"x\"}");
    assert_eq!(reply.span_id, "span");
    assert_eq!(reply.warning, None);
}

#[test]
fn warning_names_unknown_fields() {
    let call = read_request(
        Operation::UpdateCreator,
        Some(Some("c1")),
        None,
        BodyOutcome::Parsed(vec!["extra".to_string(), "deep.\"q\"".to_string()]),
    )
    .unwrap();
    let reply = respond(
        &call,
        "s".to_string(),
        ApiOutcome::Answered(ResponseVariant::NotFound, "{}".to_string()),
    );
    assert_eq!(reply.status, 404);
    assert_eq!(
        reply.warning,
        Some("Ignoring unknown fields in body: [\"extra\", \"deep.\\\"q\\\"\"]".to_string())
    );
}

#[test]
fn conflict_response() {
    let call = read_request(Operation::AcceptEditgroup, Some(Some("eg")), None, BodyOutcome::Absent).unwrap();
    let reply = respond(
        &call,
        "s".to_string(),
        ApiOutcome::Answered(ResponseVariant::EditConflict, "{\"message\":\"c\"}".to_string()),
    );
    assert_eq!(reply.status, 409);
    assert_eq!(reply.warning, None);
}

#[test]
fn failure_is_internal_error() {
    let call = read_request(Operation::GetStats, None, Some("more=1"), BodyOutcome::Absent).unwrap();
    let reply = respond(&call, "sp".to_string(), ApiOutcome::Failed);
    assert_eq!(reply.status, 500);
    assert_eq!(reply.body, "An internal error occurred");
    assert_eq!(reply.content_type, None);
    assert_eq!(reply.span_id, "sp");
    assert_eq!(reply.warning, None);
}

#[test]
fn rejected_request_carries_span() {
    let rejection = read_request(Operation::GetFile, Some(None), None, BodyOutcome::Absent).unwrap_err();
    let reply = reject("sp2".to_string(), rejection);
    assert_eq!(reply.status, 400);
    assert_eq!(reply.body, "Missing path parameter id");
    assert_eq!(reply.span_id, "sp2");
    assert_eq!(reply.content_type, None);
    assert_eq!(reply.warning, None);
    let internal = reject("sp3".to_string(), internal_error());
    assert_eq!(internal.status, 500);
    assert_eq!(internal.span_id, "sp3");
}

#[test]
fn warning_text_from_listing() {
    assert_eq!(
        unknown_fields_warning("[\"a\"]".to_string()),
        "Ignoring unknown fields in body: [\"a\"]"
    );
}

#[test]
fn span_header_lines() {
    assert_eq!(span_header(&vec![b"abc".to_vec()]), Some("abc".to_string()));
    assert_eq!(span_header(&vec![]), None);
    assert_eq!(span_header(&vec![b"".to_vec()]), None);
    assert_eq!(span_header(&vec![b"a".to_vec(), b"b".to_vec()]), None);
    assert_eq!(span_header(&vec![vec![0xff, 0x41]]), None);
    assert_eq!(span_header(&vec!["é".as_bytes().to_vec()]), Some("é".to_string()));
}
