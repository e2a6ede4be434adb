use fatcat_api_spec::operation::Operation;
use fatcat_api_spec::percent::percent_decode;
use fatcat_api_spec::request::{
    lookup, read_body, read_path, read_query, read_request, BodyOutcome, PathId, QueryValue,
};

fn rejection_of<T: std::fmt::Debug>(r: Result<T, fatcat_api_spec::request::Rejection>) -> (u16, String) {
    let e = r.unwrap_err();
    (e.status, e.message)
}

#[test]
fn percent_decoding() {
    assert_eq!(percent_decode(b"%41%42c"), b"ABc".to_vec());
    assert_eq!(percent_decode(b"%4"), b"%4".to_vec());
    assert_eq!(percent_decode(b"%%41"), b"%A".to_vec());
    assert_eq!(percent_decode(b"%zz%2f%2F"), b"%zz//".to_vec());
    assert_eq!(percent_decode(b"plain"), b"plain".to_vec());
    assert_eq!(percent_decode(b""), Vec::<u8>::new());
}

#[test]
fn text_id_is_percent_decoded() {
    let r = read_path(Operation::GetContainer, Some(Some("abc%20def")));
    assert_eq!(r.unwrap(), Some(PathId::Text("abc def".to_string())));
    let r = read_path(Operation::GetCreator, Some(Some("%C3%A9t%C3%A9")));
    assert_eq!(r.unwrap(), Some(PathId::Text("été".to_string())));
}

#[test]
fn plain_id_reads_verbatim() {
    let r = read_path(Operation::GetWork, Some(Some("aaaaaaaaaaaaavkvaaaaaaaaai")));
    assert_eq!(r.unwrap(), Some(PathId::Text("aaaaaaaaaaaaavkvaaaaaaaaai".to_string())));
    let r = read_path(Operation::GetChangelogEntry, Some(Some("123")));
    assert_eq!(r.unwrap(), Some(PathId::Number(123)));
}

#[test]
fn invalid_escape_is_kept() {
    let r = read_path(Operation::GetFile, Some(Some("50%zz")));
    assert_eq!(r.unwrap(), Some(PathId::Text("50%zz".to_string())));
}

#[test]
fn id_that_is_not_utf8() {
    let r = read_path(Operation::GetFile, Some(Some("%FF")));
    assert_eq!(
        rejection_of(r),
        (400, "Couldn't percent-decode path parameter as UTF-8: %FF".to_string())
    );
}

#[test]
fn missing_id() {
    let r = read_path(Operation::DeleteWork, Some(None));
    assert_eq!(rejection_of(r), (400, "Missing path parameter id".to_string()));
}

#[test]
fn router_recorded_nothing() {
    let r = read_path(Operation::DeleteWork, None);
    assert_eq!(rejection_of(r), (500, "An internal error occurred".to_string()));
}

#[test]
fn no_id_no_router() {
    assert_eq!(read_path(Operation::GetStats, None).unwrap(), None);
    assert_eq!(read_path(Operation::CreateWork, Some(Some("x"))).unwrap(), None);
}

#[test]
fn integer_ids() {
    let r = read_path(Operation::GetChangelogEntry, Some(Some("-17")));
    assert_eq!(r.unwrap(), Some(PathId::Number(-17)));
    let r = read_path(Operation::GetChangelogEntry, Some(Some("%2B8")));
    assert_eq!(r.unwrap(), Some(PathId::Number(8)));
    let r = read_path(Operation::GetChangelogEntry, Some(Some("9223372036854775807")));
    assert_eq!(r.unwrap(), Some(PathId::Number(i64::MAX)));
    let r = read_path(Operation::GetChangelogEntry, Some(Some("x1")));
    assert_eq!(
        rejection_of(r),
        (400, "Couldn't parse path parameter id: invalid digit found in string".to_string())
    );
    let r = read_path(Operation::GetChangelogEntry, Some(Some("9223372036854775808")));
    assert_eq!(
        rejection_of(r),
        (400, "Couldn't parse path parameter id: number too large to fit in target type".to_string())
    );
}

#[test]
fn lookup_takes_first_value() {
    let pairs = vec![
        ("a".to_string(), "1".to_string()),
        ("b".to_string(), "2".to_string()),
        ("a".to_string(), "3".to_string()),
    ];
    assert_eq!(lookup(&pairs, "a"), Some("1".to_string()));
    assert_eq!(lookup(&pairs, "b"), Some("2".to_string()));
    assert_eq!(lookup(&pairs, "c"), None);
}

#[test]
fn optional_query_values() {
    let q = read_query(Operation::GetContainerHistory, Some("limit=5")).unwrap();
    assert_eq!(q, vec![Some(QueryValue::Count(5))]);
    let q = read_query(Operation::GetContainerHistory, Some("limit=five")).unwrap();
    assert_eq!(q, vec![None]);
    let q = read_query(Operation::GetContainerHistory, None).unwrap();
    assert_eq!(q, vec![None]);
    let q = read_query(Operation::GetContainerHistory, Some("")).unwrap();
    assert_eq!(q, vec![None]);
}

#[test]
fn optional_query_never_rejects() {
    for query in ["", "&&", "limit", "limit=", "limit=%FF", "autoaccept=maybe", "x=1&y"] {
        for op in Operation::all() {
            let required = op
                .query_params()
                .iter()
                .any(|p| p.kind == fatcat_api_spec::operation::QueryKind::RequiredText);
            if !required {
                assert!(read_query(op, Some(query)).is_ok(), "{:?} {}", op, query);
            }
        }
    }
}

#[test]
fn flags_and_texts() {
    let q = read_query(Operation::CreateWorkBatch, Some("autoaccept=true&editgroup=eg%201")).unwrap();
    assert_eq!(q, vec![Some(QueryValue::Flag(true)), Some(QueryValue::Text("eg 1".to_string()))]);
    let q = read_query(Operation::CreateWorkBatch, Some("autoaccept=yes&editgroup=a+b")).unwrap();
    assert_eq!(q, vec![None, Some(QueryValue::Text("a b".to_string()))]);
    let q = read_query(Operation::CreateWorkBatch, Some("autoaccept=false&editgroup=x&editgroup=y")).unwrap();
    assert_eq!(q, vec![Some(QueryValue::Flag(false)), Some(QueryValue::Text("x".to_string()))]);
}

#[test]
fn required_query_value() {
    let q = read_query(Operation::LookupContainer, Some("issnl=1234-5678")).unwrap();
    assert_eq!(q, vec![Some(QueryValue::Text("1234-5678".to_string()))]);
    let q = read_query(Operation::LookupFile, Some("sha1="));
    assert_eq!(q.unwrap(), vec![Some(QueryValue::Text(String::new()))]);
    let r = read_query(Operation::LookupContainer, Some("issn=1234-5678"));
    assert_eq!(rejection_of(r), (400, "Missing required query parameter issnl".to_string()));
    let r = read_query(Operation::LookupRelease, None);
    assert_eq!(rejection_of(r), (400, "Missing required query parameter doi".to_string()));
}

#[test]
fn body_outcomes() {
    let r = read_body(Operation::CreateContainer, BodyOutcome::Absent);
    assert_eq!(rejection_of(r), (400, "Missing required body parameter entity".to_string()));
    let r = read_body(Operation::CreateContainerBatch, BodyOutcome::Null);
    assert_eq!(rejection_of(r), (400, "Missing required body parameter entity_list".to_string()));
    let r = read_body(Operation::CreateEditgroup, BodyOutcome::Unreadable("bad".to_string()));
    assert_eq!(
        rejection_of(r),
        (400, "Couldn't parse body parameter editgroup - not valid UTF-8: bad".to_string())
    );
    let r = read_body(Operation::UpdateWork, BodyOutcome::Malformed("expected `{`".to_string()));
    assert_eq!(
        rejection_of(r),
        (400, "Couldn't parse body parameter entity - doesn't match schema: expected `{`".to_string())
    );
    let r = read_body(Operation::UpdateWork, BodyOutcome::Parsed(vec!["extra".to_string()]));
    assert_eq!(r.unwrap(), vec!["extra".to_string()]);
    let r = read_body(Operation::GetWork, BodyOutcome::Absent);
    assert_eq!(r.unwrap(), Vec::<String>::new());
}

#[test]
fn request_reading_order() {
    let r = read_request(Operation::UpdateFile, Some(None), Some("editgroup=x"), BodyOutcome::Absent);
    assert_eq!(rejection_of(r), (400, "Missing path parameter id".to_string()));
    let r = read_request(Operation::LookupFile, None, None, BodyOutcome::Absent);
    assert_eq!(rejection_of(r), (400, "Missing required query parameter sha1".to_string()));
    let r = read_request(Operation::UpdateFile, Some(Some("f1")), Some("editgroup=x"), BodyOutcome::Absent);
    assert_eq!(rejection_of(r), (400, "Missing required body parameter entity".to_string()));
    let call = read_request(
        Operation::UpdateFile,
        Some(Some("f1")),
        Some("editgroup=x"),
        BodyOutcome::Parsed(vec![]),
    )
    .unwrap();
    assert_eq!(call.operation, Operation::UpdateFile);
    assert_eq!(call.id, Some(PathId::Text("f1".to_string())));
    assert_eq!(call.query, vec![Some(QueryValue::Text("x".to_string()))]);
    assert!(call.unused_fields.is_empty());
}

#[test]
fn rejections_are_400_or_500() {
    let cases = [
        read_request(Operation::GetFile, None, None, BodyOutcome::Absent),
        read_request(Operation::GetFile, Some(None), None, BodyOutcome::Absent),
        read_request(Operation::GetChangelogEntry, Some(Some("a")), None, BodyOutcome::Absent),
        read_request(Operation::CreateFile, None, None, BodyOutcome::Null),
    ];
    let statuses: Vec<u16> = cases.into_iter().map(|r| r.unwrap_err().status).collect();
    assert_eq!(statuses, vec![500, 400, 400, 400]);
}

#[test]
fn integer_id_from_parse_outcome() {
    assert_eq!(fatcat_api_spec::request::integer_id(Ok(7)).unwrap(), PathId::Number(7));
    assert_eq!(
        rejection_of(fatcat_api_spec::request::integer_id(Err("oops".to_string()))),
        (400, "Couldn't parse path parameter id: oops".to_string())
    );
}

#[test]
fn read_request_shape() {
    let call = read_request(Operation::GetStats, Some(Some("ignored")), None, BodyOutcome::Absent).unwrap();
    assert_eq!(call.operation, Operation::GetStats);
    assert_eq!(call.id, None);
    assert_eq!(call.query, vec![None]);
    let call = read_request(Operation::GetEditor, Some(Some("e1")), Some("x=1"), BodyOutcome::Absent).unwrap();
    assert_eq!(call.id, Some(PathId::Text("e1".to_string())));
    assert!(call.query.is_empty());
}
