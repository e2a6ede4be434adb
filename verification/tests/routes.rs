use std::collections::HashSet;

use fatcat_api_spec::middleware::ExtractAuthData;
use fatcat_api_spec::operation::{IdKind, Method, Operation, QueryKind, ResponseVariant};

#[test]
fn route_table_has_every_operation_once() {
    let all = Operation::all();
    assert_eq!(all.len(), 45);
    let distinct: HashSet<String> = all.iter().map(|op| format!("{:?}", op)).collect();
    assert_eq!(distinct.len(), 45);
}

#[test]
fn routes_are_distinct() {
    let mut seen = HashSet::new();
    for op in Operation::all() {
        let key = (format!("{:?}", op.method()), op.pattern().text());
        assert!(seen.insert(key), "route given twice: {:?}", op);
    }
}

#[test]
fn route_names_are_distinct() {
    let mut seen = HashSet::new();
    for op in Operation::all() {
        assert!(seen.insert(op.route_id()));
        assert_eq!(op.route_id(), format!("{:?}", op));
    }
}

#[test]
fn path_texts() {
    assert_eq!(Operation::CreateContainer.pattern().text(), "/v0/container");
    assert_eq!(Operation::CreateContainerBatch.pattern().text(), "/v0/container/batch");
    assert_eq!(Operation::GetContainer.pattern().text(), "/v0/container/:id");
    assert_eq!(Operation::GetCreatorReleases.pattern().text(), "/v0/creator/:id/releases");
    assert_eq!(Operation::AcceptEditgroup.pattern().text(), "/v0/editgroup/:id/accept");
    assert_eq!(Operation::GetStats.pattern().text(), "/v0/stats");
    assert_eq!(Operation::GetChangelogEntry.pattern().text(), "/v0/changelog/:id");
    assert_eq!(Operation::LookupRelease.pattern().text(), "/v0/release/lookup");
    assert_eq!(Operation::GetEditorChangelog.pattern().text(), "/v0/editor/:id/changelog");
}

#[test]
fn methods() {
    assert_eq!(Operation::CreateWork.method(), Method::Post);
    assert_eq!(Operation::DeleteFile.method(), Method::Delete);
    assert_eq!(Operation::UpdateRelease.method(), Method::Put);
    assert_eq!(Operation::GetWorkReleases.method(), Method::Get);
}

#[test]
fn id_segment_iff_id_parameter() {
    for op in Operation::all() {
        assert_eq!(op.pattern().with_id, op.id_kind().is_some(), "{:?}", op);
    }
    assert_eq!(Operation::GetChangelogEntry.id_kind(), Some(IdKind::Integer));
    assert_eq!(Operation::GetEditgroup.id_kind(), Some(IdKind::Text));
    assert_eq!(Operation::GetChangelog.id_kind(), None);
}

#[test]
fn parameters_of_operations() {
    let q = Operation::CreateFileBatch.query_params();
    assert_eq!(q.len(), 2);
    assert_eq!(q[0].name, "autoaccept");
    assert_eq!(q[0].kind, QueryKind::OptionalFlag);
    assert_eq!(q[1].name, "editgroup");
    assert_eq!(q[1].kind, QueryKind::OptionalText);
    let lookup = Operation::LookupCreator.query_params();
    assert_eq!(lookup.len(), 1);
    assert_eq!(lookup[0].name, "orcid");
    assert_eq!(lookup[0].kind, QueryKind::RequiredText);
    let body = Operation::CreateEditgroup.body_param().unwrap();
    assert_eq!(body.name, "editgroup");
    assert!(!body.list);
    let list = Operation::CreateReleaseBatch.body_param().unwrap();
    assert_eq!(list.name, "entity_list");
    assert!(list.list);
    assert!(Operation::GetRelease.body_param().is_none());
}

#[test]
fn response_statuses() {
    assert_eq!(ResponseVariant::CreatedEntity.status(), 201);
    assert_eq!(ResponseVariant::CreatedEntities.status(), 201);
    assert_eq!(ResponseVariant::SuccessfullyCreated.status(), 201);
    assert_eq!(ResponseVariant::FoundEntity.status(), 200);
    assert_eq!(ResponseVariant::MergedSuccessfully.status(), 200);
    assert_eq!(ResponseVariant::BadRequest.status(), 400);
    assert_eq!(ResponseVariant::NotFound.status(), 404);
    assert_eq!(ResponseVariant::EditConflict.status(), 409);
    assert_eq!(ResponseVariant::GenericError.status(), 500);
}

#[test]
fn responses_offered() {
    assert!(Operation::AcceptEditgroup.offers_variant(ResponseVariant::EditConflict));
    assert!(!Operation::GetContainer.offers_variant(ResponseVariant::EditConflict));
    assert!(!Operation::GetStats.offers_variant(ResponseVariant::NotFound));
    assert!(Operation::GetChangelogEntry.offers_variant(ResponseVariant::FoundChangelogEntry));
    assert!(!Operation::GetChangelogEntry.offers_variant(ResponseVariant::BadRequest));
    for op in Operation::all() {
        assert!(op.offers_variant(ResponseVariant::GenericError));
    }
}

#[test]
fn auth_middleware_lets_requests_through() {
    assert!(ExtractAuthData.before().is_ok());
}
