//! Laws that tie what each operation reads and answers to the shape of its
//! route: its method, the resource its path names, whether the path has an
//! `id`, and the path's last segment.

use vstd::prelude::*;

use crate::foreign::i64_literal;
use crate::operation::{IdKind, Method, Operation, QueryKind, Resource, ResponseVariant, Tail};
use crate::request::{
    body_reading, first_missing, first_value, query_arg, query_reading, BodyEvent, QueryArg,
};

verus! {

/// Whether `r` is one of the catalog's entity types.
pub open spec fn is_entity(r: Resource) -> bool {
    r == Resource::Container || r == Resource::Creator || r == Resource::File || r
        == Resource::Release || r == Resource::Work
}

/// Whether the operation creates something: a POST whose path has no `id`.
pub open spec fn creates(op: Operation) -> bool {
    op.method_of() == Method::Post && !op.pattern_of().with_id
}

/// Whether the operation takes a JSON body: it creates, or it is a PUT.
pub open spec fn takes_body(op: Operation) -> bool {
    creates(op) || op.method_of() == Method::Put
}

/// Whether the operation reads a history, or the changelog as a whole.
pub open spec fn reads_limit(op: Operation) -> bool {
    op.pattern_of().tail == Some(Tail::History) || (op.pattern_of().resource == Resource::Changelog
        && !op.pattern_of().with_id)
}

/// The `id` of a path is an integer for a changelog entry and text for
/// everything else; a path without `id` reads none.
pub proof fn law_id_kind_by_route(op: Operation)
    ensures
        op.id_kind_of() == if op.pattern_of().with_id {
            Some(
                if op.pattern_of().resource == Resource::Changelog {
                    IdKind::Integer
                } else {
                    IdKind::Text
                },
            )
        } else {
            None
        },
{
}

/// Exactly the operations that create or replace (POST without `id`, PUT)
/// take a JSON body, and it is required: `entity_list` (a list) for a batch,
/// `editgroup` for an editgroup, `entity` otherwise.
pub proof fn law_body_by_route(op: Operation)
    ensures
        op.body_of() == if takes_body(op) {
            Some(
                (
                    if op.pattern_of().tail == Some(Tail::Batch) {
                        "entity_list"@
                    } else if op.pattern_of().resource == Resource::Editgroup {
                        "editgroup"@
                    } else {
                        "entity"@
                    },
                    op.pattern_of().tail == Some(Tail::Batch),
                ),
            )
        } else {
            None
        },
{
}

/// An operation that takes a body rejects a request whose body is missing or
/// `null` with 400, naming the body parameter.
pub proof fn law_missing_body_rejected(op: Operation, body: BodyEvent)
    requires
        takes_body(op),
        body matches BodyEvent::Absent || body matches BodyEvent::Null,
    ensures
        body_reading(op, body) == Err::<Seq<Seq<char>>, (u16, Seq<char>)>(
            (400u16, "Missing required body parameter "@ + op.body_of().unwrap().0),
        ),
{
    law_body_by_route(op);
}

/// The key by which an entity is looked up.
pub open spec fn lookup_key(r: Resource) -> Seq<char> {
    if r == Resource::Container {
        "issnl"@
    } else if r == Resource::Creator {
        "orcid"@
    } else if r == Resource::File {
        "sha1"@
    } else {
        "doi"@
    }
}

/// The query parameters of each operation follow from its route: histories
/// and the changelog take an optional `limit` count; a lookup requires its
/// entity's key; a batch takes an optional `autoaccept` flag and `editgroup`;
/// any other create, update or delete of an entity takes an optional
/// `editgroup`; reading an entity takes an optional `expand`; the statistics
/// take an optional `more`; nothing else takes any.
pub proof fn law_query_by_route(op: Operation)
    ensures
        op.query_of() == if reads_limit(op) {
            seq![("limit"@, QueryKind::OptionalCount)]
        } else if op.pattern_of().tail == Some(Tail::Lookup) {
            seq![(lookup_key(op.pattern_of().resource), QueryKind::RequiredText)]
        } else if op.pattern_of().tail == Some(Tail::Batch) {
            seq![("autoaccept"@, QueryKind::OptionalFlag), ("editgroup"@, QueryKind::OptionalText)]
        } else if is_entity(op.pattern_of().resource) && (creates(op) || op.method_of()
            == Method::Put || op.method_of() == Method::Delete) {
            seq![("editgroup"@, QueryKind::OptionalText)]
        } else if is_entity(op.pattern_of().resource) && op.method_of() == Method::Get
            && op.pattern_of().with_id && op.pattern_of().tail is None {
            seq![("expand"@, QueryKind::OptionalText)]
        } else if op.pattern_of().resource == Resource::Stats {
            seq![("more"@, QueryKind::OptionalText)]
        } else {
            Seq::empty()
        },
{
}

/// A history or the changelog reads `limit=n`, with `n` a 64-bit integer, as
/// the count `n`, and a `limit` that is not one as absent.
pub proof fn law_limit_reads_as_count(op: Operation, pairs: Seq<(Seq<char>, Seq<char>)>)
    requires
        reads_limit(op),
    ensures
        query_reading(op.query_of(), pairs) == Ok::<Seq<Option<QueryArg>>, (u16, Seq<char>)>(
            seq![
                match first_value(pairs, "limit"@) {
                    Some(v) => match i64_literal(v) {
                        Some(n) => Some(QueryArg::Count(n)),
                        None => None,
                    },
                    None => None,
                },
            ],
        ),
{
    law_query_by_route(op);
    let params = op.query_of();
    assert(params.len() == 1);
    assert(params[0] == ("limit"@, QueryKind::OptionalCount));
    assert(params.drop_last().len() == 0);
    assert(first_missing(params.drop_last(), pairs) is None);
    assert(params.last() == params[0]);
    assert(first_missing(params, pairs) is None);
    let expected = match first_value(pairs, "limit"@) {
        Some(v) => match i64_literal(v) {
            Some(n) => Some(QueryArg::Count(n)),
            None => None,
        },
        None => None,
    };
    assert(query_arg(params[0].1, first_value(pairs, params[0].0)) == expected);
    assert(Seq::new(params.len(), |i: int| query_arg(params[i].1, first_value(pairs, params[i].0)))
        =~= seq![expected]);
}

/// The response by which an operation reports success, which follows from its
/// route.
pub open spec fn success_of(op: Operation) -> ResponseVariant {
    let p = op.pattern_of();
    if creates(op) && p.tail == Some(Tail::Batch) {
        ResponseVariant::CreatedEntities
    } else if creates(op) && p.resource == Resource::Editgroup {
        ResponseVariant::SuccessfullyCreated
    } else if creates(op) {
        ResponseVariant::CreatedEntity
    } else if op.method_of() == Method::Post {
        ResponseVariant::MergedSuccessfully
    } else if op.method_of() == Method::Put {
        ResponseVariant::UpdatedEntity
    } else if op.method_of() == Method::Delete {
        ResponseVariant::DeletedEntity
    } else if !p.with_id && p.tail is None {
        ResponseVariant::Success
    } else if p.tail == Some(Tail::History) {
        ResponseVariant::FoundEntityHistory
    } else if p.tail == Some(Tail::Lookup) || (p.tail is None && is_entity(p.resource)) {
        ResponseVariant::FoundEntity
    } else if p.resource == Resource::Changelog {
        ResponseVariant::FoundChangelogEntry
    } else {
        ResponseVariant::Found
    }
}

/// The responses of each operation follow from its route: first its success
/// response; then `BadRequest`, except for the statistics and the changelog;
/// then `NotFound`, except for the statistics, the whole changelog and
/// creating an editgroup; then `EditConflict` when accepting an editgroup;
/// and last `GenericError`.
pub proof fn law_responses_by_route(op: Operation)
    ensures
        op.responses_of() == seq![success_of(op)] + (if op.pattern_of().resource
            != Resource::Stats && op.pattern_of().resource != Resource::Changelog {
            seq![ResponseVariant::BadRequest]
        } else {
            Seq::empty()
        }) + (if op.pattern_of().resource != Resource::Stats && !(op.pattern_of().resource
            == Resource::Changelog && !op.pattern_of().with_id) && !(creates(op)
            && op.pattern_of().resource == Resource::Editgroup) {
            seq![ResponseVariant::NotFound]
        } else {
            Seq::empty()
        }) + (if op.method_of() == Method::Post && op.pattern_of().with_id {
            seq![ResponseVariant::EditConflict]
        } else {
            Seq::empty()
        }) + seq![ResponseVariant::GenericError],
{
    let bad = if op.pattern_of().resource != Resource::Stats && op.pattern_of().resource
        != Resource::Changelog {
        seq![ResponseVariant::BadRequest]
    } else {
        Seq::empty()
    };
    let nf = if op.pattern_of().resource != Resource::Stats && !(op.pattern_of().resource
        == Resource::Changelog && !op.pattern_of().with_id) && !(creates(op)
        && op.pattern_of().resource == Resource::Editgroup) {
        seq![ResponseVariant::NotFound]
    } else {
        Seq::empty()
    };
    let conflict = if op.method_of() == Method::Post && op.pattern_of().with_id {
        seq![ResponseVariant::EditConflict]
    } else {
        Seq::empty()
    };
    assert(op.responses_of() =~= seq![success_of(op)] + bad + nf + conflict + seq![
        ResponseVariant::GenericError,
    ]);
}

/// Responses that report success are sent with 201 where something was
/// created and 200 otherwise; the others with 400, 404, 409 or 500 as they
/// say: bad request, not found, edit conflict, generic error.
pub proof fn law_response_statuses(v: ResponseVariant)
    ensures
        v.status_of() == match v {
            ResponseVariant::CreatedEntity => 201u16,
            ResponseVariant::CreatedEntities => 201u16,
            ResponseVariant::SuccessfullyCreated => 201u16,
            ResponseVariant::BadRequest => 400u16,
            ResponseVariant::NotFound => 404u16,
            ResponseVariant::EditConflict => 409u16,
            ResponseVariant::GenericError => 500u16,
            _ => 200u16,
        },
{
}

/// Every operation offers its success response, sent with 201 where the
/// operation creates and 200 otherwise, and every other response it offers is
/// an error, sent with a 4xx or 5xx status.
pub proof fn law_success_first(op: Operation)
    ensures
        op.offers(success_of(op)),
        op.responses_of()[0] == success_of(op),
        success_of(op).status_of() == if creates(op) {
            201u16
        } else {
            200u16
        },
        forall|i: int|
            0 < i < op.responses_of().len() ==> 400 <= (#[trigger] op.responses_of()[i]).status_of()
                < 600,
{
    law_responses_by_route(op);
    assert(op.responses_of()[0] == success_of(op));
}

} // verus!
