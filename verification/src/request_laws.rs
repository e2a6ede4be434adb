//! Laws of reading requests and of the answers sent.

use vstd::prelude::*;
use vstd::utf8::{
    char_u32_cast, decode_utf8, encode_scalar, encode_utf8, encode_utf8_decode_utf8,
    encode_utf8_valid_utf8, valid_utf8,
};

use crate::foreign::{debug_list_text, i64_literal, integer_error_text};
use crate::operation::{IdKind, Operation, QueryKind, ResponseVariant, Tail};
use crate::percent::{lemma_decode_without_escapes, percent_decoded};
use crate::request::{
    body_reading, first_missing, first_value, id_reading, internal_error_text, path_reading,
    query_arg, query_reading, request_reading, BodyEvent, CallView, IdValue, QueryArg,
};
use crate::response::{outcome_reply, rejection_reply, OutcomeView, ReplyView};
use crate::table_laws::{
    law_body_by_route, law_id_kind_by_route, law_query_by_route, lookup_key, takes_body,
};

verus! {

/// The UTF-8 encoding of a scalar other than `%` holds no `%` byte.
proof fn lemma_scalar_without_percent(c: u32)
    requires
        c != 37,
    ensures
        forall|i: int| 0 <= i < encode_scalar(c).len() ==> encode_scalar(c)[i] != 37,
{
    assert(c <= 0x7F && c != 37 ==> (c & 0x7F) as u8 != 37u8) by (bit_vector);
    assert(((0xC0u8 | ((c >> 6) & 0x1F) as u8) != 37u8)) by (bit_vector);
    assert(((0xE0u8 | ((c >> 12) & 0x0F) as u8) != 37u8)) by (bit_vector);
    assert(((0xF0u8 | ((c >> 18) & 0x7) as u8) != 37u8)) by (bit_vector);
    assert(((0x80u8 | (c & 0x3F) as u8) != 37u8)) by (bit_vector);
    assert(((0x80u8 | ((c >> 6) & 0x3F) as u8) != 37u8)) by (bit_vector);
    assert(((0x80u8 | ((c >> 12) & 0x3F) as u8) != 37u8)) by (bit_vector);
}

/// Text without `%` encodes to bytes without `%`.
proof fn lemma_text_without_percent(s: Seq<char>)
    requires
        forall|i: int| 0 <= i < s.len() ==> s[i] != '%',
    ensures
        forall|i: int| 0 <= i < encode_utf8(s).len() ==> encode_utf8(s)[i] != 37,
    decreases s.len(),
{
    if s.len() > 0 {
        let head = encode_scalar(s[0] as u32);
        let rest = s.drop_first();
        if (s[0] as u32) == 37 {
            char_u32_cast(s[0], 37u32);
            char_u32_cast('%', 37u32);
        }
        lemma_scalar_without_percent(s[0] as u32);
        lemma_text_without_percent(rest);
        let all = encode_utf8(s);
        assert(all == head + encode_utf8(rest));
        assert forall|i: int| 0 <= i < all.len() implies all[i] != 37 by {
            if i < head.len() {
                assert(all[i] == head[i]);
            } else {
                assert(all[i] == encode_utf8(rest)[i - head.len()]);
            }
        }
    }
}

/// A path parameter without `%` reads as itself: for a text `id`, the very
/// text the router found.
pub proof fn law_plain_id_reads_verbatim(raw: Seq<char>)
    requires
        forall|i: int| 0 <= i < raw.len() ==> raw[i] != '%',
    ensures
        id_reading(IdKind::Text, raw) == Ok::<IdValue, (u16, Seq<char>)>(IdValue::Text(raw)),
        i64_literal(raw) matches Some(v) ==> id_reading(IdKind::Integer, raw) == Ok::<
            IdValue,
            (u16, Seq<char>),
        >(IdValue::Number(v)),
{
    lemma_text_without_percent(raw);
    lemma_decode_without_escapes(encode_utf8(raw));
    encode_utf8_valid_utf8(raw);
    encode_utf8_decode_utf8(raw);
}

/// Optional query parameters never get a request rejected: whatever the
/// query holds, values that do not parse are read as absent.
pub proof fn law_optional_query_never_rejects(
    params: Seq<(Seq<char>, QueryKind)>,
    pairs: Seq<(Seq<char>, Seq<char>)>,
)
    requires
        forall|i: int| 0 <= i < params.len() ==> params[i].1 != QueryKind::RequiredText,
    ensures
        query_reading(params, pairs) is Ok,
    decreases params.len(),
{
    lemma_no_required_none_missing(params, pairs);
}

proof fn lemma_no_required_none_missing(
    params: Seq<(Seq<char>, QueryKind)>,
    pairs: Seq<(Seq<char>, Seq<char>)>,
)
    requires
        forall|i: int| 0 <= i < params.len() ==> params[i].1 != QueryKind::RequiredText,
    ensures
        first_missing(params, pairs) is None,
    decreases params.len(),
{
    if params.len() > 0 {
        let front = params.drop_last();
        assert forall|i: int| 0 <= i < front.len() implies front[i].1 != QueryKind::RequiredText by {
            assert(front[i] == params[i]);
        }
        lemma_no_required_none_missing(front, pairs);
        assert(params.last() == params[params.len() - 1]);
    }
}

/// A request that cannot be read is answered 400, or 500 where the router
/// recorded no parameters at all.
pub proof fn law_rejections_are_400_or_500(
    op: Operation,
    params: Option<Option<Seq<char>>>,
    query: Option<Seq<char>>,
    body: BodyEvent,
)
    ensures
        request_reading(op, params, query, body) matches Err(e) ==> (e.0 == 400 || (e.0 == 500
            && e.1 == internal_error_text() && params is None && op.id_kind_of() is Some)),
{
}

/// Every answer carries the request's span id in its `X-Span-ID` header.
pub proof fn law_every_reply_carries_the_span(
    call: CallView,
    span: Seq<char>,
    outcome: OutcomeView,
    rejection: (u16, Seq<char>),
)
    ensures
        outcome_reply(call, span, outcome).span_id == span,
        rejection_reply(span, rejection).span_id == span,
{
}

/// An implementation that fails is answered 500 with a plain message, never
/// with whatever it may have meant to send.
pub proof fn law_failure_is_internal_error(call: CallView, span: Seq<char>)
    ensures
        outcome_reply(call, span, OutcomeView::Failed) == (ReplyView {
            status: 500u16,
            content_type: None,
            body: "An internal error occurred"@,
            span_id: span,
            warning: None,
        }),
{
}

/// Only an operation that takes a body can answer with a `Warning` header,
/// and then only when the body had fields that its schema does not know.
pub proof fn law_warning_only_for_unknown_body_fields(
    op: Operation,
    params: Option<Option<Seq<char>>>,
    query: Option<Seq<char>>,
    body: BodyEvent,
    span: Seq<char>,
    outcome: OutcomeView,
)
    requires
        request_reading(op, params, query, body) is Ok,
    ensures
        ({
            let call = request_reading(op, params, query, body)->Ok_0;
            outcome_reply(call, span, outcome).warning is Some ==> op.body_of() is Some
                && call.unused_fields.len() > 0 && body matches BodyEvent::Parsed(_)
        }),
{
}

/// An operation without an `id` in its path never consults the router's
/// parameters.
pub proof fn law_no_id_no_router(op: Operation, params: Option<Option<Seq<char>>>)
    requires
        op.id_kind_of() is None,
    ensures
        path_reading(op, params) == Ok::<Option<IdValue>, (u16, Seq<char>)>(None),
{
}

/// A request that is read carries an `id` exactly when its operation's path
/// has one, and one value slot for each of the operation's query parameters,
/// in order.
pub proof fn law_read_request_shape(
    op: Operation,
    params: Option<Option<Seq<char>>>,
    query: Option<Seq<char>>,
    body: BodyEvent,
)
    requires
        request_reading(op, params, query, body) is Ok,
    ensures
        ({
            let call = request_reading(op, params, query, body)->Ok_0;
            &&& call.operation == op
            &&& (call.id is Some <==> op.id_kind_of() is Some)
            &&& call.query.len() == op.query_of().len()
        }),
{
}

/// The value read for a query name is the value of the first pair with that
/// name, and there is none exactly when no pair has the name.
pub proof fn law_first_value_is_first_given(
    pairs: Seq<(Seq<char>, Seq<char>)>,
    name: Seq<char>,
)
    ensures
        first_value(pairs, name) is None <==> forall|i: int|
            0 <= i < pairs.len() ==> (#[trigger] pairs[i]).0 != name,
        first_value(pairs, name) matches Some(v) ==> exists|i: int|
            0 <= i < pairs.len() && #[trigger] pairs[i] == (name, v) && forall|j: int|
                0 <= j < i ==> (#[trigger] pairs[j]).0 != name,
    decreases pairs.len(),
{
    if pairs.len() > 0 {
        let rest = pairs.drop_first();
        law_first_value_is_first_given(rest, name);
        if pairs[0].0 == name {
            assert(pairs[0] == (name, pairs[0].1));
        } else {
            assert forall|i: int| 0 <= i < rest.len() implies #[trigger] rest[i] == pairs[i + 1] by {}
            if first_value(rest, name) is None {
                assert forall|i: int| 0 <= i < pairs.len() implies (#[trigger] pairs[i]).0 != name by {
                    if i > 0 {
                        assert(pairs[i] == rest[i - 1]);
                    }
                }
            } else {
                let v = first_value(rest, name)->Some_0;
                let k = choose|k: int|
                    0 <= k < rest.len() && #[trigger] rest[k] == (name, v) && forall|j: int|
                        0 <= j < k ==> (#[trigger] rest[j]).0 != name;
                assert(pairs[k + 1] == (name, v));
                assert forall|j: int| 0 <= j < k + 1 implies (#[trigger] pairs[j]).0 != name by {
                    if j > 0 {
                        assert(pairs[j] == rest[j - 1]);
                    }
                }
                assert(rest[k] == pairs[k + 1]);
            }
        }
    }
}

/// A lookup requires its one query parameter: without it the request is
/// rejected with 400 naming it, with it the parameter's first value is read.
pub proof fn law_lookup_requires_its_key(op: Operation, pairs: Seq<(Seq<char>, Seq<char>)>)
    requires
        op.pattern_of().tail == Some(Tail::Lookup),
    ensures
        ({
            let key = lookup_key(op.pattern_of().resource);
            query_reading(op.query_of(), pairs) == match first_value(pairs, key) {
                None => Err::<Seq<Option<QueryArg>>, (u16, Seq<char>)>(
                    (400u16, "Missing required query parameter "@ + key),
                ),
                Some(v) => Ok(seq![Some(QueryArg::Text(v))]),
            }
        }),
{
    law_query_by_route(op);
    let params = op.query_of();
    assert(params.drop_last().len() == 0);
    assert(first_missing(params.drop_last(), pairs) is None);
    assert(params.last() == params[0]);
    let key = lookup_key(op.pattern_of().resource);
    if let Some(v) = first_value(pairs, key) {
        assert(Seq::new(params.len(), |i: int| query_arg(params[i].1, first_value(pairs, params[i].0)))
            =~= seq![Some(QueryArg::Text(v))]);
    }
}

/// The flag a query value gives: `true` or `false`, and nothing otherwise.
pub open spec fn given_flag(value: Option<Seq<char>>) -> Option<QueryArg> {
    match value {
        Some(v) => if v == "true"@ {
            Some(QueryArg::Flag(true))
        } else if v == "false"@ {
            Some(QueryArg::Flag(false))
        } else {
            None
        },
        None => None,
    }
}

/// The text a query value gives.
pub open spec fn given_text(value: Option<Seq<char>>) -> Option<QueryArg> {
    match value {
        Some(v) => Some(QueryArg::Text(v)),
        None => None,
    }
}

/// A batch reads `autoaccept` as a flag, absent unless its first value is
/// `true` or `false`, and `editgroup` as its first value.
pub proof fn law_batch_query(op: Operation, pairs: Seq<(Seq<char>, Seq<char>)>)
    requires
        op.pattern_of().tail == Some(Tail::Batch),
    ensures
        query_reading(op.query_of(), pairs) == Ok::<Seq<Option<QueryArg>>, (u16, Seq<char>)>(
            seq![
                given_flag(first_value(pairs, "autoaccept"@)),
                given_text(first_value(pairs, "editgroup"@)),
            ],
        ),
{
    law_query_by_route(op);
    let params = op.query_of();
    assert(params.drop_last() =~= seq![("autoaccept"@, QueryKind::OptionalFlag)]);
    assert(params.drop_last().drop_last().len() == 0);
    assert(first_missing(params.drop_last().drop_last(), pairs) is None);
    assert(first_missing(params.drop_last(), pairs) is None);
    assert(first_missing(params, pairs) is None);
    let flag = given_flag(first_value(pairs, "autoaccept"@));
    let text = given_text(first_value(pairs, "editgroup"@));
    assert(query_arg(QueryKind::OptionalFlag, first_value(pairs, "autoaccept"@)) == flag);
    assert(query_arg(QueryKind::OptionalText, first_value(pairs, "editgroup"@)) == text);
    assert(Seq::new(params.len(), |i: int| query_arg(params[i].1, first_value(pairs, params[i].0)))
        =~= seq![flag, text]);
}

/// An operation with an `id` in its path answers 500 where the router
/// recorded nothing, and 400 where it found no `id`.
pub proof fn law_path_rejections(op: Operation)
    requires
        op.pattern_of().with_id,
    ensures
        path_reading(op, None) == Err::<Option<IdValue>, (u16, Seq<char>)>(
            (500u16, "An internal error occurred"@),
        ),
        path_reading(op, Some(None)) == Err::<Option<IdValue>, (u16, Seq<char>)>(
            (400u16, "Missing path parameter id"@),
        ),
{
    law_id_kind_by_route(op);
}

/// An operation without a body accepts whatever became of the body; one with
/// a body passes on the unknown fields of a body that was read, and rejects a
/// body that could not be read or does not match with 400, naming the body
/// parameter and ending with the error's own text.
pub proof fn law_body_outcomes(op: Operation, body: BodyEvent)
    ensures
        !takes_body(op) ==> body_reading(op, body) == Ok::<Seq<Seq<char>>, (u16, Seq<char>)>(
            Seq::empty(),
        ),
        takes_body(op) ==> match body {
            BodyEvent::Parsed(unused) => body_reading(op, body) == Ok::<
                Seq<Seq<char>>,
                (u16, Seq<char>),
            >(unused),
            BodyEvent::Unreadable(e) => body_reading(op, body) matches Err(r) && r.0 == 400
                && r.1.len() >= e.len() && r.1.subrange(r.1.len() - e.len(), r.1.len() as int) == e
                && r.1.subrange(0, 30) == "Couldn't parse body parameter "@,
            BodyEvent::Malformed(e) => body_reading(op, body) matches Err(r) && r.0 == 400
                && r.1.len() >= e.len() && r.1.subrange(r.1.len() - e.len(), r.1.len() as int) == e
                && r.1.subrange(0, 30) == "Couldn't parse body parameter "@,
            _ => body_reading(op, body) matches Err(r) && r.0 == 400,
        },
{
    law_body_by_route(op);
    reveal_strlit("Couldn't parse body parameter ");
    if takes_body(op) {
        let name = op.body_of().unwrap().0;
        match body {
            BodyEvent::Unreadable(e) => {
                let m = "Couldn't parse body parameter "@ + name + " - not valid UTF-8: "@ + e;
                assert(m.subrange(m.len() - e.len(), m.len() as int) =~= e);
                assert(m.subrange(0, 30) =~= "Couldn't parse body parameter "@);
            },
            BodyEvent::Malformed(e) => {
                let m = "Couldn't parse body parameter "@ + name + " - doesn't match schema: "@ + e;
                assert(m.subrange(m.len() - e.len(), m.len() as int) =~= e);
                assert(m.subrange(0, 30) =~= "Couldn't parse body parameter "@);
            },
            _ => {},
        }
    }
}

/// The answer to a response that the operation gave: that response's status,
/// JSON content type, the body as given, the span id, and a `Warning` header
/// exactly when the body had unknown fields.
pub proof fn law_answer_reply(
    call: CallView,
    span: Seq<char>,
    v: ResponseVariant,
    body: Seq<char>,
)
    ensures
        ({
            let r = outcome_reply(call, span, OutcomeView::Answered(v, body));
            &&& r.status == v.status_of()
            &&& r.content_type == Some("application/json"@)
            &&& r.body == body
            &&& r.span_id == span
            &&& r.warning == if call.unused_fields.len() > 0 {
                Some("Ignoring unknown fields in body: "@ + debug_list_text(call.unused_fields))
            } else {
                None
            }
        }),
{
}

/// A rejected request is answered with the rejection's status and message as
/// a plain body, the span id, and no content type or warning.
pub proof fn law_rejection_reply(span: Seq<char>, status: u16, message: Seq<char>)
    ensures
        rejection_reply(span, (status, message)) == (ReplyView {
            status,
            content_type: None,
            body: message,
            span_id: span,
            warning: None,
        }),
{
}

/// An `id` whose escapes do not decode to UTF-8 is rejected with 400 quoting
/// it as it came; an integer `id` whose text is not an `i64` is rejected with
/// 400 giving the parse error.
pub proof fn law_id_rejections(kind: IdKind, raw: Seq<char>)
    ensures
        !valid_utf8(percent_decoded(encode_utf8(raw))) ==> id_reading(kind, raw) == Err::<
            IdValue,
            (u16, Seq<char>),
        >((400u16, "Couldn't percent-decode path parameter as UTF-8: "@ + raw)),
        ({
            let text = decode_utf8(percent_decoded(encode_utf8(raw)));
            valid_utf8(percent_decoded(encode_utf8(raw))) && kind == IdKind::Integer && i64_literal(
                text,
            ) is None ==> id_reading(kind, raw) == Err::<IdValue, (u16, Seq<char>)>(
                (400u16, "Couldn't parse path parameter id: "@ + integer_error_text(text)),
            )
        }),
{
}

} // verus!
