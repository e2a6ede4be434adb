//! Reading the parameters of a request: the `id` path parameter, the query
//! parameters and the JSON body, in that order, and the 400 or 500 answer
//! that the first one that cannot be read gets.

use vstd::prelude::*;
use vstd::string::StringExecFns;
use vstd::utf8::{decode_utf8, encode_utf8, valid_utf8};

use crate::foreign::{
    flag_literal, form_pairs, i64_literal, integer_error_text, parse_bool, parse_i64, query_pairs,
    text_pairs, texts, utf8_text,
};
use crate::operation::{IdKind, Operation, QueryKind};
use crate::percent::{percent_decode, percent_decoded};

verus! {

/// The text of every 500 answer.
pub open spec fn internal_error_text() -> Seq<char> {
    "An internal error occurred"@
}

/// An answer given without running the operation: a status code and a plain
/// text message.
#[derive(Debug, PartialEq, Eq)]
pub struct Rejection {
    pub status: u16,
    pub message: String,
}

impl View for Rejection {
    type V = (u16, Seq<char>);

    open spec fn view(&self) -> (u16, Seq<char>) {
        (self.status, self.message@)
    }
}

/// The rejection for a failure inside the server.
pub fn internal_error() -> (r: Rejection)
    ensures
        r@ == (500u16, internal_error_text()),
{
    Rejection { status: 500, message: String::from_str("An internal error occurred") }
}

/// A 400 rejection with the message `prefix` followed by `detail`.
fn bad_request(prefix: &str, detail: &str) -> (r: Rejection)
    ensures
        r@ == (400u16, prefix@ + detail@),
{
    let mut message = String::from_str(prefix);
    message.append(detail);
    Rejection { status: 400, message }
}

/// The `id` path parameter, read.
#[derive(Debug, PartialEq, Eq)]
pub enum PathId {
    Text(String),
    Number(i64),
}

/// The value of an `id` path parameter.
pub enum IdValue {
    Text(Seq<char>),
    Number(i64),
}

impl View for PathId {
    type V = IdValue;

    open spec fn view(&self) -> IdValue {
        match self {
            PathId::Text(s) => IdValue::Text(s@),
            PathId::Number(n) => IdValue::Number(*n),
        }
    }
}

/// What the raw path parameter `raw` reads as: its percent escapes decoded,
/// the bytes read as UTF-8, and the text kept or read as an integer.
pub open spec fn id_reading(kind: IdKind, raw: Seq<char>) -> Result<IdValue, (u16, Seq<char>)> {
    let decoded = percent_decoded(encode_utf8(raw));
    if !valid_utf8(decoded) {
        Err((400u16, "Couldn't percent-decode path parameter as UTF-8: "@ + raw))
    } else {
        let text = decode_utf8(decoded);
        match kind {
            IdKind::Text => Ok(IdValue::Text(text)),
            IdKind::Integer => match i64_literal(text) {
                Some(v) => Ok(IdValue::Number(v)),
                None => Err((400u16, "Couldn't parse path parameter id: "@ + integer_error_text(text))),
            },
        }
    }
}

/// The outcome of reading the path parameter of `op`, where `params` is what
/// the router recorded: `None` where it recorded nothing, `Some(None)` where
/// it found no `id`, `Some(Some(raw))` where it found `raw`.
pub open spec fn path_reading(op: Operation, params: Option<Option<Seq<char>>>) -> Result<
    Option<IdValue>,
    (u16, Seq<char>),
> {
    match op.id_kind_of() {
        None => Ok(None),
        Some(kind) => match params {
            None => Err((500u16, internal_error_text())),
            Some(None) => Err((400u16, "Missing path parameter id"@)),
            Some(Some(raw)) => match id_reading(kind, raw) {
                Ok(v) => Ok(Some(v)),
                Err(e) => Err(e),
            },
        },
    }
}

/// The views of an optional path parameter.
pub open spec fn id_view(id: Option<PathId>) -> Option<IdValue> {
    match id {
        Some(p) => Some(p@),
        None => None,
    }
}

/// The integer `id` path parameter, from the outcome of parsing its text as
/// an `i64`: the value, or the text of the parse error.
pub fn integer_id(parsed: Result<i64, String>) -> (r: Result<PathId, Rejection>)
    ensures
        match parsed {
            Ok(v) => r matches Ok(PathId::Number(n)) && n == v,
            Err(m) => r matches Err(e) && e@ == (400u16, "Couldn't parse path parameter id: "@ + m@),
        },
{
    match parsed {
        Ok(v) => Ok(PathId::Number(v)),
        Err(m) => Err(bad_request("Couldn't parse path parameter id: ", m.as_str())),
    }
}

/// Reads the raw `id` path parameter `raw` as `kind` says.
pub fn read_id(kind: IdKind, raw: &str) -> (r: Result<PathId, Rejection>)
    ensures
        match r {
            Ok(v) => id_reading(kind, raw@) == Ok::<IdValue, (u16, Seq<char>)>(v@),
            Err(e) => id_reading(kind, raw@) == Err::<IdValue, (u16, Seq<char>)>(e@),
        },
{
    let decoded = percent_decode(raw.as_bytes());
    match utf8_text(decoded) {
        None => Err(bad_request("Couldn't percent-decode path parameter as UTF-8: ", raw)),
        Some(text) => match kind {
            IdKind::Text => Ok(PathId::Text(text)),
            IdKind::Integer => integer_id(parse_i64(text.as_str())),
        },
    }
}

/// Reads the path parameter of `op` from what the router recorded (see
/// `path_reading`). An operation without an `id` in its path reads nothing.
pub fn read_path(op: Operation, params: Option<Option<&str>>) -> (r: Result<
    Option<PathId>,
    Rejection,
>)
    ensures
        match r {
            Ok(v) => path_reading(op, opt_text_view(params)) == Ok::<
                Option<IdValue>,
                (u16, Seq<char>),
            >(id_view(v)),
            Err(e) => path_reading(op, opt_text_view(params)) == Err::<
                Option<IdValue>,
                (u16, Seq<char>),
            >(e@),
        },
{
    match op.id_kind() {
        None => Ok(None),
        Some(kind) => match params {
            None => Err(internal_error()),
            Some(None) => Err(Rejection { status: 400, message: String::from_str("Missing path parameter id") }),
            Some(Some(raw)) => match read_id(kind, raw) {
                Ok(v) => Ok(Some(v)),
                Err(e) => Err(e),
            },
        },
    }
}

/// The views of what the router recorded.
pub open spec fn opt_text_view(params: Option<Option<&str>>) -> Option<Option<Seq<char>>> {
    match params {
        None => None,
        Some(None) => Some(None),
        Some(Some(s)) => Some(Some(s@)),
    }
}

/// A query parameter, read.
#[derive(Debug, PartialEq, Eq)]
pub enum QueryValue {
    Text(String),
    Flag(bool),
    Count(i64),
}

/// The value of a query parameter.
pub enum QueryArg {
    Text(Seq<char>),
    Flag(bool),
    Count(i64),
}

impl View for QueryValue {
    type V = QueryArg;

    open spec fn view(&self) -> QueryArg {
        match self {
            QueryValue::Text(s) => QueryArg::Text(s@),
            QueryValue::Flag(b) => QueryArg::Flag(*b),
            QueryValue::Count(n) => QueryArg::Count(*n),
        }
    }
}

/// The views of a list of optional query parameters.
pub open spec fn query_values_view(values: Seq<Option<QueryValue>>) -> Seq<Option<QueryArg>> {
    values.map_values(
        |v: Option<QueryValue>|
            match v {
                Some(q) => Some(q@),
                None => None,
            },
    )
}

/// The first value given for `name` among the query pairs.
pub open spec fn first_value(pairs: Seq<(Seq<char>, Seq<char>)>, name: Seq<char>) -> Option<
    Seq<char>,
>
    decreases pairs.len(),
{
    if pairs.len() == 0 {
        None
    } else if pairs[0].0 == name {
        Some(pairs[0].1)
    } else {
        first_value(pairs.drop_first(), name)
    }
}

/// What a query parameter of `kind` reads as, given its first value: a value
/// that does not parse as an optional parameter's type counts as absent.
pub open spec fn query_arg(kind: QueryKind, value: Option<Seq<char>>) -> Option<QueryArg> {
    match value {
        None => None,
        Some(v) => match kind {
            QueryKind::OptionalText => Some(QueryArg::Text(v)),
            QueryKind::RequiredText => Some(QueryArg::Text(v)),
            QueryKind::OptionalFlag => match flag_literal(v) {
                Some(b) => Some(QueryArg::Flag(b)),
                None => None,
            },
            QueryKind::OptionalCount => match i64_literal(v) {
                Some(n) => Some(QueryArg::Count(n)),
                None => None,
            },
        },
    }
}

/// The name of the first required parameter among `params` that has no
/// value among `pairs`.
pub open spec fn first_missing(
    params: Seq<(Seq<char>, QueryKind)>,
    pairs: Seq<(Seq<char>, Seq<char>)>,
) -> Option<Seq<char>>
    decreases params.len(),
{
    if params.len() == 0 {
        None
    } else {
        match first_missing(params.drop_last(), pairs) {
            Some(n) => Some(n),
            None => {
                let p = params.last();
                if p.1 == QueryKind::RequiredText && first_value(pairs, p.0) is None {
                    Some(p.0)
                } else {
                    None
                }
            },
        }
    }
}

/// The outcome of reading the query parameters `params` from `pairs`.
pub open spec fn query_reading(
    params: Seq<(Seq<char>, QueryKind)>,
    pairs: Seq<(Seq<char>, Seq<char>)>,
) -> Result<Seq<Option<QueryArg>>, (u16, Seq<char>)> {
    match first_missing(params, pairs) {
        Some(name) => Err((400u16, "Missing required query parameter "@ + name)),
        None => Ok(
            Seq::new(params.len(), |i: int| query_arg(params[i].1, first_value(pairs, params[i].0))),
        ),
    }
}

/// The query pairs of a request: none where it has no query string.
pub open spec fn request_pairs(query: Option<Seq<char>>) -> Seq<(Seq<char>, Seq<char>)> {
    match query {
        Some(q) => form_pairs(q),
        None => Seq::empty(),
    }
}

/// The first value given for `name` among `pairs`.
pub fn lookup(pairs: &Vec<(String, String)>, name: &str) -> (r: Option<String>)
    ensures
        match r {
            Some(v) => first_value(text_pairs(pairs@), name@) == Some(v@),
            None => first_value(text_pairs(pairs@), name@) is None,
        },
{
    let key = String::from_str(name);
    let n = pairs.len();
    let ghost all = text_pairs(pairs@);
    let mut i: usize = 0;
    assert(all.subrange(0, n as int) =~= all);
    while i < n
        invariant
            n == pairs@.len(),
            all == text_pairs(pairs@),
            key@ == name@,
            i <= n,
            first_value(all, name@) == first_value(all.subrange(i as int, n as int), name@),
        decreases n - i,
    {
        let ghost rest = all.subrange(i as int, n as int);
        assert(rest[0] == (pairs@[i as int].0@, pairs@[i as int].1@));
        if pairs[i].0 == key {
            return Some(pairs[i].1.clone());
        }
        assert(rest.drop_first() =~= all.subrange(i + 1, n as int));
        i = i + 1;
    }
    None
}

/// Once a prefix of the parameters has a missing required one, so has the
/// whole list, and it is the same one.
proof fn lemma_first_missing_prefix(
    params: Seq<(Seq<char>, QueryKind)>,
    pairs: Seq<(Seq<char>, Seq<char>)>,
    k: int,
)
    requires
        0 <= k <= params.len(),
        first_missing(params.take(k), pairs) is Some,
    ensures
        first_missing(params, pairs) == first_missing(params.take(k), pairs),
    decreases params.len() - k,
{
    if k == params.len() {
        assert(params.take(k) =~= params);
    } else {
        assert(params.take(k + 1).drop_last() =~= params.take(k));
        lemma_first_missing_prefix(params, pairs, k + 1);
    }
}

/// Reads the query parameters of `op` from the query pairs of a request.
pub fn read_query_pairs(op: Operation, pairs: &Vec<(String, String)>) -> (r: Result<
    Vec<Option<QueryValue>>,
    Rejection,
>)
    ensures
        match r {
            Ok(v) => query_reading(op.query_of(), text_pairs(pairs@)) == Ok::<
                Seq<Option<QueryArg>>,
                (u16, Seq<char>),
            >(query_values_view(v@)),
            Err(e) => query_reading(op.query_of(), text_pairs(pairs@)) == Err::<
                Seq<Option<QueryArg>>,
                (u16, Seq<char>),
            >(e@),
        },
{
    let params = op.query_params();
    let ghost spec_params = op.query_of();
    let ghost all = text_pairs(pairs@);
    let n = params.len();
    let mut values: Vec<Option<QueryValue>> = Vec::new();
    let mut i: usize = 0;
    assert(spec_params.take(0) =~= Seq::<(Seq<char>, QueryKind)>::empty());
    while i < n
        invariant
            n == params@.len(),
            n == spec_params.len(),
            spec_params == op.query_of(),
            all == text_pairs(pairs@),
            forall|j: int|
                0 <= j < params@.len() ==> (#[trigger] params@[j]).name@ == spec_params[j].0
                    && params@[j].kind == spec_params[j].1,
            i <= n,
            values@.len() == i,
            first_missing(spec_params.take(i as int), all) is None,
            forall|j: int|
                0 <= j < i ==> #[trigger] query_values_view(values@)[j] == query_arg(
                    spec_params[j].1,
                    first_value(all, spec_params[j].0),
                ),
        decreases n - i,
    {
        let p = params[i];
        assert(p.name@ == spec_params[i as int].0 && p.kind == spec_params[i as int].1);
        assert(spec_params.take(i + 1).drop_last() =~= spec_params.take(i as int));
        assert(spec_params.take(i + 1).last() == spec_params[i as int]);
        let found = lookup(pairs, p.name);
        let value: Option<QueryValue> = match p.kind {
            QueryKind::RequiredText => match found {
                None => {
                    proof {
                        lemma_first_missing_prefix(spec_params, all, i + 1);
                    }
                    return Err(bad_request("Missing required query parameter ", p.name));
                },
                Some(v) => Some(QueryValue::Text(v)),
            },
            QueryKind::OptionalText => match found {
                None => None,
                Some(v) => Some(QueryValue::Text(v)),
            },
            QueryKind::OptionalFlag => match found {
                None => None,
                Some(v) => match parse_bool(v.as_str()) {
                    Some(b) => Some(QueryValue::Flag(b)),
                    None => None,
                },
            },
            QueryKind::OptionalCount => match found {
                None => None,
                Some(v) => match parse_i64(v.as_str()) {
                    Ok(c) => Some(QueryValue::Count(c)),
                    Err(_) => None,
                },
            },
        };
        let ghost before = values@;
        values.push(value);
        assert(query_values_view(values@) =~= query_values_view(before).push(
            query_arg(spec_params[i as int].1, first_value(all, spec_params[i as int].0)),
        ));
        i = i + 1;
    }
    assert(spec_params.take(n as int) =~= spec_params);
    assert(query_values_view(values@) =~= Seq::new(
        spec_params.len(),
        |j: int| query_arg(spec_params[j].1, first_value(all, spec_params[j].0)),
    ));
    Ok(values)
}

/// Reads the query parameters of `op` from the query string of a request,
/// where it has one.
pub fn read_query(op: Operation, query: Option<&str>) -> (r: Result<
    Vec<Option<QueryValue>>,
    Rejection,
>)
    ensures
        match r {
            Ok(v) => query_reading(op.query_of(), request_pairs(opt_str_view(query))) == Ok::<
                Seq<Option<QueryArg>>,
                (u16, Seq<char>),
            >(query_values_view(v@)),
            Err(e) => query_reading(op.query_of(), request_pairs(opt_str_view(query))) == Err::<
                Seq<Option<QueryArg>>,
                (u16, Seq<char>),
            >(e@),
        },
{
    let pairs: Vec<(String, String)> = match query {
        Some(q) => query_pairs(q),
        None => Vec::new(),
    };
    assert(text_pairs(pairs@) =~= request_pairs(opt_str_view(query)));
    read_query_pairs(op, &pairs)
}

/// The view of an optional text.
pub open spec fn opt_str_view(s: Option<&str>) -> Option<Seq<char>> {
    match s {
        Some(t) => Some(t@),
        None => None,
    }
}

/// What became of the request body: `Unreadable` with the error's text where
/// it could not be read as UTF-8; `Absent` where it was empty; `Malformed`
/// with the error's text where it does not match the parameter's schema;
/// `Null` where it is the JSON `null`; `Parsed` with the paths of the fields
/// that the schema does not know, where it was read.
#[derive(Debug, PartialEq, Eq)]
pub enum BodyOutcome {
    Unreadable(String),
    Absent,
    Malformed(String),
    Null,
    Parsed(Vec<String>),
}

/// The view of a `BodyOutcome`.
pub enum BodyEvent {
    Unreadable(Seq<char>),
    Absent,
    Malformed(Seq<char>),
    Null,
    Parsed(Seq<Seq<char>>),
}

impl View for BodyOutcome {
    type V = BodyEvent;

    open spec fn view(&self) -> BodyEvent {
        match self {
            BodyOutcome::Unreadable(e) => BodyEvent::Unreadable(e@),
            BodyOutcome::Absent => BodyEvent::Absent,
            BodyOutcome::Malformed(e) => BodyEvent::Malformed(e@),
            BodyOutcome::Null => BodyEvent::Null,
            BodyOutcome::Parsed(unused) => BodyEvent::Parsed(texts(unused@)),
        }
    }
}

/// The outcome of reading the body of `op`: the unknown fields where it was
/// read, the answer where it was not. An operation without a body parameter
/// reads nothing.
pub open spec fn body_reading(op: Operation, body: BodyEvent) -> Result<
    Seq<Seq<char>>,
    (u16, Seq<char>),
> {
    match op.body_of() {
        None => Ok(Seq::empty()),
        Some((name, _)) => match body {
            BodyEvent::Unreadable(e) => Err(
                (400u16, "Couldn't parse body parameter "@ + name + " - not valid UTF-8: "@ + e),
            ),
            BodyEvent::Absent => Err((400u16, "Missing required body parameter "@ + name)),
            BodyEvent::Malformed(e) => Err(
                (400u16, "Couldn't parse body parameter "@ + name + " - doesn't match schema: "@ + e),
            ),
            BodyEvent::Null => Err((400u16, "Missing required body parameter "@ + name)),
            BodyEvent::Parsed(unused) => Ok(unused),
        },
    }
}

/// A 400 rejection naming the body parameter `name`, with `middle` and
/// `detail` after it.
fn body_rejection(name: &str, middle: &str, detail: &str) -> (r: Rejection)
    ensures
        r@ == (400u16, "Couldn't parse body parameter "@ + name@ + middle@ + detail@),
{
    let mut message = String::from_str("Couldn't parse body parameter ");
    message.append(name);
    message.append(middle);
    message.append(detail);
    Rejection { status: 400, message }
}

/// Reads the body of `op` from what became of the request body.
pub fn read_body(op: Operation, body: BodyOutcome) -> (r: Result<Vec<String>, Rejection>)
    ensures
        match r {
            Ok(u) => body_reading(op, body@) == Ok::<Seq<Seq<char>>, (u16, Seq<char>)>(texts(u@)),
            Err(e) => body_reading(op, body@) == Err::<Seq<Seq<char>>, (u16, Seq<char>)>(e@),
        },
{
    match op.body_param() {
        None => {
            let none: Vec<String> = Vec::new();
            assert(texts(none@) =~= Seq::<Seq<char>>::empty());
            Ok(none)
        },
        Some(param) => match body {
            BodyOutcome::Unreadable(e) => Err(
                body_rejection(param.name, " - not valid UTF-8: ", e.as_str()),
            ),
            BodyOutcome::Absent => Err(bad_request("Missing required body parameter ", param.name)),
            BodyOutcome::Malformed(e) => Err(
                body_rejection(param.name, " - doesn't match schema: ", e.as_str()),
            ),
            BodyOutcome::Null => Err(bad_request("Missing required body parameter ", param.name)),
            BodyOutcome::Parsed(unused) => Ok(unused),
        },
    }
}

/// The parameters of a request, read, ready for the operation to run.
#[derive(Debug, PartialEq, Eq)]
pub struct ApiCall {
    pub operation: Operation,
    pub id: Option<PathId>,
    pub query: Vec<Option<QueryValue>>,
    pub unused_fields: Vec<String>,
}

/// The view of the parameters of a request.
pub struct CallView {
    pub operation: Operation,
    pub id: Option<IdValue>,
    pub query: Seq<Option<QueryArg>>,
    pub unused_fields: Seq<Seq<char>>,
}

impl View for ApiCall {
    type V = CallView;

    open spec fn view(&self) -> CallView {
        CallView {
            operation: self.operation,
            id: id_view(self.id),
            query: query_values_view(self.query@),
            unused_fields: texts(self.unused_fields@),
        }
    }
}

/// The outcome of reading a request for `op`: the path parameter first, then
/// the query parameters, then the body; the first that cannot be read decides
/// the answer.
pub open spec fn request_reading(
    op: Operation,
    params: Option<Option<Seq<char>>>,
    query: Option<Seq<char>>,
    body: BodyEvent,
) -> Result<CallView, (u16, Seq<char>)> {
    match path_reading(op, params) {
        Err(e) => Err(e),
        Ok(id) => match query_reading(op.query_of(), request_pairs(query)) {
            Err(e) => Err(e),
            Ok(q) => match body_reading(op, body) {
                Err(e) => Err(e),
                Ok(unused) => Ok(CallView { operation: op, id, query: q, unused_fields: unused }),
            },
        },
    }
}

/// Reads a request for `op`: what the router recorded of the path (see
/// `read_path`), the query string where there is one, and what became of the
/// body.
pub fn read_request(
    op: Operation,
    params: Option<Option<&str>>,
    query: Option<&str>,
    body: BodyOutcome,
) -> (r: Result<ApiCall, Rejection>)
    ensures
        match r {
            Ok(c) => request_reading(op, opt_text_view(params), opt_str_view(query), body@) == Ok::<
                CallView,
                (u16, Seq<char>),
            >(c@),
            Err(e) => request_reading(op, opt_text_view(params), opt_str_view(query), body@)
                == Err::<CallView, (u16, Seq<char>)>(e@),
        },
{
    let id = match read_path(op, params) {
        Ok(id) => id,
        Err(e) => return Err(e),
    };
    let query = match read_query(op, query) {
        Ok(q) => q,
        Err(e) => return Err(e),
    };
    let unused_fields = match read_body(op, body) {
        Ok(u) => u,
        Err(e) => return Err(e),
    };
    Ok(ApiCall { operation: op, id, query, unused_fields })
}

} // verus!
