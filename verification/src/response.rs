//! The answers sent back: a rejected request, a failed operation, or the
//! response that the operation gave, each carrying the request's span id.

use vstd::prelude::*;
use vstd::string::StringExecFns;
use vstd::utf8::{decode_utf8, valid_utf8};

use crate::foreign::{
    debug_list, debug_list_text, is_hyphenated_v4_uuid, new_uuid_v4_text, texts, utf8_text,
};
use crate::operation::ResponseVariant;
use crate::request::{internal_error, internal_error_text, ApiCall, CallView, Rejection};

verus! {

/// The content type of every response that an operation gives.
pub open spec fn json_type() -> Seq<char> {
    "application/json"@
}

/// The `Warning` header that names the body fields that were ignored, where
/// there are any.
pub open spec fn warning_for(unused: Seq<Seq<char>>) -> Option<Seq<char>> {
    if unused.len() == 0 {
        None
    } else {
        Some("Ignoring unknown fields in body: "@ + debug_list_text(unused))
    }
}

/// An HTTP answer: status, `Content-Type` where set, body, `X-Span-ID`
/// header, and `Warning` header where set.
#[derive(Debug, PartialEq, Eq)]
pub struct Reply {
    pub status: u16,
    pub content_type: Option<String>,
    pub body: String,
    pub span_id: String,
    pub warning: Option<String>,
}

/// The view of an answer.
pub struct ReplyView {
    pub status: u16,
    pub content_type: Option<Seq<char>>,
    pub body: Seq<char>,
    pub span_id: Seq<char>,
    pub warning: Option<Seq<char>>,
}

/// The view of an optional string.
pub open spec fn opt_view(s: Option<String>) -> Option<Seq<char>> {
    match s {
        Some(t) => Some(t@),
        None => None,
    }
}

impl View for Reply {
    type V = ReplyView;

    open spec fn view(&self) -> ReplyView {
        ReplyView {
            status: self.status,
            content_type: opt_view(self.content_type),
            body: self.body@,
            span_id: self.span_id@,
            warning: opt_view(self.warning),
        }
    }
}

/// What the operation's implementation gave: one of its responses with the
/// JSON text of its body, or a failure.
#[derive(Debug, PartialEq, Eq)]
pub enum ApiOutcome {
    Answered(ResponseVariant, String),
    Failed,
}

/// The view of an `ApiOutcome`.
pub enum OutcomeView {
    Answered(ResponseVariant, Seq<char>),
    Failed,
}

impl View for ApiOutcome {
    type V = OutcomeView;

    open spec fn view(&self) -> OutcomeView {
        match self {
            ApiOutcome::Answered(v, body) => OutcomeView::Answered(*v, body@),
            ApiOutcome::Failed => OutcomeView::Failed,
        }
    }
}

/// The answer to a request that was rejected with `rejection`.
pub open spec fn rejection_reply(span: Seq<char>, rejection: (u16, Seq<char>)) -> ReplyView {
    ReplyView {
        status: rejection.0,
        content_type: None,
        body: rejection.1,
        span_id: span,
        warning: None,
    }
}

/// The answer to a request whose parameters read as `call`, once the
/// operation's implementation gave `outcome`.
pub open spec fn outcome_reply(call: CallView, span: Seq<char>, outcome: OutcomeView) -> ReplyView {
    match outcome {
        OutcomeView::Failed => rejection_reply(span, (500u16, internal_error_text())),
        OutcomeView::Answered(v, body) => ReplyView {
            status: v.status_of(),
            content_type: Some(json_type()),
            body,
            span_id: span,
            warning: warning_for(call.unused_fields),
        },
    }
}

/// The `X-Span-ID` header of a request, from the raw lines that the request
/// gives it: present only where there is exactly one line, and it is
/// non-empty UTF-8.
pub fn span_header(lines: &Vec<Vec<u8>>) -> (r: Option<String>)
    ensures
        r is Some <==> (lines@.len() == 1 && lines@[0]@.len() > 0 && valid_utf8(lines@[0]@)),
        r matches Some(s) ==> s@ == decode_utf8(lines@[0]@),
{
    if lines.len() != 1 || lines[0].len() == 0 {
        return None;
    }
    utf8_text(lines[0].clone())
}

/// The span id of a request: the `X-Span-ID` header where the request has
/// one, a fresh version-4 UUID otherwise.
pub fn span_id(header: Option<String>) -> (s: String)
    ensures
        match header {
            Some(h) => s@ == h@,
            None => is_hyphenated_v4_uuid(s@),
        },
{
    match header {
        Some(h) => h,
        None => new_uuid_v4_text(),
    }
}

/// The answer to a rejected request.
pub fn reject(span: String, rejection: Rejection) -> (r: Reply)
    ensures
        r@ == rejection_reply(span@, rejection@),
{
    Reply {
        status: rejection.status,
        content_type: None,
        body: rejection.message,
        span_id: span,
        warning: None,
    }
}

/// The `Warning` header text, from the `Debug` text of the list of the body
/// fields that were ignored.
pub fn unknown_fields_warning(listed: String) -> (w: String)
    ensures
        w@ == "Ignoring unknown fields in body: "@ + listed@,
{
    let mut w = String::from_str("Ignoring unknown fields in body: ");
    w.append(listed.as_str());
    w
}

/// The answer to a request once its operation ran.
pub fn respond(call: &ApiCall, span: String, outcome: ApiOutcome) -> (r: Reply)
    requires
        outcome matches ApiOutcome::Answered(v, _) ==> call.operation.offers(v),
    ensures
        r@ == outcome_reply(call@, span@, outcome@),
{
    match outcome {
        ApiOutcome::Failed => reject(span, internal_error()),
        ApiOutcome::Answered(v, body) => {
            let warning = if call.unused_fields.len() == 0 {
                None
            } else {
                Some(unknown_fields_warning(debug_list(&call.unused_fields)))
            };
            Reply {
                status: v.status(),
                content_type: Some(String::from_str("application/json")),
                body,
                span_id: span,
                warning,
            }
        },
    }
}

} // verus!
