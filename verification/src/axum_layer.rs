//! The span-lifecycle middleware core: building a server span from an
//! inbound request, and recording the handler's outcome (status code or
//! error) onto it once, after the handler has resolved.

use vstd::prelude::*;
use vstd::string::StringExecFns;
use crate::propagation::SpanContextData;
use crate::propagation::spec_extract_context;
use crate::propagation::spec_context_valid;
use crate::propagation::spec_traceparent;
use crate::propagation::extract_context;
use crate::propagation::context_is_valid;
use crate::propagation::format_traceparent;
use crate::request::ErrorInfo;
use crate::request::HeaderPair;
use crate::request::RequestInfo;
use crate::request::ResponseInfo;
use crate::request::spec_filter_headers;
use crate::request::spec_header_lookup;
use crate::request::spec_header_text;
use crate::request::filter_headers;
use crate::request::header_lookup;

verus! {

/// The kind of a span; every span this middleware opens is a server span.
#[derive(PartialEq, Eq, Structural, Clone, Copy, Debug)]
pub enum SpanKind {
    Server,
    Client,
    Internal,
}

/// Span status.  Per the HTTP semantic conventions a span is marked
/// `Error` on a server-error response or a handler failure, and is left
/// `Unset` otherwise: a 1xx/2xx/3xx status never sets an explicit "ok".
#[derive(PartialEq, Eq, Structural, Clone, Copy, Debug)]
pub enum SpanStatus {
    Unset,
    Error,
}

/// One request span with its fixed attribute schema.  The outcome
/// fields (`status_code`, `status`, `exception_message`) stay empty
/// until the handler resolves; `outcome_recorded` says whether the
/// single outcome recording has happened.
#[derive(Debug, Clone)]
pub struct SpanData {
    pub otel_name: String,
    pub kind: SpanKind,
    pub method: String,
    pub route: String,
    pub server_address: String,
    pub client_address: Option<String>,
    pub headers_attr: String,
    pub user_agent: String,
    pub url_path: String,
    pub url_query: Option<String>,
    pub status_code: Option<u16>,
    pub status: SpanStatus,
    pub trace_id: Option<String>,
    pub request_id: Option<String>,
    pub exception_message: Option<String>,
    pub user_id: String,
    pub parent: Option<SpanContextData>,
    pub outcome_recorded: bool,
}

/// A span as just opened for `req`: attributes drawn from the request,
/// outcome fields empty, the parent taken from the inbound headers only
/// when `extract_parent` asks for it.
pub open spec fn spec_fresh_span(span: SpanData, req: RequestInfo, extract_parent: bool) -> bool {
    &&& span.otel_name@ == req.method@ + " "@ + spec_route(req)
    &&& span.kind == SpanKind::Server
    &&& span.method@ == req.method@
    &&& span.route@ == spec_route(req)
    &&& span.server_address@ == spec_host(req)
    &&& span.client_address is None
    &&& span.headers_attr@ == spec_headers_attr(req)
    &&& span.user_agent@ == spec_user_agent(req)
    &&& span.url_path@ == req.path@
    &&& span.url_query.deep_view() == req.query.deep_view()
    &&& span.status_code is None
    &&& span.status == SpanStatus::Unset
    &&& span.trace_id is None
    &&& span.request_id is None
    &&& span.exception_message is None
    &&& span.user_id@ == "-"@
    &&& span.parent == (if extract_parent {
        spec_extract_context(req.headers@)
    } else {
        None::<SpanContextData>
    })
    &&& !span.outcome_recorded
}

/// The route attribute: the router's matched route template where one
/// was resolved, the empty string otherwise — never the raw path.
pub open spec fn spec_route(req: RequestInfo) -> Seq<char> {
    match req.matched_route {
        Some(r) => r@,
        None => Seq::empty(),
    }
}

/// The server-address attribute: the textual `Host` header if present,
/// else the URI's host component, else the empty string.
pub open spec fn spec_host(req: RequestInfo) -> Seq<char> {
    match spec_header_lookup(req.headers@, "host"@) {
        Some(p) => spec_header_text(p),
        None => match req.uri_host {
            Some(h) => h@,
            None => Seq::empty(),
        },
    }
}

/// The user-agent attribute: the textual `User-Agent` header if
/// present, else the empty string.
pub open spec fn spec_user_agent(req: RequestInfo) -> Seq<char> {
    match spec_header_lookup(req.headers@, "user-agent"@) {
        Some(p) => spec_header_text(p),
        None => Seq::empty(),
    }
}

/// One rendered header entry.
pub open spec fn spec_header_entry(p: HeaderPair) -> Seq<char> {
    p.name@ + ": '"@ + p.value@ + "'"@
}

/// The rendered entries of a header list, comma-separated.
pub open spec fn spec_header_items(hs: Seq<HeaderPair>) -> Seq<char>
    decreases hs.len(),
{
    if hs.len() == 0 {
        Seq::empty()
    } else if hs.len() == 1 {
        spec_header_entry(hs[0])
    } else {
        spec_header_items(hs.drop_last()) + ", "@ + spec_header_entry(hs.last())
    }
}

/// The serialized headers attribute: the filtered headers (credentials
/// removed) rendered inside braces.
pub open spec fn spec_headers_attr(req: RequestInfo) -> Seq<char> {
    "{"@ + spec_header_items(spec_filter_headers(req.headers@)) + "}"@
}

/// The serialized headers attribute shows exactly the headers whose
/// names are not credential-bearing, in request order, whatever casing
/// the request used: `authorization` and `idtoken` values never reach
/// it.
pub proof fn lemma_headers_attr_excludes_secrets(req: RequestInfo)
    ensures
        spec_headers_attr(req) == "{"@ + spec_header_items(
            req.headers@.filter(|p: HeaderPair| !crate::request::spec_is_secret_name(p.name@)),
        ) + "}"@,
        forall|i: int|
            0 <= i < spec_filter_headers(req.headers@).len() ==> !crate::request::spec_is_secret_name(
                #[trigger] spec_filter_headers(req.headers@)[i].name@,
            ),
{
    crate::request::lemma_filter_headers_complete(req.headers@);
    crate::request::lemma_filtered_headers_hold_no_secrets(req.headers@);
}

/// Returns the matched route template, or the empty string where the
/// router resolved none.
pub fn http_route(req: &RequestInfo) -> (r: String)
    ensures
        r@ == spec_route(*req),
{
    match &req.matched_route {
        Some(mp) => mp.clone(),
        None => String::new(),
    }
}

/// Returns the server-address attribute for `req`.
pub fn http_host(req: &RequestInfo) -> (r: String)
    ensures
        r@ == spec_host(*req),
{
    match header_lookup(&req.headers, "host") {
        Some(p) => {
            if p.is_text {
                p.value.clone()
            } else {
                String::new()
            }
        },
        None => match &req.uri_host {
            Some(h) => h.clone(),
            None => String::new(),
        },
    }
}

/// Returns the user-agent attribute for `req`.
pub fn user_agent(req: &RequestInfo) -> (r: String)
    ensures
        r@ == spec_user_agent(*req),
{
    match header_lookup(&req.headers, "user-agent") {
        Some(p) => {
            if p.is_text {
                p.value.clone()
            } else {
                String::new()
            }
        },
        None => String::new(),
    }
}

/// Renders the request headers, minus credential-bearing ones, as one
/// human-readable attribute value.
pub fn headers(req: &RequestInfo) -> (r: String)
    ensures
        r@ == spec_headers_attr(*req),
{
    let kept = filter_headers(&req.headers);
    let mut out = String::from_str("{");
    let mut i: usize = 0;
    while i < kept.len()
        invariant
            i <= kept@.len(),
            out@ == "{"@ + spec_header_items(kept@.take(i as int)),
        decreases kept@.len() - i,
    {
        proof {
            assert(kept@.take(i + 1).drop_last() =~= kept@.take(i as int));
            assert(kept@.take(i + 1).last() == kept@[i as int]);
            assert(kept@.take(1)[0] == kept@[0]);
        }
        if i > 0 {
            out.append(", ");
        }
        out.append(kept[i].name.as_str());
        out.append(": '");
        out.append(kept[i].value.as_str());
        out.append("'");
        i = i + 1;
    }
    proof {
        assert(kept@.take(kept@.len() as int) =~= kept@);
    }
    out.append("}");
    out
}

/// Builds the span for one request: the fixed attribute schema filled
/// from the request, server kind, outcome fields empty, and — when
/// `extract_parent` is set — the parent context taken from the inbound
/// `traceparent` header.
pub fn make_span(req: &RequestInfo, extract_parent: bool) -> (span: SpanData)
    ensures
        spec_fresh_span(span, *req, extract_parent),
{
    let route = http_route(req);
    let mut otel_name = req.method.clone();
    otel_name.append(" ");
    otel_name.append(route.as_str());
    let parent: Option<SpanContextData> = if extract_parent {
        extract_context(&req.headers)
    } else {
        None
    };
    SpanData {
        otel_name,
        kind: SpanKind::Server,
        method: req.method.clone(),
        route,
        server_address: http_host(req),
        client_address: None,
        headers_attr: headers(req),
        user_agent: user_agent(req),
        url_path: req.path.clone(),
        url_query: match &req.query {
            Some(q) => Some(q.clone()),
            None => None,
        },
        status_code: None,
        status: SpanStatus::Unset,
        trace_id: None,
        request_id: None,
        exception_message: None,
        user_id: String::from_str("-"),
        parent,
        outcome_recorded: false,
    }
}

/// Everything of a span except its outcome fields.
pub open spec fn spec_non_outcome_unchanged(old_span: SpanData, new_span: SpanData) -> bool {
    &&& new_span.otel_name == old_span.otel_name
    &&& new_span.kind == old_span.kind
    &&& new_span.method == old_span.method
    &&& new_span.route == old_span.route
    &&& new_span.server_address == old_span.server_address
    &&& new_span.client_address == old_span.client_address
    &&& new_span.headers_attr == old_span.headers_attr
    &&& new_span.user_agent == old_span.user_agent
    &&& new_span.url_path == old_span.url_path
    &&& new_span.url_query == old_span.url_query
    &&& new_span.trace_id == old_span.trace_id
    &&& new_span.request_id == old_span.request_id
    &&& new_span.user_id == old_span.user_id
    &&& new_span.parent == old_span.parent
}

/// Whether an HTTP status code is in the server-error class.
pub open spec fn spec_is_server_error(status: u16) -> bool {
    500 <= status < 600
}

/// Records a successful response onto the span: the numeric status
/// code always; span status becomes `Error` only for a server-error
/// class code, and is otherwise left as it was — never set to an
/// explicit "ok".
pub fn update_span_from_response(span: &mut SpanData, response: &ResponseInfo)
    ensures
        spec_non_outcome_unchanged(*old(span), *final(span)),
        final(span).status_code == Some(response.status),
        final(span).status == (if spec_is_server_error(response.status) {
            SpanStatus::Error
        } else {
            old(span).status
        }),
        final(span).exception_message == old(span).exception_message,
        final(span).outcome_recorded == old(span).outcome_recorded,
{
    span.status_code = Some(response.status);
    if 500 <= response.status && response.status < 600 {
        span.status = SpanStatus::Error;
    }
}

/// The exception message recorded for an error: the message of its
/// underlying cause where one is exposed, which takes precedence over
/// the error's own message.
pub open spec fn spec_exception_message(error: ErrorInfo) -> Seq<char> {
    match error.source_message {
        Some(s) => s@,
        None => error.message@,
    }
}

/// Records a handler error onto the span: span status becomes `Error`
/// and the exception message is the error's message, overwritten by the
/// root cause's message when the error exposes one.
pub fn update_span_from_error(span: &mut SpanData, error: &ErrorInfo)
    ensures
        spec_non_outcome_unchanged(*old(span), *final(span)),
        final(span).status == SpanStatus::Error,
        final(span).status_code == old(span).status_code,
        final(span).exception_message matches Some(m) && m@ == spec_exception_message(*error),
        final(span).outcome_recorded == old(span).outcome_recorded,
{
    span.status = SpanStatus::Error;
    span.exception_message = Some(error.message.clone());
    match &error.source_message {
        Some(s) => {
            span.exception_message = Some(s.clone());
        },
        None => {},
    }
}

/// How a span after an outcome recording relates to the span before
/// it: the non-outcome attributes are untouched, the outcome is marked
/// recorded, and status, status code and exception message reflect the
/// handler's result.
pub open spec fn spec_records_outcome(
    old_span: SpanData,
    new_span: SpanData,
    result: Result<ResponseInfo, ErrorInfo>,
) -> bool {
    &&& spec_non_outcome_unchanged(old_span, new_span)
    &&& new_span.outcome_recorded
    &&& match result {
        Ok(response) => {
            &&& new_span.status_code == Some(response.status)
            &&& new_span.status == (if spec_is_server_error(response.status) {
                SpanStatus::Error
            } else {
                old_span.status
            })
            &&& new_span.exception_message == old_span.exception_message
        },
        Err(error) => {
            &&& new_span.status == SpanStatus::Error
            &&& new_span.status_code == old_span.status_code
            &&& new_span.exception_message matches Some(m) && m@ == spec_exception_message(error)
        },
    }
}

/// Each span carries exactly one recorded outcome.  A span opened for
/// a request starts with none, and any recording leaves the span with
/// one — and recording (`update_span_from_response_or_error`) demands
/// a span still without one, so no span ever admits a second
/// recording.  The recording is a function of the handler's resolved
/// result, so it cannot happen before that result exists.
pub proof fn lemma_outcome_recorded_exactly_once(
    opened: SpanData,
    recorded: SpanData,
    req: RequestInfo,
    extract_parent: bool,
    result: Result<ResponseInfo, ErrorInfo>,
)
    requires
        spec_fresh_span(opened, req, extract_parent),
        spec_records_outcome(opened, recorded, result),
    ensures
        !opened.outcome_recorded,
        recorded.outcome_recorded,
{
}

/// Records the handler's outcome — response or error — onto the span,
/// exactly once per span: the single point where a span's outcome is
/// set, after the handler has resolved and before the span closes.
pub fn update_span_from_response_or_error(
    span: &mut SpanData,
    result: &Result<ResponseInfo, ErrorInfo>,
)
    requires
        !old(span).outcome_recorded,
    ensures
        spec_records_outcome(*old(span), *final(span), *result),
{
    match result {
        Ok(response) => {
            update_span_from_response(span, response);
        },
        Err(error) => {
            update_span_from_error(span, error);
        },
    }
    span.outcome_recorded = true;
}

/// Injects the span's context into outbound headers as a `traceparent`
/// header, replacing the value of the first existing one (under any
/// casing) or appending a new header; every other header is untouched.
/// An invalid context leaves the headers as they were.
pub fn set_tracing_header(ctx: &SpanContextData, headers: &mut Vec<HeaderPair>)
    ensures
        spec_context_valid(*ctx) ==> (spec_header_lookup(final(headers)@, "traceparent"@)
            matches Some(p) && spec_header_text(p) == spec_traceparent(*ctx)),
        spec_context_valid(*ctx) ==> match crate::request::spec_find_header(
            old(headers)@,
            "traceparent"@,
        ) {
            Some(i) => {
                &&& final(headers)@.len() == old(headers)@.len()
                &&& forall|j: int|
                    0 <= j < old(headers)@.len() && j != i ==> final(headers)@[j] == old(
                        headers,
                    )@[j]
                &&& final(headers)@[i].name == old(headers)@[i].name
                &&& final(headers)@[i].value@ == spec_traceparent(*ctx)
                &&& final(headers)@[i].is_text
            },
            None => {
                &&& final(headers)@.len() == old(headers)@.len() + 1
                &&& forall|j: int|
                    0 <= j < old(headers)@.len() ==> final(headers)@[j] == old(headers)@[j]
                &&& final(headers)@.last().name@ == "traceparent"@
                &&& final(headers)@.last().value@ == spec_traceparent(*ctx)
                &&& final(headers)@.last().is_text
            },
        },
        !spec_context_valid(*ctx) ==> final(headers)@ == old(headers)@,
{
    if !context_is_valid(ctx) {
        return ;
    }
    let value = format_traceparent(ctx);
    let mut i: usize = 0;
    proof {
        assert(headers@.skip(0) =~= headers@);
    }
    while i < headers.len()
        invariant
            i <= headers@.len(),
            headers@ == old(headers)@,
            value@ == spec_traceparent(*ctx),
            spec_context_valid(*ctx),
            forall|j: int|
                0 <= j < i ==> !crate::text::spec_eq_ignore_case(
                    #[trigger] headers@[j].name@,
                    "traceparent"@,
                ),
        decreases headers@.len() - i,
    {
        if crate::text::eq_ignore_ascii_case(headers[i].name.as_str(), "traceparent") {
            proof {
                crate::request::lemma_find_header_at(headers@, i as int, "traceparent"@);
            }
            let name = headers[i].name.clone();
            headers.set(i, HeaderPair { name, value, is_text: true });
            proof {
                lemma_lookup_prefix_set(old(headers)@, headers@, i as int, "traceparent"@);
            }
            return ;
        }
        i = i + 1;
    }
    proof {
        lemma_lookup_none_when_no_match(headers@, "traceparent"@);
        crate::request::lemma_find_header_none(headers@, "traceparent"@);
    }
    headers.push(HeaderPair { name: String::from_str("traceparent"), value, is_text: true });
    proof {
        lemma_lookup_append_match(old(headers)@, headers@, "traceparent"@);
    }
}

proof fn lemma_lookup_none_when_no_match(hs: Seq<HeaderPair>, name: Seq<char>)
    requires
        forall|j: int|
            0 <= j < hs.len() ==> !crate::text::spec_eq_ignore_case(#[trigger] hs[j].name@, name),
    ensures
        spec_header_lookup(hs, name) is None,
    decreases hs.len(),
{
    if hs.len() > 0 {
        assert forall|j: int|
            0 <= j < hs.drop_first().len() implies !crate::text::spec_eq_ignore_case(
            #[trigger] hs.drop_first()[j].name@,
            name,
        ) by {
            assert(hs.drop_first()[j] == hs[j + 1]);
        };
        lemma_lookup_none_when_no_match(hs.drop_first(), name);
    }
}

proof fn lemma_lookup_prefix_set(
    before: Seq<HeaderPair>,
    after: Seq<HeaderPair>,
    i: int,
    name: Seq<char>,
)
    requires
        0 <= i < before.len(),
        after.len() == before.len(),
        forall|j: int| 0 <= j < before.len() && j != i ==> after[j] == before[j],
        forall|j: int|
            0 <= j < i ==> !crate::text::spec_eq_ignore_case(#[trigger] before[j].name@, name),
        crate::text::spec_eq_ignore_case(after[i].name@, name),
    ensures
        spec_header_lookup(after, name) == Some(after[i]),
    decreases i,
{
    if i == 0 {
        assert(after[0] == after[i]);
    } else {
        lemma_lookup_prefix_set(before.drop_first(), after.drop_first(), i - 1, name);
        assert(after.drop_first()[i - 1] == after[i]);
        assert(!crate::text::spec_eq_ignore_case(after[0].name@, name)) by {
            assert(after[0] == before[0]);
        };
    }
}

proof fn lemma_lookup_append_match(
    before: Seq<HeaderPair>,
    after: Seq<HeaderPair>,
    name: Seq<char>,
)
    requires
        after.len() == before.len() + 1,
        forall|j: int| 0 <= j < before.len() ==> after[j] == before[j],
        spec_header_lookup(before, name) is None,
        crate::text::spec_eq_ignore_case(after.last().name@, name),
    ensures
        spec_header_lookup(after, name) == Some(after.last()),
    decreases before.len(),
{
    if before.len() == 0 {
        assert(after[0] == after.last());
    } else {
        assert(!crate::text::spec_eq_ignore_case(before[0].name@, name));
        assert(after[0] == before[0]);
        lemma_lookup_append_match(before.drop_first(), after.drop_first(), name);
        assert(after.drop_first().last() == after.last());
    }
}

/// The middleware layer: wraps a handler stage so that every request is
/// traced.  `extract_parent` selects whether an upstream trace context
/// in the inbound headers becomes the span's parent, or every span
/// starts a fresh root trace.
pub struct AxumOtelLayer {
    pub extract_parent: bool,
}

/// Creates the tracing layer, honoring an upstream parent context.
#[must_use]
pub fn opentelemetry_tracing_layer() -> (r: AxumOtelLayer)
    ensures
        r.extract_parent,
{
    AxumOtelLayer { extract_parent: true }
}

/// Creates the tracing layer that never adopts an upstream parent:
/// every request starts a fresh root span.
#[must_use]
pub fn opentelemetry_tracing_layer_without_parent() -> (r: AxumOtelLayer)
    ensures
        !r.extract_parent,
{
    AxumOtelLayer { extract_parent: false }
}

/// The wrapped handler stage: the inner stage plus the layer's
/// parent-extraction choice.
pub struct AxumOtelService<S> {
    pub extract_parent: bool,
    pub inner: S,
}

impl AxumOtelLayer {
    /// Wraps `inner` in the tracing middleware.
    pub fn layer<S>(&self, inner: S) -> (r: AxumOtelService<S>)
        ensures
            r.extract_parent == self.extract_parent,
    {
        AxumOtelService { extract_parent: self.extract_parent, inner }
    }
}

impl<S> AxumOtelService<S> {
    /// The synchronous part of handling one request: opens the span
    /// before the inner stage is invoked.
    pub fn begin_request(&self, req: &RequestInfo) -> (span: SpanData)
        ensures
            spec_fresh_span(span, *req, self.extract_parent),
    {
        make_span(req, self.extract_parent)
    }
}

} // verus!

