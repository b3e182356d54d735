//! Trace-context propagation: the `traceparent` header codec in the
//! W3C form `{version:02x}-{trace_id:032x}-{span_id:016x}-{flags:02x}`,
//! extraction of an upstream context from inbound headers, and injection
//! of a span's context into outbound headers.

use vstd::prelude::*;
use vstd::string::StrSliceExecFns;
use vstd::string::StringExecFns;
use crate::text::spec_all_hex;
use crate::text::spec_hex;
use crate::text::spec_parse_hex;
use crate::text::lemma_hex_round_trip;
use crate::text::lemma_parse_hex_bound;
use crate::text::parse_hex_range;
use crate::text::u128_hex;
use crate::request::HeaderPair;
use crate::request::spec_header_lookup;
use crate::request::spec_header_text;
use crate::request::header_lookup;

verus! {

/// An extracted or injected trace context: the place of a span in a
/// distributed trace, plus the upstream sampling decision.
#[derive(PartialEq, Eq, Structural, Clone, Copy, Debug)]
pub struct SpanContextData {
    pub trace_id: u128,
    pub span_id: u64,
    pub sampled: bool,
}

/// A context is valid when neither of its identifiers is zero.
pub open spec fn spec_context_valid(ctx: SpanContextData) -> bool {
    ctx.trace_id != 0 && ctx.span_id != 0
}

/// Whether this context may be propagated.
pub fn context_is_valid(ctx: &SpanContextData) -> (r: bool)
    ensures
        r == spec_context_valid(*ctx),
{
    ctx.trace_id != 0 && ctx.span_id != 0
}

/// The `traceparent` value for a context: version `00`, then the trace
/// id over 32 hex digits, the span id over 16, and the flags byte
/// (sampled bit only) over 2, separated by dashes.
pub open spec fn spec_traceparent(ctx: SpanContextData) -> Seq<char> {
    spec_hex(0, 2) + "-"@ + spec_hex(ctx.trace_id as nat, 32) + "-"@ + spec_hex(
        ctx.span_id as nat,
        16,
    ) + "-"@ + spec_hex(if ctx.sampled { 1 } else { 0 }, 2)
}

/// Renders the `traceparent` header value for `ctx`.
pub fn format_traceparent(ctx: &SpanContextData) -> (r: String)
    ensures
        r@ == spec_traceparent(*ctx),
{
    let mut s = u128_hex(0, 2);
    s.append("-");
    s.append(u128_hex(ctx.trace_id, 32).as_str());
    s.append("-");
    s.append(u128_hex(ctx.span_id as u128, 16).as_str());
    s.append("-");
    let flags: u128 = if ctx.sampled {
        1
    } else {
        0
    };
    s.append(u128_hex(flags, 2).as_str());
    s
}

/// What parsing a `traceparent` value yields: `Some` exactly for a
/// well-formed version-00 record with nonzero identifiers, with the
/// sampled flag taken from the lowest bit of the flags byte.
pub open spec fn spec_parse_traceparent(s: Seq<char>) -> Option<SpanContextData> {
    if s.len() == 55 && s[2] == '-' && s[35] == '-' && s[52] == '-' && spec_all_hex(
        s.subrange(0, 2),
    ) && spec_all_hex(s.subrange(3, 35)) && spec_all_hex(s.subrange(36, 52)) && spec_all_hex(
        s.subrange(53, 55),
    ) && spec_parse_hex(s.subrange(0, 2)) == 0 && spec_parse_hex(s.subrange(3, 35)) != 0
        && spec_parse_hex(s.subrange(36, 52)) != 0 {
        Some(
            SpanContextData {
                trace_id: spec_parse_hex(s.subrange(3, 35)) as u128,
                span_id: spec_parse_hex(s.subrange(36, 52)) as u64,
                sampled: spec_parse_hex(s.subrange(53, 55)) % 2 == 1,
            },
        )
    } else {
        None
    }
}

/// Parses a `traceparent` header value.  Yields `None` for anything but
/// a well-formed version-00 record with nonzero identifiers.
pub fn parse_traceparent(s: &str) -> (r: Option<SpanContextData>)
    ensures
        r == spec_parse_traceparent(s@),
{
    if s.unicode_len() != 55 {
        return None;
    }
    if s.get_char(2) != '-' || s.get_char(35) != '-' || s.get_char(52) != '-' {
        return None;
    }
    let version = match parse_hex_range(s, 0, 2) {
        Some(v) => v,
        None => {
            return None;
        },
    };
    let trace_id = match parse_hex_range(s, 3, 35) {
        Some(v) => v,
        None => {
            return None;
        },
    };
    let span_id_wide = match parse_hex_range(s, 36, 52) {
        Some(v) => v,
        None => {
            return None;
        },
    };
    let flags = match parse_hex_range(s, 53, 55) {
        Some(v) => v,
        None => {
            return None;
        },
    };
    if version != 0 || trace_id == 0 || span_id_wide == 0 {
        return None;
    }
    proof {
        lemma_parse_hex_bound(s@.subrange(36, 52));
        crate::text::lemma_pow16_values();
    }
    let span_id: u64 = span_id_wide as u64;
    let sampled: bool = flags % 2 == 1;
    Some(SpanContextData { trace_id, span_id, sampled })
}

/// Injecting a context and re-extracting it is the identity: for any
/// valid context, parsing the rendered `traceparent` value yields the
/// same trace id, span id and sampling flag.
pub proof fn lemma_traceparent_round_trip(ctx: SpanContextData)
    requires
        spec_context_valid(ctx),
    ensures
        spec_parse_traceparent(spec_traceparent(ctx)) == Some(ctx),
{
    let s = spec_traceparent(ctx);
    let flags: nat = if ctx.sampled {
        1
    } else {
        0
    };
    reveal_strlit("-");
    assert("-"@ =~= seq!['-']);
    crate::text::lemma_pow16_values();
    lemma_hex_round_trip(0, 2);
    lemma_hex_round_trip(ctx.trace_id as nat, 32);
    lemma_hex_round_trip(ctx.span_id as nat, 16);
    lemma_hex_round_trip(flags, 2);
    assert(s.len() == 55);
    assert(s.subrange(0, 2) =~= spec_hex(0, 2));
    assert(s[2] == '-');
    assert(s.subrange(3, 35) =~= spec_hex(ctx.trace_id as nat, 32));
    assert(s[35] == '-');
    assert(s.subrange(36, 52) =~= spec_hex(ctx.span_id as nat, 16));
    assert(s[52] == '-');
    assert(s.subrange(53, 55) =~= spec_hex(flags, 2));
}

/// What extraction from a header list yields: the parse of the textual
/// value of the first `traceparent` header, under any ASCII casing of
/// that name; `None` when the header is absent or malformed.
pub open spec fn spec_extract_context(hs: Seq<HeaderPair>) -> Option<SpanContextData> {
    match spec_header_lookup(hs, "traceparent"@) {
        Some(p) => spec_parse_traceparent(spec_header_text(p)),
        None => None,
    }
}

/// Extracts the upstream trace context from inbound headers.  A missing
/// or invalid header yields `None`: the caller then starts a fresh
/// root span rather than failing.
pub fn extract_context(headers: &Vec<HeaderPair>) -> (r: Option<SpanContextData>)
    ensures
        r == spec_extract_context(headers@),
{
    match header_lookup(headers, "traceparent") {
        Some(p) => {
            if p.is_text {
                parse_traceparent(p.value.as_str())
            } else {
                None
            }
        },
        None => None,
    }
}

} // verus!
