//! Plain-value models of the HTTP request/response data that the
//! middleware reads: method, URI parts, a header multimap with
//! case-insensitive lookup, the router's matched route template, and the
//! outcome (status code or error) of the wrapped handler.

use vstd::prelude::*;
use vstd::string::StringExecFns;
use crate::text::spec_eq_ignore_case;
use crate::text::eq_ignore_ascii_case;

verus! {

/// One request or response header.  `value` holds the header value
/// decoded as text where that is possible; `is_text` records whether it
/// was.  Lookups that need a textual value treat a non-text header as
/// carrying the empty string.
#[derive(Debug, Clone, PartialEq, Eq)]
pub struct HeaderPair {
    pub name: String,
    pub value: String,
    pub is_text: bool,
}

/// What an inbound request exposes to the middleware.
#[derive(Debug, Clone)]
pub struct RequestInfo {
    pub method: String,
    pub path: String,
    pub query: Option<String>,
    pub uri_host: Option<String>,
    pub headers: Vec<HeaderPair>,
    pub matched_route: Option<String>,
}

/// What a produced response exposes to the middleware.
#[derive(Debug, Clone)]
pub struct ResponseInfo {
    pub status: u16,
    pub headers: Vec<HeaderPair>,
}

/// A handler error, reduced to its message and the message of its
/// underlying cause where one is exposed.
#[derive(Debug, Clone, PartialEq, Eq)]
pub struct ErrorInfo {
    pub message: String,
    pub source_message: Option<String>,
}

/// The textual value of a header: its value where it decoded as text,
/// the empty string otherwise.
pub open spec fn spec_header_text(p: HeaderPair) -> Seq<char> {
    if p.is_text {
        p.value@
    } else {
        Seq::empty()
    }
}

/// The first header of `hs` whose name equals `name` up to ASCII case.
pub open spec fn spec_header_lookup(hs: Seq<HeaderPair>, name: Seq<char>) -> Option<HeaderPair>
    decreases hs.len(),
{
    if hs.len() == 0 {
        None
    } else if spec_eq_ignore_case(hs[0].name@, name) {
        Some(hs[0])
    } else {
        spec_header_lookup(hs.drop_first(), name)
    }
}

/// The index of the first header of `hs` whose name equals `name` up
/// to ASCII case, if any.
pub open spec fn spec_find_header(hs: Seq<HeaderPair>, name: Seq<char>) -> Option<int>
    decreases hs.len(),
{
    if hs.len() == 0 {
        None
    } else if spec_eq_ignore_case(hs[0].name@, name) {
        Some(0)
    } else {
        match spec_find_header(hs.drop_first(), name) {
            Some(i) => Some(i + 1),
            None => None,
        }
    }
}

/// Where no header name matches at all, there is no first match.
pub proof fn lemma_find_header_none(hs: Seq<HeaderPair>, name: Seq<char>)
    requires
        forall|j: int| 0 <= j < hs.len() ==> !spec_eq_ignore_case(#[trigger] hs[j].name@, name),
    ensures
        spec_find_header(hs, name) is None,
    decreases hs.len(),
{
    if hs.len() > 0 {
        assert forall|j: int|
            0 <= j < hs.drop_first().len() implies !spec_eq_ignore_case(
            #[trigger] hs.drop_first()[j].name@,
            name,
        ) by {
            assert(hs.drop_first()[j] == hs[j + 1]);
        };
        lemma_find_header_none(hs.drop_first(), name);
    }
}

/// A match at `i` with none before it is the first match.
pub proof fn lemma_find_header_at(hs: Seq<HeaderPair>, i: int, name: Seq<char>)
    requires
        0 <= i < hs.len(),
        forall|j: int| 0 <= j < i ==> !spec_eq_ignore_case(#[trigger] hs[j].name@, name),
        spec_eq_ignore_case(hs[i].name@, name),
    ensures
        spec_find_header(hs, name) == Some(i),
    decreases i,
{
    if i > 0 {
        assert forall|j: int|
            0 <= j < i - 1 implies !spec_eq_ignore_case(
            #[trigger] hs.drop_first()[j].name@,
            name,
        ) by {
            assert(hs.drop_first()[j] == hs[j + 1]);
        };
        assert(hs.drop_first()[i - 1] == hs[i]);
        lemma_find_header_at(hs.drop_first(), i - 1, name);
    }
}

/// Finds the first header whose name matches `name` case-insensitively.
pub fn header_lookup<'a>(headers: &'a Vec<HeaderPair>, name: &str) -> (r: Option<&'a HeaderPair>)
    ensures
        match r {
            Some(p) => spec_header_lookup(headers@, name@) == Some(*p),
            None => spec_header_lookup(headers@, name@) is None,
        },
{
    let mut i: usize = 0;
    proof {
        assert(headers@.skip(0) =~= headers@);
    }
    while i < headers.len()
        invariant
            i <= headers@.len(),
            spec_header_lookup(headers@, name@) == spec_header_lookup(
                headers@.skip(i as int),
                name@,
            ),
        decreases headers@.len() - i,
    {
        proof {
            assert(headers@.skip(i as int)[0] == headers@[i as int]);
            assert(headers@.skip(i as int).drop_first() =~= headers@.skip(i + 1));
        }
        if eq_ignore_ascii_case(headers[i].name.as_str(), name) {
            return Some(&headers[i]);
        }
        i = i + 1;
    }
    proof {
        assert(headers@.skip(i as int).len() == 0);
    }
    None
}

/// Whether a header name is one of the two credential-bearing names
/// that must never reach the serialized headers attribute.
pub open spec fn spec_is_secret_name(name: Seq<char>) -> bool {
    spec_eq_ignore_case(name, "authorization"@) || spec_eq_ignore_case(name, "idtoken"@)
}

/// `hs` with every credential-bearing header removed, order kept.
pub open spec fn spec_filter_headers(hs: Seq<HeaderPair>) -> Seq<HeaderPair>
    decreases hs.len(),
{
    if hs.len() == 0 {
        Seq::empty()
    } else if spec_is_secret_name(hs.last().name@) {
        spec_filter_headers(hs.drop_last())
    } else {
        spec_filter_headers(hs.drop_last()).push(hs.last())
    }
}

fn is_secret_name(name: &str) -> (r: bool)
    ensures
        r == spec_is_secret_name(name@),
{
    eq_ignore_ascii_case(name, "authorization") || eq_ignore_ascii_case(name, "idtoken")
}

/// Copies `headers`, dropping `authorization` and `idtoken` headers
/// under any ASCII casing of those names.
pub fn filter_headers(headers: &Vec<HeaderPair>) -> (r: Vec<HeaderPair>)
    ensures
        r@ == spec_filter_headers(headers@),
{
    let mut out: Vec<HeaderPair> = Vec::new();
    let mut i: usize = 0;
    while i < headers.len()
        invariant
            i <= headers@.len(),
            out@ == spec_filter_headers(headers@.take(i as int)),
        decreases headers@.len() - i,
    {
        proof {
            assert(headers@.take(i + 1).drop_last() =~= headers@.take(i as int));
            assert(headers@.take(i + 1).last() == headers@[i as int]);
        }
        if !is_secret_name(headers[i].name.as_str()) {
            let p = &headers[i];
            out.push(
                HeaderPair {
                    name: p.name.clone(),
                    value: p.value.clone(),
                    is_text: p.is_text,
                },
            );
            proof {
                assert(out@.last() == headers@[i as int]);
                assert(out@.drop_last() =~= spec_filter_headers(headers@.take(i as int)));
                assert(out@ =~= spec_filter_headers(headers@.take(i + 1)));
            }
        }
        i = i + 1;
    }
    proof {
        assert(headers@.take(headers@.len() as int) =~= headers@);
    }
    out
}

/// No header kept by the filter carries a credential-bearing name,
/// whatever casing the request used: the standing security invariant of
/// the serialized headers attribute.
pub proof fn lemma_filtered_headers_hold_no_secrets(hs: Seq<HeaderPair>)
    ensures
        forall|i: int|
            0 <= i < spec_filter_headers(hs).len() ==> !spec_is_secret_name(
                #[trigger] spec_filter_headers(hs)[i].name@,
            ),
    decreases hs.len(),
{
    if hs.len() == 0 {
    } else {
        lemma_filtered_headers_hold_no_secrets(hs.drop_last());
        let rest = spec_filter_headers(hs.drop_last());
        let whole = spec_filter_headers(hs);
        if spec_is_secret_name(hs.last().name@) {
            assert(whole == rest);
        } else {
            assert(whole == rest.push(hs.last()));
            assert forall|i: int| 0 <= i < whole.len() implies !spec_is_secret_name(
                #[trigger] whole[i].name@,
            ) by {
                if i < rest.len() {
                    assert(whole[i] == rest[i]);
                } else {
                    assert(whole[i] == hs.last());
                }
            };
        }
    }
}

/// Every header of the incoming list that is not credential-bearing is
/// kept by the filter, in order: filtering loses nothing else.
pub proof fn lemma_filter_headers_complete(hs: Seq<HeaderPair>)
    ensures
        spec_filter_headers(hs) =~= hs.filter(|p: HeaderPair| !spec_is_secret_name(p.name@)),
    decreases hs.len(),
{
    reveal(Seq::filter);
    if hs.len() == 0 {
        assert(hs =~= Seq::<HeaderPair>::empty());
    } else {
        lemma_filter_headers_complete(hs.drop_last());
    }
}

} // verus!
