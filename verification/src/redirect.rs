//! Reading the corrected endpoint out of a provider's redirect error.

use crate::config::text_of;
use crate::text::{
    begins_with, chars_of, find_in, first_index_of, lemma_first_index_is, matches_at,
    starts_with, tail_from, trim, trim_bounds,
};
use vstd::prelude::*;
use vstd::string::*;

verus! {

/// The endpoint that an error text carries between `<Endpoint>` and the
/// next `</Endpoint>`, trimmed; `None` where the first opening tag or a
/// closing tag after it is missing, or nothing but white space lies between.
pub open spec fn extracted_endpoint(text: Seq<char>) -> Option<Seq<char>> {
    match first_index_of(text, "<Endpoint>"@) {
        None => None,
        Some(p) => {
            let rest = text.skip(p + "<Endpoint>"@.len());
            match first_index_of(rest, "</Endpoint>"@) {
                None => None,
                Some(q) => {
                    let inner = trim(rest.take(q));
                    if inner.len() == 0 {
                        None
                    } else {
                        Some(inner)
                    }
                },
            }
        },
    }
}

/// An endpoint with a scheme: itself where it has one, else under `https`.
pub open spec fn with_scheme(endpoint: Seq<char>) -> Seq<char> {
    if starts_with(endpoint, "http://"@) || starts_with(endpoint, "https://"@) {
        endpoint
    } else {
        "https://"@ + endpoint
    }
}

/// Scans an error text for the endpoint that a redirect error embeds.
pub fn extract_endpoint_from_error_xml(err_text: &str) -> (r: Option<String>)
    ensures
        text_of(r) == extracted_endpoint(err_text@),
{
    let open = "<Endpoint>";
    let p = match find_in(err_text, open) {
        Some(p) => p,
        None => { return None; },
    };
    let rest = tail_from(err_text, p + open.unicode_len());
    let q = match find_in(rest, "</Endpoint>") {
        Some(q) => q,
        None => { return None; },
    };
    let chars = chars_of(rest);
    let (a, b) = trim_bounds(&chars, 0, q);
    if a == b {
        return None;
    }
    Some(String::from_str(rest.substring_char(a, b)))
}

/// Puts `https://` before an endpoint that names no scheme.
pub fn ensure_scheme(endpoint: &str) -> (r: String)
    ensures
        r@ == with_scheme(endpoint@),
{
    if begins_with(endpoint, "http://") || begins_with(endpoint, "https://") {
        String::from_str(endpoint)
    } else {
        String::from_str("https://").concat(endpoint)
    }
}

/// A text made of a tag pair and what surrounds it.
pub open spec fn tagged(before: Seq<char>, inner: Seq<char>, after: Seq<char>) -> Seq<char> {
    before + "<Endpoint>"@ + inner + "</Endpoint>"@ + after
}

/// From a text whose first opening tag is followed by `inner` and a closing
/// tag, with no closing tag earlier in between, the endpoint read is `inner`
/// trimmed, whatever stands before the pair and after it; none where
/// `inner` is white space only.
pub proof fn lemma_extracts_first_tag_pair(before: Seq<char>, inner: Seq<char>, after: Seq<char>)
    requires
        forall|j: int|
            0 <= j < before.len() ==> !matches_at(tagged(before, inner, after), "<Endpoint>"@, j),
        forall|j: int|
            0 <= j < inner.len() ==> !matches_at(
                inner + "</Endpoint>"@ + after,
                "</Endpoint>"@,
                j,
            ),
    ensures
        extracted_endpoint(tagged(before, inner, after)) == if trim(inner).len() == 0 {
            None
        } else {
            Some(trim(inner))
        },
{
    let text = tagged(before, inner, after);
    let open = "<Endpoint>"@;
    let close = "</Endpoint>"@;
    let p = before.len() as int;
    assert(text.subrange(p, p + open.len()) =~= open);
    lemma_first_index_is(text, open, p);
    let rest = text.skip(p + open.len());
    assert(rest =~= inner + close + after);
    let q = inner.len() as int;
    assert(rest.subrange(q, q + close.len()) =~= close);
    lemma_first_index_is(rest, close, q);
    assert(rest.take(q) =~= inner);
}

/// A text without an opening tag carries no endpoint, and neither does one
/// without a closing tag after its first opening tag.
pub proof fn lemma_no_tag_pair_no_endpoint(text: Seq<char>)
    requires
        first_index_of(text, "<Endpoint>"@) is None || first_index_of(
            text.skip(first_index_of(text, "<Endpoint>"@)->0 + "<Endpoint>"@.len()),
            "</Endpoint>"@,
        ) is None,
    ensures
        extracted_endpoint(text) is None,
{
}

} // verus!
