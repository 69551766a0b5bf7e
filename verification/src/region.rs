//! Recovering a provider's region code from an endpoint.

use crate::config::{same_text, text_of};
use crate::text::{
    begins_with, cut_until, find_in, first_index_of, starts_with, tail_from, until,
};
use vstd::prelude::*;
use vstd::string::*;

verus! {

/// The host of an endpoint: what follows the scheme, up to the first `/`.
pub open spec fn host_of(endpoint: Seq<char>) -> Seq<char> {
    let after = match first_index_of(endpoint, "://"@) {
        Some(p) => endpoint.skip(p + "://"@.len()),
        None => endpoint,
    };
    until(after, "/"@)
}

/// The part of `host` from the first `prefix` up to the first `suffix`,
/// where both occur and the suffix comes later.
pub open spec fn between_markers(host: Seq<char>, prefix: Seq<char>, suffix: Seq<char>) -> Option<
    Seq<char>,
> {
    match (first_index_of(host, prefix), first_index_of(host, suffix)) {
        (Some(p), Some(s)) => if s > p {
            Some(host.subrange(p, s))
        } else {
            None
        },
        _ => None,
    }
}

/// The second dot-separated label of `host`, where there are at least three
/// labels and the first is `first`.
pub open spec fn second_label(host: Seq<char>, first: Seq<char>) -> Option<Seq<char>> {
    match first_index_of(host, "."@) {
        None => None,
        Some(d1) => {
            let rest = host.skip(d1 + "."@.len());
            match first_index_of(rest, "."@) {
                None => None,
                Some(d2) => if host.take(d1) == first {
                    Some(rest.take(d2))
                } else {
                    None
                },
            }
        },
    }
}

/// What follows `prefix` in `host` up to the first dot, where `host` begins
/// with `prefix`.
pub open spec fn label_after(host: Seq<char>, prefix: Seq<char>) -> Option<Seq<char>> {
    if starts_with(host, prefix) {
        Some(until(host.skip(prefix.len() as int), "."@))
    } else {
        None
    }
}

/// The region that an endpoint of a provider names, by the provider's
/// hostname pattern; `None` where the host has another shape or the provider
/// has no pattern.
pub open spec fn inferred_region(provider: Seq<char>, endpoint: Seq<char>) -> Option<Seq<char>> {
    let host = host_of(endpoint);
    if provider == "aliyun"@ {
        between_markers(host, "oss-"@, ".aliyuncs.com"@)
    } else if provider == "tencent"@ {
        second_label(host, "cos"@)
    } else if provider == "huawei"@ {
        second_label(host, "obs"@)
    } else if provider == "jdcloud"@ {
        second_label(host, "s3"@)
    } else if provider == "ksyun"@ {
        label_after(host, "ks3-"@)
    } else if provider == "qingcloud"@ {
        second_label(host, "s3"@)
    } else if provider == "qiniu"@ {
        label_after(host, "s3-"@)
    } else {
        None
    }
}

/// The host of an endpoint.
pub fn host_part<'a>(endpoint: &'a str) -> (host: &'a str)
    ensures
        host@ == host_of(endpoint@),
{
    let scheme_end = "://";
    let after = match find_in(endpoint, scheme_end) {
        Some(p) => tail_from(endpoint, p + scheme_end.unicode_len()),
        None => endpoint,
    };
    cut_until(after, "/")
}

/// The part of `host` between two markers.
pub fn region_between(host: &str, prefix: &str, suffix: &str) -> (r: Option<String>)
    ensures
        text_of(r) == between_markers(host@, prefix@, suffix@),
{
    match (find_in(host, prefix), find_in(host, suffix)) {
        (Some(p), Some(s)) => if s > p {
            Some(String::from_str(host.substring_char(p, s)))
        } else {
            None
        },
        _ => None,
    }
}

/// The second label of `host` where the first is `first`.
pub fn region_second_label(host: &str, first: &str) -> (r: Option<String>)
    ensures
        text_of(r) == second_label(host@, first@),
{
    let dot = ".";
    let d1 = match find_in(host, dot) {
        Some(d1) => d1,
        None => { return None; },
    };
    let rest = tail_from(host, d1 + dot.unicode_len());
    let d2 = match find_in(rest, dot) {
        Some(d2) => d2,
        None => { return None; },
    };
    if same_text(host.substring_char(0, d1), first) {
        Some(String::from_str(rest.substring_char(0, d2)))
    } else {
        None
    }
}

/// The label that follows `prefix` at the start of `host`.
pub fn region_after_prefix(host: &str, prefix: &str) -> (r: Option<String>)
    ensures
        text_of(r) == label_after(host@, prefix@),
{
    if begins_with(host, prefix) {
        let rest = tail_from(host, prefix.unicode_len());
        Some(String::from_str(cut_until(rest, ".")))
    } else {
        None
    }
}

/// Recovers the provider's region code from a corrected endpoint, which may
/// be a URL or a bare host.
pub fn infer_region_from_endpoint(provider: &str, endpoint: &str) -> (r: Option<String>)
    ensures
        text_of(r) == inferred_region(provider@, endpoint@),
{
    let host = host_part(endpoint);
    if same_text(provider, "aliyun") {
        region_between(host, "oss-", ".aliyuncs.com")
    } else if same_text(provider, "tencent") {
        region_second_label(host, "cos")
    } else if same_text(provider, "huawei") {
        region_second_label(host, "obs")
    } else if same_text(provider, "jdcloud") {
        region_second_label(host, "s3")
    } else if same_text(provider, "ksyun") {
        region_after_prefix(host, "ks3-")
    } else if same_text(provider, "qingcloud") {
        region_second_label(host, "s3")
    } else if same_text(provider, "qiniu") {
        region_after_prefix(host, "s3-")
    } else {
        None
    }
}

} // verus!
