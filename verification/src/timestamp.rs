//! Bringing the timestamps of a listing to one format.

use crate::config::text_of;
use vstd::prelude::*;

verus! {

/// What `chrono` reads from a text as an RFC 2822 date and time, moved to
/// UTC and written in RFC 3339; `None` where the text is no such date.
pub uninterp spec fn rfc2822_in_utc(text: Seq<char>) -> Option<Seq<char>>;

/// What `chrono` reads from a text as an RFC 3339 date and time, written in
/// RFC 3339 again with the offset it came with; `None` where the text is no
/// such date.
pub uninterp spec fn rfc3339_rewritten(text: Seq<char>) -> Option<Seq<char>>;

/// Calls `chrono::DateTime::parse_from_rfc2822`, and on success converts to
/// UTC and formats with `to_rfc3339`. The result depends on the text alone;
/// nothing more is claimed of it than that it is `rfc2822_in_utc` of the text.
#[verifier::external_body]
fn parse_rfc2822_to_utc(text: &str) -> (r: Option<String>)
    ensures
        text_of(r) == rfc2822_in_utc(text@),
{
    match chrono::DateTime::parse_from_rfc2822(text) {
        Ok(stamp) => Some(chrono::DateTime::<chrono::Utc>::from(stamp).to_rfc3339()),
        Err(_) => None,
    }
}

/// Calls `chrono::DateTime::parse_from_rfc3339`, and on success formats with
/// `to_rfc3339`. The result depends on the text alone; nothing more is
/// claimed of it than that it is `rfc3339_rewritten` of the text.
#[verifier::external_body]
fn parse_rfc3339_again(text: &str) -> (r: Option<String>)
    ensures
        text_of(r) == rfc3339_rewritten(text@),
{
    match chrono::DateTime::parse_from_rfc3339(text) {
        Ok(stamp) => Some(stamp.to_rfc3339()),
        Err(_) => None,
    }
}

/// The first of two readings that succeeded.
pub open spec fn first_reading(first: Option<Seq<char>>, second: Option<Seq<char>>) -> Option<
    Seq<char>,
> {
    match first {
        Some(stamp) => Some(stamp),
        None => second,
    }
}

/// The timestamp of a listing entry in RFC 3339: read as RFC 2822 first,
/// then as RFC 3339; unknown where neither reading succeeds.
pub open spec fn normalized(text: Seq<char>) -> Option<Seq<char>> {
    first_reading(rfc2822_in_utc(text), rfc3339_rewritten(text))
}

/// Picks the first of two readings that succeeded.
pub fn first_parsed(first: Option<String>, second: Option<String>) -> (r: Option<String>)
    ensures
        text_of(r) == first_reading(text_of(first), text_of(second)),
{
    match first {
        Some(stamp) => Some(stamp),
        None => second,
    }
}

/// Normalizes the timestamp of a listing entry; never fails.
pub fn normalize_timestamp(text: &str) -> (r: Option<String>)
    ensures
        text_of(r) == normalized(text@),
{
    first_parsed(parse_rfc2822_to_utc(text), parse_rfc3339_again(text))
}

} // verus!
