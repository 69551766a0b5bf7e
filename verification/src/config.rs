//! The configuration of a call, the result envelope and the error values.

use crate::text::{chars_of, occurs_at};
use vstd::prelude::*;

verus! {

/// What a caller supplies to reach one provider account.
#[derive(Debug, Clone, PartialEq, Eq)]
pub struct OssConfig {
    pub provider: String,
    pub access_key: String,
    pub secret_key: String,
    pub region: Option<String>,
    pub endpoint: Option<String>,
    pub bucket: Option<String>,
}

/// An `OssConfig` as character sequences.
pub ghost struct ConfigView {
    pub provider: Seq<char>,
    pub access_key: Seq<char>,
    pub secret_key: Seq<char>,
    pub region: Option<Seq<char>>,
    pub endpoint: Option<Seq<char>>,
    pub bucket: Option<Seq<char>>,
}

/// The characters of an optional string.
pub open spec fn text_of(o: Option<String>) -> Option<Seq<char>> {
    match o {
        Some(s) => Some(s@),
        None => None,
    }
}

impl View for OssConfig {
    type V = ConfigView;

    open spec fn view(&self) -> ConfigView {
        ConfigView {
            provider: self.provider@,
            access_key: self.access_key@,
            secret_key: self.secret_key@,
            region: text_of(self.region),
            endpoint: text_of(self.endpoint),
            bucket: text_of(self.bucket),
        }
    }
}

/// A copy of an optional string.
pub fn copy_text(o: &Option<String>) -> (r: Option<String>)
    ensures
        text_of(r) == text_of(*o),
{
    match o {
        Some(s) => Some(s.clone()),
        None => None,
    }
}

/// Whether two strings hold the same characters.
pub fn same_text(a: &str, b: &str) -> (r: bool)
    ensures
        r == (a@ == b@),
{
    let x = chars_of(a);
    let y = chars_of(b);
    let r = x.len() == y.len() && occurs_at(&x, &y, 0);
    assert(x@.subrange(0, x@.len() as int) =~= x@);
    r
}

} // verus!
