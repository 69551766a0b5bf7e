//! The envelope that a successful call hands to the caller.

use crate::config::text_of;
use crate::operation::Operation;
use vstd::prelude::*;

verus! {

/// The result of a call, as the caller receives it.
#[derive(Debug, PartialEq, Eq)]
pub struct OssResult<T> {
    pub success: bool,
    pub data: Option<T>,
    pub message: Option<String>,
    pub error: Option<String>,
}

impl<T> OssResult<T> {
    /// A successful envelope carries its data and no error.
    pub open spec fn well_formed(self) -> bool {
        self.success ==> self.error is None && self.data is Some
    }

    /// The envelope of an operation that succeeded with `data`.
    pub fn succeeded(op: Operation, data: T) -> (r: Self)
        ensures
            r.success,
            r.data == Some(data),
            text_of(r.message) == op.success_text(),
            r.error is None,
            r.well_formed(),
    {
        OssResult { success: true, data: Some(data), message: op.success_message(), error: None }
    }
}

} // verus!
