//! The failures a call can end in.

use crate::operation::Operation;
use vstd::prelude::*;
use vstd::string::*;

verus! {

/// Why a call failed.
#[derive(Debug, Clone, PartialEq, Eq)]
pub enum OssError {
    /// The provider is none of the supported ones; holds its name.
    UnsupportedProvider(String),
    /// An object-level operation was asked for without a bucket.
    MissingBucket,
    /// An attempt of the operation ran past its deadline.
    OperationTimeout(Operation),
    /// The storage backend refused the request; holds its text.
    ProviderError(String),
}

impl OssError {
    /// The text that the caller is shown for this failure.
    pub open spec fn text(self) -> Seq<char> {
        match self {
            OssError::UnsupportedProvider(name) => "不支持的云厂商: "@ + name@,
            OssError::MissingBucket => "Missing bucket name"@,
            OssError::OperationTimeout(op) => op.timeout_text(),
            OssError::ProviderError(text) => text@,
        }
    }

    /// The text that the caller is shown for this failure.
    pub fn message(&self) -> (msg: String)
        ensures
            msg@ == self.text(),
    {
        match self {
            OssError::UnsupportedProvider(name) => String::from_str("不支持的云厂商: ").concat(
                name.as_str(),
            ),
            OssError::MissingBucket => String::from_str("Missing bucket name"),
            OssError::OperationTimeout(op) => op.timeout_message(),
            OssError::ProviderError(text) => text.clone(),
        }
    }
}

} // verus!
