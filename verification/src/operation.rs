//! The operations of the gateway, their deadlines and their messages.

use crate::config::text_of;
use vstd::prelude::*;
use vstd::string::*;

verus! {

/// One of the six operations a caller can ask for.
#[derive(Debug, Clone, Copy, PartialEq, Eq, Structural)]
pub enum Operation {
    ListBuckets,
    ListObjects,
    Upload,
    Download,
    Delete,
    CreateFolder,
}

impl Operation {
    /// The seconds one attempt of the operation may take.
    pub open spec fn deadline(self) -> nat {
        match self {
            Operation::ListObjects => 30,
            Operation::Upload | Operation::Download => 20,
            Operation::ListBuckets | Operation::Delete | Operation::CreateFolder => 12,
        }
    }

    /// What the caller reads when an attempt ran out of time.
    pub open spec fn timeout_text(self) -> Seq<char> {
        match self {
            Operation::ListBuckets | Operation::ListObjects => "请求超时，请检查网络或 Endpoint 配置"@,
            Operation::Upload => "上传超时，请检查网络或 Endpoint 配置"@,
            Operation::Download => "下载超时，请检查网络或 Endpoint 配置"@,
            Operation::Delete => "删除超时，请检查网络或 Endpoint 配置"@,
            Operation::CreateFolder => "创建文件夹超时，请检查网络或 Endpoint 配置"@,
        }
    }

    /// What the envelope of a successful call says, if anything.
    pub open spec fn success_text(self) -> Option<Seq<char>> {
        match self {
            Operation::ListBuckets | Operation::ListObjects => None,
            Operation::Upload => Some("文件上传成功"@),
            Operation::Download => Some("文件下载成功"@),
            Operation::Delete => Some("文件删除成功"@),
            Operation::CreateFolder => Some("文件夹创建成功"@),
        }
    }

    /// The seconds one attempt of the operation may take.
    pub fn timeout_secs(self) -> (secs: u64)
        ensures
            secs == self.deadline(),
    {
        match self {
            Operation::ListObjects => 30,
            Operation::Upload | Operation::Download => 20,
            Operation::ListBuckets | Operation::Delete | Operation::CreateFolder => 12,
        }
    }

    /// What the caller reads when an attempt ran out of time.
    pub fn timeout_message(self) -> (msg: String)
        ensures
            msg@ == self.timeout_text(),
    {
        match self {
            Operation::ListBuckets | Operation::ListObjects => String::from_str(
                "请求超时，请检查网络或 Endpoint 配置",
            ),
            Operation::Upload => String::from_str("上传超时，请检查网络或 Endpoint 配置"),
            Operation::Download => String::from_str("下载超时，请检查网络或 Endpoint 配置"),
            Operation::Delete => String::from_str("删除超时，请检查网络或 Endpoint 配置"),
            Operation::CreateFolder => String::from_str(
                "创建文件夹超时，请检查网络或 Endpoint 配置",
            ),
        }
    }

    /// What the envelope of a successful call says, if anything.
    pub fn success_message(self) -> (msg: Option<String>)
        ensures
            text_of(msg) == self.success_text(),
    {
        match self {
            Operation::ListBuckets | Operation::ListObjects => None,
            Operation::Upload => Some(String::from_str("文件上传成功")),
            Operation::Download => Some(String::from_str("文件下载成功")),
            Operation::Delete => Some(String::from_str("文件删除成功")),
            Operation::CreateFolder => Some(String::from_str("文件夹创建成功")),
        }
    }
}

} // verus!
