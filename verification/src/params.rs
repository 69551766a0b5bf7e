//! The parameters of the operations, and the keys and content types that
//! follow from them.

use crate::config::text_of;
use crate::text::chars_of;
use vstd::prelude::*;
use vstd::string::*;

verus! {

/// How a listing is narrowed.
#[derive(Debug, Clone, PartialEq, Eq)]
pub struct OssListParams {
    pub prefix: Option<String>,
    pub delimiter: Option<String>,
    /// Accepted, and not applied to the listing.
    pub max_keys: Option<u32>,
}

/// What is uploaded, and where to.
#[derive(Debug, PartialEq, Eq)]
pub struct OssUploadParams {
    pub file_name: String,
    pub file_data: Vec<u8>,
    pub content_type: Option<String>,
    pub path: Option<String>,
}

/// The object to download.
#[derive(Debug, PartialEq, Eq)]
pub struct OssDownloadParams {
    pub key: String,
}

/// The object to delete.
#[derive(Debug, PartialEq, Eq)]
pub struct OssDeleteParams {
    pub key: String,
}

/// The folder to create, and where.
#[derive(Debug, PartialEq, Eq)]
pub struct OssCreateFolderParams {
    pub folder_name: String,
    pub path: Option<String>,
}

/// The prefix a listing is made under: the given one, or none.
pub open spec fn prefix_of(params: Option<OssListParams>) -> Seq<char> {
    match params {
        Some(OssListParams { prefix: Some(prefix), .. }) => prefix@,
        _ => Seq::empty(),
    }
}

/// The delimiter a listing groups by: the given one, or `/`.
pub open spec fn delimiter_of(params: Option<OssListParams>) -> Seq<char> {
    match params {
        Some(OssListParams { delimiter: Some(delimiter), .. }) => delimiter@,
        _ => "/"@,
    }
}

/// The prefix a listing is made under.
pub fn list_prefix(params: &Option<OssListParams>) -> (prefix: String)
    ensures
        prefix@ == prefix_of(*params),
{
    match params {
        Some(OssListParams { prefix: Some(prefix), .. }) => prefix.clone(),
        _ => String::new(),
    }
}

/// The delimiter a listing groups by.
pub fn list_delimiter(params: &Option<OssListParams>) -> (delimiter: String)
    ensures
        delimiter@ == delimiter_of(*params),
{
    match params {
        Some(OssListParams { delimiter: Some(delimiter), .. }) => delimiter.clone(),
        _ => String::from_str("/"),
    }
}

/// A path without one trailing `/`, where it ends in one.
pub open spec fn without_trailing_slash(path: Seq<char>) -> Seq<char> {
    if path.len() > 0 && path.last() == '/' {
        path.drop_last()
    } else {
        path
    }
}

/// The key of `name` under an optional path: the name alone where the path
/// is absent or empty, else the path without one trailing `/`, a `/`, and
/// the name.
pub open spec fn joined_key(path: Option<Seq<char>>, name: Seq<char>) -> Seq<char> {
    match path {
        Some(p) => if p.len() == 0 {
            name
        } else {
            without_trailing_slash(p) + "/"@ + name
        },
        None => name,
    }
}

/// The key of a folder: that of its name under the path, and a closing `/`.
pub open spec fn joined_folder_key(path: Option<Seq<char>>, name: Seq<char>) -> Seq<char> {
    joined_key(path, name) + "/"@
}

/// Drops one trailing `/` from a path.
pub fn trim_trailing_slash<'a>(path: &'a str) -> (r: &'a str)
    ensures
        r@ == without_trailing_slash(path@),
{
    let chars = chars_of(path);
    let n = chars.len();
    if n > 0 && chars[n - 1] == '/' {
        path.substring_char(0, n - 1)
    } else {
        path
    }
}

/// Joins an optional path and a name into a key.
pub fn join_key(path: &Option<String>, name: &str) -> (key: String)
    ensures
        key@ == joined_key(text_of(*path), name@),
{
    match path {
        Some(p) => {
            if p.as_str().unicode_len() == 0 {
                String::from_str(name)
            } else {
                String::from_str(trim_trailing_slash(p.as_str())).concat("/").concat(name)
            }
        },
        None => String::from_str(name),
    }
}

/// The key that an upload is stored under.
pub fn upload_key(params: &OssUploadParams) -> (key: String)
    ensures
        key@ == joined_key(text_of(params.path), params.file_name@),
{
    join_key(&params.path, params.file_name.as_str())
}

/// The key of the empty object that stands for a new folder.
pub fn folder_key(params: &OssCreateFolderParams) -> (key: String)
    ensures
        key@ == joined_folder_key(text_of(params.path), params.folder_name@),
{
    join_key(&params.path, params.folder_name.as_str()).concat("/")
}

/// Calls `mime_guess::from_path` on the file name and takes
/// `first_or_octet_stream` of the guess, as text. The guess comes from the
/// extension, by a table that differs between versions of `mime_guess`, so
/// nothing is claimed of the result.
#[verifier::external_body]
fn guess_content_type(file_name: &str) -> (guess: String) {
    mime_guess::from_path(file_name).first_or_octet_stream().to_string()
}

/// The content type of an upload, given the guess from its file name: the
/// caller's where one was supplied, else the guess.
pub fn choose_content_type(supplied: &Option<String>, guess: String) -> (r: String)
    ensures
        r@ == match *supplied {
            Some(given) => given@,
            None => guess@,
        },
{
    match supplied {
        Some(given) => given.clone(),
        None => guess,
    }
}

/// The content type that an upload is stored with: the caller's where one
/// was supplied, else what the file name's extension suggests.
pub fn upload_content_type(params: &OssUploadParams) -> (r: String)
    ensures
        params.content_type matches Some(given) ==> r@ == given@,
{
    choose_content_type(&params.content_type, guess_content_type(params.file_name.as_str()))
}

} // verus!
