//! Shaping what the storage backend lists into the items a caller sees.

use crate::config::text_of;
use crate::timestamp::{normalize_timestamp, normalized};
use vstd::prelude::*;

verus! {

/// One entry of a listing: a directory or a file.
#[derive(Debug, Clone, PartialEq, Eq)]
pub struct OssFileItem {
    pub key: String,
    pub size: u64,
    pub last_modified: Option<String>,
    pub is_directory: bool,
}

/// An `OssFileItem` over character sequences.
pub ghost struct ItemView {
    pub key: Seq<char>,
    pub size: nat,
    pub last_modified: Option<Seq<char>>,
    pub is_directory: bool,
}

impl View for OssFileItem {
    type V = ItemView;

    open spec fn view(&self) -> ItemView {
        ItemView {
            key: self.key@,
            size: self.size as nat,
            last_modified: text_of(self.last_modified),
            is_directory: self.is_directory,
        }
    }
}

impl ItemView {
    /// A directory has size 0 and no timestamp.
    pub open spec fn well_formed(self) -> bool {
        self.is_directory ==> self.size == 0 && self.last_modified is None
    }
}

/// One bucket of an account.
#[derive(Debug, Clone, PartialEq, Eq)]
pub struct OssBucketSummary {
    pub name: String,
    pub creation_date: Option<String>,
}

/// A content entry as the storage backend lists it.
#[derive(Debug, Clone, PartialEq, Eq)]
pub struct ListedObject {
    pub key: String,
    pub size: u64,
    pub last_modified: String,
}

/// One page of a listing as the storage backend returns it.
#[derive(Debug, Clone, PartialEq, Eq)]
pub struct ListedPage {
    /// The common prefixes under the delimiter, where the page has that group.
    pub common_prefixes: Option<Vec<String>>,
    pub contents: Vec<ListedObject>,
}

/// A bucket as the storage backend lists it.
#[derive(Debug, Clone, PartialEq, Eq)]
pub struct ListedBucket {
    pub name: String,
    pub creation_date: String,
}

/// The item that stands for a common prefix: a directory of size 0 with no
/// timestamp.
pub open spec fn directory_item(prefix: Seq<char>) -> ItemView {
    ItemView { key: prefix, size: 0, last_modified: None, is_directory: true }
}

/// The item that stands for a content entry: a file with its size and its
/// timestamp, normalized where it can be read.
pub open spec fn file_item(object: ListedObject) -> ItemView {
    ItemView {
        key: object.key@,
        size: object.size as nat,
        last_modified: normalized(object.last_modified@),
        is_directory: false,
    }
}

/// The common prefixes of a page; none where the page has no such group.
pub open spec fn prefixes_of(page: ListedPage) -> Seq<String> {
    match page.common_prefixes {
        Some(group) => group@,
        None => Seq::empty(),
    }
}

/// `items` is a page shaped: a directory for each common prefix, in order,
/// and after them a file for each content entry, in order.
pub open spec fn is_shaped(items: Seq<OssFileItem>, page: ListedPage) -> bool {
    let dirs = prefixes_of(page);
    &&& items.len() == dirs.len() + page.contents@.len()
    &&& forall|i: int| 0 <= i < dirs.len() ==> (#[trigger] items[i])@ == directory_item(dirs[i]@)
    &&& forall|j: int|
        0 <= j < page.contents@.len() ==> (#[trigger] items[dirs.len() + j])@ == file_item(
            page.contents@[j],
        )
}

/// Shapes a listing into items. Only the first page counts: directories
/// first, then files. No pages give no items.
pub fn shape_listing(pages: &Vec<ListedPage>) -> (items: Vec<OssFileItem>)
    ensures
        pages@.len() == 0 ==> items@.len() == 0,
        pages@.len() > 0 ==> is_shaped(items@, pages@[0]),
        forall|i: int| 0 <= i < items@.len() ==> (#[trigger] items@[i])@.well_formed(),
{
    let mut items: Vec<OssFileItem> = Vec::new();
    if pages.len() == 0 {
        return items;
    }
    let page = &pages[0];
    if let Some(group) = &page.common_prefixes {
        let mut i: usize = 0;
        while i < group.len()
            invariant
                i <= group.len(),
                items@.len() == i,
                forall|k: int| 0 <= k < i ==> (#[trigger] items@[k])@ == directory_item(group@[k]@),
            decreases group.len() - i,
        {
            items.push(
                OssFileItem {
                    key: group[i].clone(),
                    size: 0,
                    last_modified: None,
                    is_directory: true,
                },
            );
            i += 1;
        }
    }
    let ghost dirs = prefixes_of(*page);
    let mut j: usize = 0;
    while j < page.contents.len()
        invariant
            j <= page.contents.len(),
            dirs == prefixes_of(*page),
            items@.len() == dirs.len() + j,
            forall|k: int| 0 <= k < dirs.len() ==> (#[trigger] items@[k])@ == directory_item(dirs[k]@),
            forall|k: int|
                0 <= k < j ==> (#[trigger] items@[dirs.len() + k])@ == file_item(page.contents@[k]),
        decreases page.contents.len() - j,
    {
        let object = &page.contents[j];
        let ghost before = items@;
        items.push(
            OssFileItem {
                key: object.key.clone(),
                size: object.size,
                last_modified: normalize_timestamp(object.last_modified.as_str()),
                is_directory: false,
            },
        );
        assert forall|k: int| 0 <= k < j + 1 implies (#[trigger] items@[dirs.len() + k])@
            == file_item(page.contents@[k]) by {
            if k < j {
                assert(items@[dirs.len() + k] == before[dirs.len() + k]);
            }
        }
        j += 1;
    }
    assert forall|i: int| 0 <= i < items@.len() implies (#[trigger] items@[i])@.well_formed() by {
        if i >= dirs.len() {
            assert(items@[dirs.len() + (i - dirs.len())]@ == file_item(
                page.contents@[i - dirs.len()],
            ));
        }
    }
    items
}

/// `summaries` gives each listed bucket, in order, with its name and its
/// creation date as it came.
pub open spec fn is_summarized(summaries: Seq<OssBucketSummary>, buckets: Seq<ListedBucket>) -> bool {
    &&& summaries.len() == buckets.len()
    &&& forall|i: int|
        0 <= i < buckets.len() ==> (#[trigger] summaries[i]).name@ == buckets[i].name@
            && text_of(summaries[i].creation_date) == Some(buckets[i].creation_date@)
}

/// Shapes the buckets of an account into summaries.
pub fn shape_buckets(buckets: &Vec<ListedBucket>) -> (summaries: Vec<OssBucketSummary>)
    ensures
        is_summarized(summaries@, buckets@),
{
    let mut summaries: Vec<OssBucketSummary> = Vec::new();
    let mut i: usize = 0;
    while i < buckets.len()
        invariant
            i <= buckets.len(),
            summaries@.len() == i,
            forall|k: int|
                0 <= k < i ==> (#[trigger] summaries@[k]).name@ == buckets@[k].name@ && text_of(
                    summaries@[k].creation_date,
                ) == Some(buckets@[k].creation_date@),
        decreases buckets.len() - i,
    {
        summaries.push(
            OssBucketSummary {
                name: buckets[i].name.clone(),
                creation_date: Some(buckets[i].creation_date.clone()),
            },
        );
        i += 1;
    }
    summaries
}

} // verus!
