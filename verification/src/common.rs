//! Records shared by the whole service.

use vstd::prelude::*;

verus! {

/// A page of a listing: the items and the offset it starts at.
#[derive(Debug, Clone, PartialEq, Eq)]
pub struct List<T> {
    pub offset: Option<u32>,
    pub list: T,
}

/// An uploaded file and where its content is stored.
#[derive(Debug, Clone, PartialEq, Eq)]
pub struct File {
    pub file_id: i64,
    pub user_id: i64,
    pub content_type: String,
    pub gcs_path: String,
    pub file_size: i64,
    pub created_at: i64,
}

/// The offset of the page after one that started at `offset` and held
/// `fetched` rows.
pub fn next_offset(offset: i64, fetched: usize) -> (r: i64)
    requires
        fetched <= i64::MAX,
        offset + fetched <= i64::MAX,
    ensures
        r == offset + fetched,
{
    offset + fetched as i64
}

} // verus!
