//! Posting a track along a river.

use vstd::prelude::*;

verus! {

/// A new track: its river, name, description and points (`[lat, long]`,
/// each coordinate of type `C`).
#[derive(Debug, Clone, PartialEq)]
pub struct Request<C> {
    pub river_id: i64,
    pub track_name: String,
    pub description: String,
    pub track: Vec<(C, C)>,
}

/// The id the new track was given.
#[derive(Debug, Clone, Copy, PartialEq, Eq)]
pub struct Response {
    pub river_track_id: i64,
}

} // verus!
