//! Registering a river.

use vstd::prelude::*;

verus! {

/// A new river: its name and the point that locates it (each coordinate of
/// type `C`).
#[derive(Debug, Clone, PartialEq)]
pub struct Request<C> {
    pub name: String,
    pub latitude: C,
    pub longitude: C,
}

/// The id the new river was given.
#[derive(Debug, Clone, Copy, PartialEq, Eq)]
pub struct Response {
    pub river_id: i64,
}

} // verus!
