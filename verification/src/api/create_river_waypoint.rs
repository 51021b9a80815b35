//! Placing a waypoint on a river.

use vstd::prelude::*;

verus! {

/// A new waypoint: its river, name and position (each coordinate of type `C`).
#[derive(Debug, Clone, PartialEq)]
pub struct Request<C> {
    pub river_id: i64,
    pub name: String,
    pub latitude: C,
    pub longitude: C,
}

/// The id the new waypoint was given.
#[derive(Debug, Clone, Copy, PartialEq, Eq)]
pub struct Response {
    pub river_waypoint_id: i64,
}

} // verus!
