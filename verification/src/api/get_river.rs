//! A river with everything placed on it.

use vstd::prelude::*;
use crate::river::{River, RiverTrack, RiverWaypoint};

verus! {

/// Asks for one river.
#[derive(Debug, Clone, Copy, PartialEq, Eq)]
pub struct Request {
    pub river_id: i64,
}

/// The river, if it exists, with its waypoints and tracks.
#[derive(Debug, Clone, PartialEq)]
pub struct Response {
    pub river: Option<River>,
    pub waypoints: Vec<RiverWaypoint>,
    pub tracks: Vec<RiverTrack>,
}

} // verus!
