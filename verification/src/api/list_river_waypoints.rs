//! A page of the waypoints of a river.

use vstd::prelude::*;
use crate::river::RiverWaypoint;

verus! {

/// Asks for the waypoints of a river, from `offset`, at most `limit` of them.
#[derive(Debug, Clone, Copy, PartialEq, Eq)]
pub struct Request {
    pub offset: Option<i64>,
    pub limit: Option<i64>,
    pub river_id: i64,
}

/// A page of waypoints, the offset of the next page and the total count.
#[derive(Debug, Clone, PartialEq)]
pub struct Response {
    pub river_waypoints: Vec<RiverWaypoint>,
    pub next: i64,
    pub total: i64,
}

} // verus!
