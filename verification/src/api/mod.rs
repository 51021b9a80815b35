//! The requests the browser sends to the service, the answers it gets, and
//! who may send what.

pub mod create_river;
pub mod create_river_track;
pub mod create_river_waypoint;
pub mod delete_me;
pub mod delete_river;
pub mod delete_river_track;
pub mod delete_river_waypoint;
pub mod get_me;
pub mod get_river;
pub mod list_access_logs;
pub mod list_river_waypoints;
pub mod list_rivers;
pub mod list_users;

use vstd::prelude::*;
use crate::user::{User, ROLE_ADMIN, ROLE_USER};

verus! {

/// A request to the service; coordinates are of type `C`.
#[derive(Debug, Clone, PartialEq)]
pub enum Request<C> {
    GetMe(get_me::Request),
    ListUsers(list_users::Request),
    ListAccessLogs(list_access_logs::Request),
    ListRivers(list_rivers::Request),
    GetRiver(get_river::Request),
    CreateRiver(create_river::Request<C>),
    DeleteRiver(delete_river::Request),
    CreateRiverWaypoint(create_river_waypoint::Request<C>),
    DeleteRiverWaypoint(delete_river_waypoint::Request),
    CreateRiverTrack(create_river_track::Request<C>),
    DeleteRiverTrack(delete_river_track::Request),
}

/// An answer of the service.
#[derive(Debug, Clone, PartialEq)]
pub enum Response {
    GetMe(get_me::Response),
    ListUser(list_users::Response),
    ListAccessLogs(list_access_logs::Response),
    ListRivers(list_rivers::Response),
    GetRiver(get_river::Response),
    CreateRiver(create_river::Response),
    DeleteRiver(delete_river::Response),
    CreateRiverWaypoint(create_river_waypoint::Response),
    DeleteRiverWaypoint(delete_river_waypoint::Response),
    CreateRiverTrack(create_river_track::Response),
    DeleteRiverTrack(delete_river_track::Response),
    Error(ErrorKind),
}

/// Why a request was not served.
#[derive(Debug, Clone, Copy, PartialEq, Eq, Structural)]
pub enum ErrorKind {
    PermissionDenied,
    InvalidRequest,
}

/// Whether an ordinary account may send the request. Listing accounts and
/// access logs and creating or deleting rivers are for administrators.
pub open spec fn open_to_users<C>(request: Request<C>) -> bool {
    match request {
        Request::GetMe(..) => true,
        Request::ListUsers(..) => false,
        Request::ListAccessLogs(..) => false,
        Request::ListRivers(..) => true,
        Request::GetRiver(..) => true,
        Request::CreateRiver(..) => false,
        Request::DeleteRiver(..) => false,
        Request::DeleteRiverWaypoint(..) => true,
        Request::CreateRiverWaypoint(..) => true,
        Request::CreateRiverTrack(..) => true,
        Request::DeleteRiverTrack(..) => true,
    }
}

/// Whether an account of the given role may send the request: an
/// administrator may send any request, an ordinary account the requests open
/// to users, and an account of any other role none.
pub open spec fn permits<C>(role: i64, request: Request<C>) -> bool {
    if role == ROLE_ADMIN {
        true
    } else if role == ROLE_USER {
        open_to_users(request)
    } else {
        false
    }
}

impl<C> Request<C> {
    /// Whether `user` may send this request.
    pub fn check_permission(&self, user: &User) -> (r: bool)
        ensures
            r == permits(user.role, *self),
    {
        if user.role == ROLE_ADMIN {
            return true;
        }
        if user.role == ROLE_USER {
            let flag = match self {
                Request::GetMe(..) => true,
                Request::ListUsers(..) => false,
                Request::ListAccessLogs(..) => false,
                Request::ListRivers(..) => true,
                Request::GetRiver(..) => true,
                Request::CreateRiver(..) => false,
                Request::DeleteRiver(..) => false,
                Request::DeleteRiverWaypoint(..) => true,
                Request::CreateRiverWaypoint(..) => true,
                Request::CreateRiverTrack(..) => true,
                Request::DeleteRiverTrack(..) => true,
            };
            return flag;
        }
        false
    }
}

} // verus!
