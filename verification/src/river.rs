//! Rivers, the tracks drawn along them and the waypoints placed on them.
//!
//! Each record is generic over how its position data is held: as a JSON
//! value (the stored form), as JSON text (the CSV form) or as coordinates.
//! Converting between the forms replaces that one field and keeps every
//! other field.

use vstd::prelude::*;
use crate::json::{json_read, json_text_is_valid, json_value_text, json_written, parse_json_text};

verus! {

/// A river, with the point that locates it (`[lat, long]`).
#[derive(Debug, Clone, PartialEq)]
pub struct River<T = serde_json::Value> {
    pub river_id: i64,
    pub user_id: i64,
    pub river_name: String,
    pub waypoint: T,
    pub description: String,
    pub created_at: i64,
}

impl<T> River<T> {
    /// The same river with its position held as `waypoint`.
    pub fn with_waypoint<U>(self, waypoint: U) -> (r: River<U>)
        ensures
            r.river_id == self.river_id,
            r.user_id == self.user_id,
            r.river_name == self.river_name,
            r.waypoint == waypoint,
            r.description == self.description,
            r.created_at == self.created_at,
    {
        River {
            user_id: self.user_id,
            river_id: self.river_id,
            river_name: self.river_name,
            waypoint,
            description: self.description,
            created_at: self.created_at,
        }
    }
}

impl River<String> {
    /// The river with its position read from the JSON text it is stored as
    /// in CSV; fails exactly when the text is not JSON.
    pub fn parse_waypoint(self) -> (r: Result<River<serde_json::Value>, serde_json::Error>)
        ensures
            r.is_ok() == json_text_is_valid(self.waypoint@),
            r matches Ok(v) ==> v.waypoint == json_read(self.waypoint@),
            r matches Ok(v) ==> v.river_id == self.river_id && v.user_id == self.user_id
                && v.river_name == self.river_name && v.description == self.description
                && v.created_at == self.created_at,
    {
        match parse_json_text(self.waypoint.as_str()) {
            Ok(value) => Ok(self.with_waypoint(value)),
            Err(e) => Err(e),
        }
    }
}

impl River<serde_json::Value> {
    /// The river with its position written as JSON text, the form it is
    /// stored as in CSV; writing a document never fails.
    pub fn waypoint_text(self) -> (r: River<String>)
        ensures
            r.waypoint@ == json_written(self.waypoint),
            r.river_id == self.river_id && r.user_id == self.user_id
                && r.river_name == self.river_name && r.description == self.description
                && r.created_at == self.created_at,
    {
        match json_value_text(&self.waypoint) {
            Ok(text) => self.with_waypoint(text),
            Err(_) => unreached(),
        }
    }
}

/// A track drawn along a river (`Array<[lat, long]>`).
#[derive(Debug, Clone, PartialEq)]
pub struct RiverTrack<T = serde_json::Value> {
    pub river_track_id: i64,
    pub river_id: i64,
    pub user_id: i64,
    pub track_name: String,
    pub description: String,
    pub track: T,
    pub created_at: i64,
    pub updated_at: i64,
}

impl<T> RiverTrack<T> {
    /// The same track with its points held as `track`.
    pub fn with_track<U>(self, track: U) -> (r: RiverTrack<U>)
        ensures
            r.river_track_id == self.river_track_id,
            r.river_id == self.river_id,
            r.user_id == self.user_id,
            r.track_name == self.track_name,
            r.description == self.description,
            r.track == track,
            r.created_at == self.created_at,
            r.updated_at == self.updated_at,
    {
        RiverTrack {
            river_track_id: self.river_track_id,
            river_id: self.river_id,
            user_id: self.user_id,
            track_name: self.track_name,
            description: self.description,
            track,
            created_at: self.created_at,
            updated_at: self.updated_at,
        }
    }
}

impl RiverTrack<String> {
    /// The track with its points read from the JSON text it is stored as in
    /// CSV; fails exactly when the text is not JSON.
    pub fn parse_track(self) -> (r: Result<RiverTrack<serde_json::Value>, serde_json::Error>)
        ensures
            r.is_ok() == json_text_is_valid(self.track@),
            r matches Ok(v) ==> v.track == json_read(self.track@),
            r matches Ok(v) ==> v.river_track_id == self.river_track_id && v.river_id
                == self.river_id && v.user_id == self.user_id && v.track_name == self.track_name
                && v.description == self.description && v.created_at == self.created_at
                && v.updated_at == self.updated_at,
    {
        match parse_json_text(self.track.as_str()) {
            Ok(value) => Ok(self.with_track(value)),
            Err(e) => Err(e),
        }
    }
}

impl RiverTrack<serde_json::Value> {
    /// The track with its points written as JSON text, the form it is stored
    /// as in CSV; writing a document never fails.
    pub fn track_text(self) -> (r: RiverTrack<String>)
        ensures
            r.track@ == json_written(self.track),
            r.river_track_id == self.river_track_id && r.river_id
                == self.river_id && r.user_id == self.user_id && r.track_name == self.track_name
                && r.description == self.description && r.created_at == self.created_at
                && r.updated_at == self.updated_at,
    {
        match json_value_text(&self.track) {
            Ok(text) => self.with_track(text),
            Err(_) => unreached(),
        }
    }
}

/// A named point on a river (`[lat, long]`).
#[derive(Debug, Clone, PartialEq)]
pub struct RiverWaypoint<T = serde_json::Value> {
    pub river_waypoint_id: i64,
    pub river_id: i64,
    pub user_id: i64,
    pub waypoint_name: String,
    pub description: String,
    pub waypoint: T,
    pub created_at: i64,
    pub updated_at: i64,
}

impl<T> RiverWaypoint<T> {
    /// The same waypoint with its position held as `waypoint`.
    pub fn with_waypoint<U>(self, waypoint: U) -> (r: RiverWaypoint<U>)
        ensures
            r.river_waypoint_id == self.river_waypoint_id,
            r.river_id == self.river_id,
            r.user_id == self.user_id,
            r.waypoint_name == self.waypoint_name,
            r.description == self.description,
            r.waypoint == waypoint,
            r.created_at == self.created_at,
            r.updated_at == self.updated_at,
    {
        RiverWaypoint {
            river_waypoint_id: self.river_waypoint_id,
            river_id: self.river_id,
            user_id: self.user_id,
            waypoint_name: self.waypoint_name,
            description: self.description,
            waypoint,
            created_at: self.created_at,
            updated_at: self.updated_at,
        }
    }
}

impl RiverWaypoint<String> {
    /// The waypoint with its position read from the JSON text it is stored
    /// as in CSV; fails exactly when the text is not JSON.
    pub fn parse_waypoint(self) -> (r: Result<RiverWaypoint<serde_json::Value>, serde_json::Error>)
        ensures
            r.is_ok() == json_text_is_valid(self.waypoint@),
            r matches Ok(v) ==> v.waypoint == json_read(self.waypoint@),
            r matches Ok(v) ==> v.river_waypoint_id == self.river_waypoint_id && v.river_id
                == self.river_id && v.user_id == self.user_id && v.waypoint_name
                == self.waypoint_name && v.description == self.description && v.created_at
                == self.created_at && v.updated_at == self.updated_at,
    {
        match parse_json_text(self.waypoint.as_str()) {
            Ok(value) => Ok(self.with_waypoint(value)),
            Err(e) => Err(e),
        }
    }
}

impl RiverWaypoint<serde_json::Value> {
    /// The waypoint with its position written as JSON text, the form it is
    /// stored as in CSV; writing a document never fails.
    pub fn waypoint_text(self) -> (r: RiverWaypoint<String>)
        ensures
            r.waypoint@ == json_written(self.waypoint),
            r.river_waypoint_id == self.river_waypoint_id && r.river_id
                == self.river_id && r.user_id == self.user_id && r.waypoint_name
                == self.waypoint_name && r.description == self.description && r.created_at
                == self.created_at && r.updated_at == self.updated_at,
    {
        match json_value_text(&self.waypoint) {
            Ok(text) => self.with_waypoint(text),
            Err(_) => unreached(),
        }
    }
}

} // verus!
