//! The modes of the map screen of the browser client: browsing, searching a
//! river, drawing a route point by point and placing a waypoint.
//!
//! Points are of any type `P` and the route's distance of any type `D`; the
//! client holds them as coordinates and kilometres.

use vstd::prelude::*;
use std::collections::HashMap;
use crate::text::{parse_i64_radix, parsed_i64};

verus! {

/// Whether a route is still being drawn or is being saved.
#[derive(Clone, Copy, Debug, PartialEq, Eq, Structural)]
pub enum AddRouteModeState {
    Editing,
    Saving,
}

/// A route being drawn.
pub struct AddRouteMode<P, D> {
    pub state: AddRouteModeState,
    pub track: Vec<P>,
    pub distance: D,
}

/// The mode of the map screen.
pub enum EditMode<P, D> {
    Home,
    Search,
    AddRoute(AddRouteMode<P, D>),
    AddWaypoint,
}

/// Whether a route is being drawn.
pub open spec fn drawing<P, D>(mode: EditMode<P, D>) -> bool {
    match mode {
        EditMode::AddRoute(m) => m.state == AddRouteModeState::Editing,
        _ => false,
    }
}

/// Whether a route is being saved.
pub open spec fn saving<P, D>(mode: EditMode<P, D>) -> bool {
    match mode {
        EditMode::AddRoute(m) => m.state == AddRouteModeState::Saving,
        _ => false,
    }
}

/// The points of the route of the mode (none outside of route drawing).
pub open spec fn route_points<P, D>(mode: EditMode<P, D>) -> Seq<P> {
    match mode {
        EditMode::AddRoute(m) => m.track@,
        _ => Seq::empty(),
    }
}

/// The distance of the route of the mode.
pub open spec fn route_distance<P, D>(mode: EditMode<P, D>) -> Option<D> {
    match mode {
        EditMode::AddRoute(m) => Some(m.distance),
        _ => None,
    }
}

impl<P: Copy, D> EditMode<P, D> {
    /// A new route with no point, being drawn, of distance `distance`.
    pub fn start_route(distance: D) -> (r: Self)
        ensures
            drawing(r),
            route_points(r).len() == 0,
            route_distance(r) == Some(distance),
    {
        EditMode::AddRoute(AddRouteMode { state: AddRouteModeState::Editing, track: Vec::new(), distance })
    }

    /// The map's centre `focus` is added to the route being drawn, and the
    /// map's shown tracks show the new route under the id `0`. In any other
    /// mode nothing happens.
    pub fn add_route_point(&mut self, focus: P, tracks: &mut HashMap<i64, Vec<P>>)
        ensures
            drawing(*old(self)) ==> {
                &&& drawing(*final(self))
                &&& route_points(*final(self)) == route_points(*old(self)).push(focus)
                &&& route_distance(*final(self)) == route_distance(*old(self))
                &&& final(tracks)@ == old(tracks)@.insert(0, final(tracks)@[0])
                &&& final(tracks)@[0]@ == route_points(*final(self))
            },
            !drawing(*old(self)) ==> *final(self) == *old(self) && final(tracks)@ == old(tracks)@,
    {
        broadcast use vstd::std_specs::hash::group_hash_axioms;
        match self {
            EditMode::AddRoute(mode) => {
                if mode.state == AddRouteModeState::Editing {
                    mode.track.push(focus);
                    let mut shown: Vec<P> = Vec::new();
                    let mut i: usize = 0;
                    while i < mode.track.len()
                        invariant
                            i <= mode.track@.len(),
                            shown@ == mode.track@.subrange(0, i as int),
                        decreases mode.track@.len() - i,
                    {
                        shown.push(mode.track[i]);
                        i = i + 1;
                        assert(shown@ =~= mode.track@.subrange(0, i as int));
                    }
                    assert(mode.track@.subrange(0, i as int) =~= mode.track@);
                    tracks.insert(0, shown);
                }
            },
            _ => {},
        }
    }

    /// The drawn route goes to saving; in any other mode nothing happens.
    pub fn begin_saving_route(&mut self)
        ensures
            drawing(*old(self)) ==> saving(*final(self)) && route_points(*final(self))
                == route_points(*old(self)) && route_distance(*final(self)) == route_distance(
                *old(self),
            ),
            !drawing(*old(self)) ==> *final(self) == *old(self),
    {
        match self {
            EditMode::AddRoute(mode) => {
                if mode.state == AddRouteModeState::Editing {
                    mode.state = AddRouteModeState::Saving;
                }
            },
            _ => {},
        }
    }
}

/// The river a new waypoint is placed on: the river whose id the selector
/// value reads as, or `0` (no river) when it reads as no number.
pub fn waypoint_river_choice(value: &str) -> (r: i64)
    ensures
        r == (match parsed_i64(value@, 10) {
            Some(v) => v as i64,
            None => 0,
        }),
{
    match parse_i64_radix(value, 10) {
        Some(id) => id,
        None => 0,
    }
}

/// Whether a waypoint on the river is sent to the service: not when no
/// river is chosen.
pub fn sends_waypoint(river_id: i64) -> (r: bool)
    ensures
        r == (river_id != 0),
{
    river_id != 0
}

/// The service answered a waypoint save: with the id of the new waypoint
/// (`Some`), which is then shown on the map under that id with its name and
/// position, or with a failure (`None`), which shows nothing new. Either way
/// the screen returns to browsing.
pub fn waypoint_save_answered<P, D, Q>(
    mode: &mut EditMode<P, D>,
    waypoints: &mut HashMap<i64, (String, Q)>,
    answer: Option<i64>,
    name: String,
    position: Q,
)
    ensures
        *final(mode) is Home,
        answer is None ==> final(waypoints)@ == old(waypoints)@,
        answer matches Some(id) ==> final(waypoints)@ == old(waypoints)@.insert(id, (name, position)),
{
    broadcast use vstd::std_specs::hash::group_hash_axioms;
    if let Some(id) = answer {
        waypoints.insert(id, (name, position));
    }
    *mode = EditMode::Home;
}

} // verus!
