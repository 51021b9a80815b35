use std::collections::HashMap;
use river::route_editing::waypoint_save_answered;
use river::layer_sync::plan_layer_sync;
use river::route_editing::{sends_waypoint, waypoint_river_choice, AddRouteModeState, EditMode};

#[test]
fn layers_not_shown_anymore_are_removed_and_new_ones_added() {
    let sync = plan_layer_sync(&vec![1, 2, 3], &vec![3, 4, 1]);
    assert_eq!(sync.remove, vec![2]);
    assert_eq!(sync.add, vec![4]);
}

#[test]
fn nothing_changes_when_everything_is_drawn() {
    let sync = plan_layer_sync(&vec![5, 6], &vec![6, 5]);
    assert!(sync.remove.is_empty());
    assert!(sync.add.is_empty());
    let sync = plan_layer_sync(&vec![], &vec![]);
    assert!(sync.remove.is_empty() && sync.add.is_empty());
}

#[test]
fn route_points_are_added_while_drawing() {
    let mut mode: EditMode<(f64, f64), f64> = EditMode::start_route(0.0);
    let mut tracks: HashMap<i64, Vec<(f64, f64)>> = HashMap::new();
    tracks.insert(5, vec![(1.0, 2.0)]);
    mode.add_route_point((35.0, 139.0), &mut tracks);
    assert_eq!(tracks.get(&0), Some(&vec![(35.0, 139.0)]));
    mode.add_route_point((35.1, 139.1), &mut tracks);
    assert_eq!(tracks.get(&0), Some(&vec![(35.0, 139.0), (35.1, 139.1)]));
    assert_eq!(tracks.get(&5), Some(&vec![(1.0, 2.0)]));
    assert_eq!(tracks.len(), 2);
    mode.begin_saving_route();
    match &mode {
        EditMode::AddRoute(route) => {
            assert_eq!(route.state, AddRouteModeState::Saving);
            assert_eq!(route.track.len(), 2);
        }
        _ => panic!("still drawing a route"),
    }
    mode.add_route_point((35.2, 139.2), &mut tracks);
    assert_eq!(tracks.get(&0), Some(&vec![(35.0, 139.0), (35.1, 139.1)]));
}

#[test]
fn points_outside_route_drawing_are_ignored() {
    let mut mode: EditMode<(f64, f64), f64> = EditMode::Home;
    let mut tracks: HashMap<i64, Vec<(f64, f64)>> = HashMap::new();
    mode.add_route_point((35.0, 139.0), &mut tracks);
    assert!(tracks.is_empty());
    mode.begin_saving_route();
    assert!(matches!(mode, EditMode::Home));
}

#[test]
fn waypoint_needs_a_river() {
    assert_eq!(waypoint_river_choice("12"), 12);
    assert_eq!(waypoint_river_choice("river"), 0);
    assert!(!sends_waypoint(0));
    assert!(sends_waypoint(12));
}

#[test]
fn a_saved_waypoint_is_shown_and_the_screen_returns_home() {
    let mut mode: EditMode<(i32, i32), i32> = EditMode::AddWaypoint;
    let mut shown: HashMap<i64, (String, (i32, i32))> = HashMap::new();
    waypoint_save_answered(&mut mode, &mut shown, Some(12), "橋".to_string(), (35, 139));
    assert!(matches!(mode, EditMode::Home));
    assert_eq!(shown.get(&12), Some(&("橋".to_string(), (35, 139))));
    let mut mode: EditMode<(i32, i32), i32> = EditMode::AddWaypoint;
    waypoint_save_answered(&mut mode, &mut shown, None, "堰".to_string(), (1, 2));
    assert!(matches!(mode, EditMode::Home));
    assert_eq!(shown.len(), 1);
}
