use river::river::{River, RiverTrack, RiverWaypoint};

fn river(waypoint: &str) -> River<String> {
    River {
        river_id: 3,
        user_id: 1,
        river_name: "多摩川".to_string(),
        waypoint: waypoint.to_string(),
        description: "desc".to_string(),
        created_at: 5,
    }
}

fn track(points: &str) -> RiverTrack<String> {
    RiverTrack {
        river_track_id: 1,
        river_id: 2,
        user_id: 3,
        track_name: "上流".to_string(),
        description: "d".to_string(),
        track: points.to_string(),
        created_at: 4,
        updated_at: 6,
    }
}

fn waypoint(point: &str) -> RiverWaypoint<String> {
    RiverWaypoint {
        river_waypoint_id: 7,
        river_id: 2,
        user_id: 3,
        waypoint_name: "橋".to_string(),
        description: "d".to_string(),
        waypoint: point.to_string(),
        created_at: 8,
        updated_at: 9,
    }
}

#[test]
fn river_position_text_is_read_as_json() {
    let stored = river("[35.5, 139.75]").parse_waypoint().unwrap();
    assert_eq!(stored.river_id, 3);
    assert_eq!(stored.user_id, 1);
    assert_eq!(stored.river_name, "多摩川");
    assert_eq!(stored.description, "desc");
    assert_eq!(stored.created_at, 5);
    let expected: serde_json::Value = serde_json::from_str("[35.5,139.75]").unwrap();
    assert_eq!(stored.waypoint, expected);
}

#[test]
fn river_position_text_that_is_not_json_is_refused() {
    assert!(river("[35.5, 139.75").parse_waypoint().is_err());
    assert!(river("").parse_waypoint().is_err());
}

#[test]
fn river_position_is_written_as_json_text() {
    let text = river("[1, 2]").parse_waypoint().unwrap().waypoint_text();
    assert_eq!(text.waypoint, "[1,2]");
    assert_eq!(text.river_name, "多摩川");
    assert_eq!(text.created_at, 5);
}

#[test]
fn track_points_text_is_read_and_written() {
    let stored = track("[[1, 2], [3, 4]]").parse_track().unwrap();
    assert_eq!(stored.river_track_id, 1);
    assert_eq!(stored.track_name, "上流");
    assert_eq!(stored.updated_at, 6);
    let expected: serde_json::Value = serde_json::from_str("[[1,2],[3,4]]").unwrap();
    assert_eq!(stored.track, expected);
    let text = stored.track_text();
    assert_eq!(text.track, "[[1,2],[3,4]]");
    assert_eq!(text.river_id, 2);
    assert!(track("[[1, 2], [3, 4]").parse_track().is_err());
}

#[test]
fn waypoint_position_text_is_read_and_written() {
    let stored = waypoint("[5, 6]").parse_waypoint().unwrap();
    assert_eq!(stored.river_waypoint_id, 7);
    assert_eq!(stored.waypoint_name, "橋");
    assert_eq!(stored.created_at, 8);
    let expected: serde_json::Value = serde_json::from_str("[5,6]").unwrap();
    assert_eq!(stored.waypoint, expected);
    let text = stored.waypoint_text();
    assert_eq!(text.waypoint, "[5,6]");
    assert_eq!(text.updated_at, 9);
    assert!(waypoint("5, 6]").parse_waypoint().is_err());
}
