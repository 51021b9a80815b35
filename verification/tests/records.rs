use river::api::get_river;
use river::common::next_offset;
use river::field::{Field, FieldCsv};
use river::map::MapData;
use river::river::{River, RiverTrack, RiverWaypoint};
use river::user::UserDeletePreview;

fn river(river_id: i64, waypoint: &str) -> River<String> {
    River {
        river_id,
        user_id: 1,
        river_name: "多摩川".to_string(),
        waypoint: waypoint.to_string(),
        description: "desc".to_string(),
        created_at: 5,
    }
}

#[test]
fn river_keeps_its_fields_when_the_position_form_changes() {
    let text = river(3, "[35.6435548,139.7537994]");
    let value: serde_json::Value = serde_json::from_str(&text.waypoint).unwrap();
    let stored = text.clone().with_waypoint(value.clone());
    assert_eq!(stored.river_id, 3);
    assert_eq!(stored.river_name, "多摩川");
    assert_eq!(stored.description, "desc");
    assert_eq!(stored.created_at, 5);
    assert_eq!(stored.waypoint, serde_json::from_str::<serde_json::Value>("[35.6435548,139.7537994]").unwrap());
    let coords: (f64, f64) = serde_json::from_value(value).unwrap();
    let located = stored.with_waypoint(coords);
    assert_eq!(located.waypoint, (35.6435548, 139.7537994));
}

#[test]
fn track_and_waypoint_keep_their_fields() {
    let track = RiverTrack {
        river_track_id: 1,
        river_id: 2,
        user_id: 3,
        track_name: "多摩川上流".to_string(),
        description: "テスト用の川の軌跡".to_string(),
        track: "[[35.0,139.0]]".to_string(),
        created_at: 4,
        updated_at: 5,
    };
    let points = track.clone().with_track(vec![(35.0, 139.0)]);
    assert_eq!(points.track_name, track.track_name);
    assert_eq!(points.track, vec![(35.0, 139.0)]);
    assert_eq!(points.updated_at, 5);
    let waypoint = RiverWaypoint {
        river_waypoint_id: 9,
        river_id: 2,
        user_id: 3,
        waypoint_name: "二子玉川".to_string(),
        description: String::new(),
        waypoint: (35.6, 139.6),
        created_at: 1,
        updated_at: 2,
    };
    let text = waypoint.clone().with_waypoint("[35.6,139.6]".to_string());
    assert_eq!(text.river_waypoint_id, 9);
    assert_eq!(text.waypoint_name, "二子玉川");
    assert_eq!(text.waypoint, "[35.6,139.6]");
}

#[test]
fn field_csv_keeps_name_description_and_route() {
    let field = Field {
        field_id: 1,
        field_name: "多摩川".to_string(),
        description: "d".to_string(),
        route: "[[139.0,35.0]]".to_string(),
        created_at: 2,
        updated_at: 3,
    };
    let csv = FieldCsv::from(field);
    assert_eq!(csv, FieldCsv { field_name: "多摩川".to_string(), description: "d".to_string(), route: "[[139.0,35.0]]".to_string() });
}

#[test]
fn next_page_starts_after_the_rows_fetched() {
    assert_eq!(next_offset(0, 3), 3);
    assert_eq!(next_offset(10, 0), 10);
    assert_eq!(next_offset(20, 5), 25);
}

#[test]
fn empty_delete_preview_counts_nothing() {
    let preview = UserDeletePreview::default();
    assert_eq!(preview, UserDeletePreview { river_count: 0, track_count: 0, waypoint_count: 0, auth_count: 0 });
}

fn position() -> serde_json::Value {
    serde_json::from_str("[35.0,139.0]").unwrap()
}

#[test]
fn map_data_collects_details_in_river_order() {
    let rivers = vec![river(1, "[35.0,139.0]").with_waypoint(position())];
    let mut data = MapData::from_rivers(rivers);
    let waypoint = |id: i64| RiverWaypoint {
        river_waypoint_id: id,
        river_id: 1,
        user_id: 1,
        waypoint_name: format!("w{id}"),
        description: String::new(),
        waypoint: position(),
        created_at: 0,
        updated_at: 0,
    };
    data.add_river_detail(get_river::Response { river: None, waypoints: vec![waypoint(1), waypoint(2)], tracks: vec![] });
    data.add_river_detail(get_river::Response { river: None, waypoints: vec![waypoint(3)], tracks: vec![] });
    let ids: Vec<i64> = data.waypoints.iter().map(|w| w.river_waypoint_id).collect();
    assert_eq!(ids, vec![1, 2, 3]);
    assert_eq!(data.rivers.len(), 1);
    assert!(data.tracks.is_empty());
}
