use river::api::{self, Request};
use river::user::User;

fn user(role: i64) -> User {
    User { user_id: 7, nickname: "someone".to_string(), role, created_at: 0 }
}

fn all_requests() -> Vec<Request<f64>> {
    vec![
        Request::GetMe(api::get_me::Request {}),
        Request::ListUsers(api::list_users::Request {}),
        Request::ListAccessLogs(api::list_access_logs::Request {}),
        Request::ListRivers(api::list_rivers::Request {}),
        Request::GetRiver(api::get_river::Request { river_id: 1 }),
        Request::CreateRiver(api::create_river::Request {
            name: "多摩川".to_string(),
            latitude: 35.0,
            longitude: 139.0,
        }),
        Request::DeleteRiver(api::delete_river::Request {}),
        Request::CreateRiverWaypoint(api::create_river_waypoint::Request {
            river_id: 1,
            name: "二子玉川".to_string(),
            latitude: 35.6,
            longitude: 139.6,
        }),
        Request::DeleteRiverWaypoint(api::delete_river_waypoint::Request {}),
        Request::CreateRiverTrack(api::create_river_track::Request {
            river_id: 1,
            track_name: "上流".to_string(),
            description: String::new(),
            track: vec![(35.0, 139.0), (35.1, 139.1)],
        }),
        Request::DeleteRiverTrack(api::delete_river_track::Request {}),
    ]
}

#[test]
fn admin_may_send_every_request() {
    let admin = user(0);
    for request in all_requests() {
        assert!(request.check_permission(&admin));
    }
}

#[test]
fn ordinary_user_is_kept_from_admin_requests() {
    let someone = user(1);
    let expected = [true, false, false, true, true, false, false, true, true, true, true];
    for (request, allowed) in all_requests().into_iter().zip(expected) {
        assert_eq!(request.check_permission(&someone), allowed);
    }
}

#[test]
fn unknown_role_may_send_nothing() {
    for role in [2, -1, 99] {
        let stranger = user(role);
        for request in all_requests() {
            assert!(!request.check_permission(&stranger));
        }
    }
}
