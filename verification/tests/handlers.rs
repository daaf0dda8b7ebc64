use maps_backend::error::AppError;
use maps_backend::handlers::admin::{check_role_update, require_admin, to_response, UpdateRoleRequest};
use maps_backend::handlers::auth::{check_login, check_registration, normalize_display_name};
use maps_backend::handlers::fuel::{check_trip_in_room, lookup_name, requested_trip, trip_filter, ListFuelQuery};
use maps_backend::handlers::gas_stations::{plan_sources, tankerkoenig_ok, StationSource};
use maps_backend::handlers::geocode::{geocode_cache_key, geocode_query};
use maps_backend::handlers::location::{effective_limit, lookup_display_name};
use maps_backend::handlers::rooms::{join_code, joined_room, JoinRoomRequest};
use maps_backend::handlers::trips::{validate_trip_name, CreateTripRequest};
use maps_backend::handlers::waypoints::{check_waypoint_type, sort_order_for, valid_type, waypoint_name};
use maps_backend::ids::parse_room_id;
use maps_backend::middleware::auth::{bearer_token, identity_from_subject, AuthRejection};
use maps_backend::models::{room, user};
use maps_backend::services::auth::AuthUser;

const ID_A: &str = "550e8400-e29b-41d4-a716-446655440000";
const ID_A_NUM: u128 = 0x550e8400e29b41d4a716446655440000;

fn admin(id: u128) -> AuthUser {
    AuthUser { id, email: String::new(), display_name: None, role: "admin".to_string() }
}

fn bad(msg: &str) -> AppError {
    AppError::BadRequest(msg.to_string())
}

#[test]
fn ids_parse_and_print() {
    assert_eq!(parse_room_id(ID_A), Ok(ID_A_NUM));
    assert_eq!(parse_room_id("nope"), Err(bad("Invalid room_id")));
    let u = user::Model {
        id: ID_A_NUM,
        email: "a@b.c".to_string(),
        display_name: None,
        role: "member".to_string(),
        created_at: "2024-01-01T00:00:00+00:00".to_string(),
    };
    let r = to_response(u);
    assert_eq!(r.id, ID_A);
    assert_eq!(r.role, "member");
}

#[test]
fn bearer_tokens() {
    assert_eq!(bearer_token(Some("Bearer abc.def")), Ok("abc.def".to_string()));
    assert_eq!(bearer_token(Some("Basic abc")), Err(AuthRejection::MissingToken));
    assert_eq!(bearer_token(Some("bearer abc")), Err(AuthRejection::MissingToken));
    assert_eq!(bearer_token(None), Err(AuthRejection::MissingToken));
    assert_eq!(bearer_token(Some("Bearer ")), Ok(String::new()));
}

#[test]
fn token_subject_must_be_a_user_id() {
    let u = identity_from_subject(ID_A, "member".to_string()).ok().unwrap();
    assert_eq!(u.0.id, ID_A_NUM);
    assert!(matches!(identity_from_subject("x", "member".to_string()), Err(AuthRejection::InvalidToken)));
}

#[test]
fn only_admins_pass() {
    assert_eq!(require_admin(&admin(1)), Ok(()));
    let mut m = admin(1);
    m.role = "member".to_string();
    assert_eq!(require_admin(&m), Err(AppError::Forbidden));
}

#[test]
fn role_changes_are_checked_in_order() {
    let me = admin(ID_A_NUM);
    let req = |r: &str| UpdateRoleRequest { role: r.to_string() };
    let mut member = admin(7);
    member.role = "member".to_string();
    assert_eq!(check_role_update(&member, ID_A, &req("member")), Err(AppError::Forbidden));
    assert_eq!(check_role_update(&me, ID_A, &req("owner")), Err(bad("role must be 'admin' or 'member'")));
    assert_eq!(check_role_update(&me, "zzz", &req("member")), Err(bad("Invalid user id")));
    assert_eq!(check_role_update(&me, ID_A, &req("member")), Err(bad("Cannot change your own role")));
    assert_eq!(check_role_update(&me, ID_A, &req("admin")), Ok(ID_A_NUM));
    assert_eq!(check_role_update(&admin(3), ID_A, &req("member")), Ok(ID_A_NUM));
}

#[test]
fn registration_checks() {
    assert_eq!(check_registration(true, "longenough"), Err(bad("อีเมลนี้ถูกใช้งานแล้ว")));
    assert_eq!(check_registration(false, "abc"), Err(bad("รหัสผ่านต้องมีอย่างน้อย 6 ตัวอักษร")));
    // two Thai letters are six bytes
    assert_eq!(check_registration(false, "กข"), Ok(()));
    assert_eq!(check_registration(false, "abcdef"), Ok(()));
    assert_eq!(check_login(true, true), Ok(()));
    assert_eq!(check_login(false, true), Err(AppError::Unauthorized));
    assert_eq!(check_login(true, false), Err(AppError::Unauthorized));
}

#[test]
fn display_names_are_trimmed_and_blank_clears() {
    assert_eq!(normalize_display_name(&Some("  Som  ".to_string())), Some("Som".to_string()));
    assert_eq!(normalize_display_name(&Some("   ".to_string())), None);
    assert_eq!(normalize_display_name(&None), None);
}

#[test]
fn fuel_trip_choice() {
    assert_eq!(requested_trip(&None), Ok(None));
    assert_eq!(requested_trip(&Some(ID_A.to_string())), Ok(Some(ID_A_NUM)));
    assert_eq!(requested_trip(&Some("bad".to_string())), Err(bad("Invalid trip_id")));
    assert_eq!(check_trip_in_room(None, 1), Err(AppError::NotFound("Trip not found".to_string())));
    assert_eq!(check_trip_in_room(Some(2), 1), Err(bad("Trip does not belong to this room")));
    assert_eq!(check_trip_in_room(Some(1), 1), Ok(()));
    assert_eq!(trip_filter(&ListFuelQuery { trip_id: Some("bad".to_string()) }), None);
    assert_eq!(trip_filter(&ListFuelQuery { trip_id: Some(ID_A.to_string()) }), Some(ID_A_NUM));
    let names = vec![(1u128, "first".to_string()), (2, "two".to_string()), (1, "later".to_string())];
    assert_eq!(lookup_name(&names, 1), Some("later".to_string()));
    assert_eq!(lookup_name(&names, 3), None);
}

#[test]
fn location_limits_and_names() {
    assert_eq!(effective_limit(None), 100);
    assert_eq!(effective_limit(Some(20)), 20);
    assert_eq!(effective_limit(Some(501)), 500);
    assert_eq!(effective_limit(Some(500)), 500);
    let users = vec![(5u128, Some("Ann".to_string())), (6, None)];
    assert_eq!(lookup_display_name(&users, 5), Some("Ann".to_string()));
    assert_eq!(lookup_display_name(&users, 6), None);
    assert_eq!(lookup_display_name(&users, 7), None);
}

#[test]
fn rooms_and_trips() {
    assert_eq!(join_code(&JoinRoomRequest { code: " AB12 ".to_string() }), "AB12");
    assert_eq!(joined_room(&None, "t".to_string()), Err(AppError::NotFound("Room not found".to_string())));
    let r = room::Model { id: ID_A_NUM, name: "Trip".to_string(), code: "X".to_string(), owner_id: 0 };
    let w = joined_room(&Some(r), "2024".to_string()).ok().unwrap();
    assert_eq!(w.owner_id, "00000000-0000-0000-0000-000000000000");
    assert_eq!(validate_trip_name(&CreateTripRequest { name: "  ".to_string() }), Err(bad("ชื่อทริปไม่สามารถว่างได้")));
    assert_eq!(validate_trip_name(&CreateTripRequest { name: " เชียงใหม่ ".to_string() }), Ok("เชียงใหม่".to_string()));
}

#[test]
fn waypoints() {
    assert!(valid_type("rest"));
    assert!(!valid_type("Rest"));
    assert_eq!(check_waypoint_type("camp"), Err(bad("waypoint_type must be destination, rest, or stopover")));
    assert_eq!(check_waypoint_type("stopover"), Ok(()));
    assert_eq!(sort_order_for(3), 3);
    assert_eq!(sort_order_for(1 << 32), 0);
    assert_eq!(sort_order_for(u64::from(u32::MAX)), -1);
    assert_eq!(waypoint_name(" Home "), "Home");
}

#[test]
fn geocode_keys() {
    assert_eq!(geocode_query("  "), None);
    assert_eq!(geocode_query(" Bangkok "), Some("Bangkok".to_string()));
    assert_eq!(geocode_cache_key("Bangkok", ":13.75:100.50"), "geocode:v1:Bangkok:13.75:100.50");
    let long = "a".repeat(130);
    assert_eq!(geocode_cache_key(&long, ""), format!("geocode:v1:{}", "a".repeat(120)));
    // forty Thai letters are 120 bytes
    let thai = "ก".repeat(45);
    assert_eq!(geocode_cache_key(&thai, ""), format!("geocode:v1:{}", "ก".repeat(40)));
}

#[test]
fn gas_station_sources() {
    let k = |s: &str| Some(s.to_string());
    assert_eq!(plan_sources(false, false, k("n"), k("o"), k("t")), vec![StationSource::Osm, StationSource::Ocm("o".to_string())]);
    assert_eq!(
        plan_sources(true, true, k("n"), None, k("t")),
        vec![StationSource::Osm, StationSource::Nrel("n".to_string()), StationSource::Tankerkoenig("t".to_string())]
    );
    assert_eq!(plan_sources(true, false, None, None, None), vec![StationSource::Osm]);
    assert!(tankerkoenig_ok(Some(true)));
    assert!(!tankerkoenig_ok(Some(false)));
    assert!(!tankerkoenig_ok(None));
}

#[test]
fn id_forms_and_lengths() {
    // the simple, braced and URN forms are read too; other lengths are not
    assert_eq!(parse_room_id(&ID_A.replace('-', "")), Ok(ID_A_NUM));
    assert_eq!(parse_room_id(&format!("{{{}}}", ID_A)), Ok(ID_A_NUM));
    assert_eq!(parse_room_id(&format!("urn:uuid:{}", ID_A)), Ok(ID_A_NUM));
    assert_eq!(parse_room_id(&ID_A[..35]), Err(bad("Invalid room_id")));
    assert_eq!(parse_room_id(""), Err(bad("Invalid room_id")));
}
