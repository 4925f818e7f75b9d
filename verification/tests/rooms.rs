use chat_hub::rooms::{
    check_new_room, check_room_settings, check_room_update, may_create_room, CreateRoom, RoomError,
    UpdateRoomSettings,
};

#[test]
fn new_room_takes_defaults() {
    let body = CreateRoom { name: "  General  ".to_string(), kind: None, required_role: None };
    let settings = check_new_room(&body).expect("the room is acceptable");
    assert_eq!(settings.name, "General");
    assert_eq!(settings.kind, "text");
    assert_eq!(settings.required_role, "user");
}

#[test]
fn kind_and_role_are_trimmed_and_lowered() {
    let body = CreateRoom {
        name: "Lounge".to_string(),
        kind: Some(" Voice ".to_string()),
        required_role: Some("  BETA".to_string()),
    };
    let settings = check_new_room(&body).expect("the room is acceptable");
    assert_eq!(settings.name, "Lounge");
    assert_eq!(settings.kind, "voice");
    assert_eq!(settings.required_role, "beta");
}

#[test]
fn blank_name_is_refused_first() {
    let body = CreateRoom { name: " \t ".to_string(), kind: Some("video".to_string()), required_role: None };
    assert!(matches!(check_new_room(&body), Err(RoomError::NameRequired)));
    assert!(matches!(check_room_settings("", "text", "user"), Err(RoomError::NameRequired)));
}

#[test]
fn unknown_kind_is_refused() {
    assert!(matches!(check_room_settings("a", "video", "user"), Err(RoomError::InvalidKind)));
    assert!(matches!(check_room_settings("a", "", "user"), Err(RoomError::InvalidKind)));
    assert!(matches!(check_room_settings("a", "text voice", "user"), Err(RoomError::InvalidKind)));
}

#[test]
fn update_goes_by_the_same_rules() {
    let body = UpdateRoomSettings {
        name: " Renamed ".to_string(),
        kind: "TEXT".to_string(),
        required_role: " Admin ".to_string(),
    };
    let settings = check_room_update(&body).expect("the update is acceptable");
    assert_eq!(settings.name, "Renamed");
    assert_eq!(settings.kind, "text");
    assert_eq!(settings.required_role, "admin");
    let bad = UpdateRoomSettings {
        name: "x".to_string(),
        kind: "".to_string(),
        required_role: "user".to_string(),
    };
    assert!(matches!(check_room_update(&bad), Err(RoomError::InvalidKind)));
}

#[test]
fn only_admins_create_restricted_rooms() {
    assert!(may_create_room("user", "user"));
    assert!(may_create_room("user", "beta"));
    assert!(may_create_room("beta", "admin"));
    assert!(!may_create_room("beta", "beta"));
    assert!(!may_create_room("admin", "user"));
}
