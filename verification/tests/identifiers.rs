use matrix_events::identifiers::is_wire_wf;
use matrix_events::json::JsonValue;
use matrix_events::{EventID, RoomID, UserID};

#[test]
fn wire_well_formedness_guard() {
    assert!(is_wire_wf("!r:h"));
    assert!(is_wire_wf("@alice:example.org"));
    assert!(is_wire_wf("!:h"));
    assert!(is_wire_wf("!r:h:8448"));
    assert!(!is_wire_wf(""));
    assert!(!is_wire_wf("nocolon"));
    assert!(!is_wire_wf(":h"));
}

#[test]
fn empty_homeserver_part() {
    assert!(is_wire_wf("!r:"));
    let room = RoomID::from_str("!r:");
    assert_eq!(room.id, "r");
    assert_eq!(room.homeserver, "");
}

#[test]
fn parse_event_id() {
    let id = EventID::from_str("$e1:example.org");
    assert_eq!(id.id, "e1");
    assert_eq!(id.homeserver, "example.org");
}

#[test]
fn parse_user_id() {
    let user = UserID::from_str("@alice:example.org");
    assert_eq!(user.nickname, "alice");
    assert_eq!(user.homeserver, "example.org");
}

#[test]
fn parse_room_id() {
    let room = RoomID::from_str("!main:example.org");
    assert_eq!(room.id, "main");
    assert_eq!(room.homeserver, "example.org");
}

#[test]
fn render_room_id() {
    let room = RoomID { id: "main".to_string(), homeserver: "example.org".to_string() };
    assert_eq!(room.to_wire(), "!main:example.org");
}

#[test]
fn room_id_round_trip() {
    for wire in ["!main:example.org", "!:h", "!x:y"] {
        assert_eq!(RoomID::from_str(wire).to_wire(), wire);
    }
}

#[test]
fn homeserver_with_port_is_cut_short() {
    // The homeserver is the second `:`-separated segment, so an explicit
    // port is lost and the round trip does not hold for such strings.
    let room = RoomID::from_str("!r:example.org:8448");
    assert_eq!(room.id, "r");
    assert_eq!(room.homeserver, "example.org");
    assert_eq!(room.to_wire(), "!r:example.org");
}

#[test]
fn empty_local_part() {
    let room = RoomID::from_str("!:h");
    assert_eq!(room.id, "");
    assert_eq!(room.homeserver, "h");
}

#[test]
fn sigil_is_not_checked() {
    // Parsing is positional: whatever the first character is, it is
    // stripped as the sigil.
    let user = UserID::from_str("xa:h");
    assert_eq!(user.nickname, "a");
    assert_eq!(user.homeserver, "h");
}

#[test]
fn object_lookup_takes_first_match() {
    let v = JsonValue::Obj(vec![
        ("k".to_string(), JsonValue::Str("first".to_string())),
        ("k".to_string(), JsonValue::Str("second".to_string())),
    ]);
    assert_eq!(v.get_str("k"), Some(&"first".to_string()));
}

#[test]
fn lookup_on_non_object_is_none() {
    assert_eq!(JsonValue::Null.get("k"), None);
    assert_eq!(JsonValue::Arr(vec![]).get_str("k"), None);
    assert_eq!(JsonValue::Str("x".to_string()).get2("a", "b"), None);
}
