use matrix_events::{
    DecodeError, Event, EventData, JsonValue, MembershipAction, RoomEvent,
};

fn s(x: &str) -> String {
    x.to_string()
}

fn str_val(x: &str) -> JsonValue {
    JsonValue::Str(s(x))
}

fn obj(entries: Vec<(&str, JsonValue)>) -> JsonValue {
    JsonValue::Obj(entries.into_iter().map(|(k, v)| (s(k), v)).collect())
}

#[test]
fn decode_room_message() {
    let msg = obj(vec![
        ("type", str_val("m.room.message")),
        ("room_id", str_val("!r:h2")),
        ("user_id", str_val("@a:h")),
        ("content", obj(vec![("body", str_val("hi"))])),
    ]);
    let ev = Event::from_json(msg).unwrap();
    assert!(ev.id.is_none());
    match ev.data {
        EventData::Room(room, RoomEvent::Message(user, body)) => {
            assert_eq!(room.id, "r");
            assert_eq!(room.homeserver, "h2");
            assert_eq!(user.nickname, "a");
            assert_eq!(user.homeserver, "h");
            assert_eq!(body, "hi");
        },
        other => panic!("expected a room message, got {:?}", other),
    }
}

#[test]
fn decode_event_id_field() {
    let msg = obj(vec![
        ("type", str_val("m.room.create")),
        ("event_id", str_val("$e:h")),
        ("room_id", str_val("!r:h")),
    ]);
    let ev = Event::from_json(msg).unwrap();
    let id = ev.id.unwrap();
    assert_eq!(id.id, "e");
    assert_eq!(id.homeserver, "h");
    assert!(matches!(ev.data, EventData::Room(_, RoomEvent::Create)));
}

#[test]
fn decode_event_id_malformed() {
    let msg = obj(vec![
        ("type", str_val("m.room.create")),
        ("event_id", str_val("nocolon")),
        ("room_id", str_val("!r:h")),
    ]);
    assert_eq!(Event::from_json(msg), Err(DecodeError::MalformedIdentifier));
}

#[test]
fn decode_event_id_not_a_string() {
    let msg = obj(vec![
        ("type", str_val("m.room.create")),
        ("event_id", JsonValue::Int(7)),
        ("room_id", str_val("!r:h")),
    ]);
    assert_eq!(Event::from_json(msg), Err(DecodeError::MissingOrMistypedField));
}

#[test]
fn decode_foreign_namespace_keeps_payload() {
    let build = || {
        obj(vec![
            ("type", str_val("org.example.custom")),
            ("content", obj(vec![("anything", JsonValue::Bool(true))])),
        ])
    };
    let ev = Event::from_json(build()).unwrap();
    assert!(ev.id.is_none());
    assert_eq!(ev.data, EventData::Unknown(build()));
}

#[test]
fn decode_unknown_room_subcategory_keeps_payload() {
    let build = || {
        obj(vec![
            ("type", str_val("m.room.third_party_invite")),
            ("room_id", str_val("!r:h")),
            ("content", obj(vec![("key", str_val("v"))])),
        ])
    };
    let ev = Event::from_json(build()).unwrap();
    match ev.data {
        EventData::Room(room, RoomEvent::Unknown(payload)) => {
            assert_eq!(room.id, "r");
            assert_eq!(payload, build());
        },
        other => panic!("expected the room fallback, got {:?}", other),
    }
}

#[test]
fn decode_membership_kicked_faults() {
    let msg = obj(vec![
        ("type", str_val("m.room.member")),
        ("room_id", str_val("!r:h")),
        ("user_id", str_val("@a:h")),
        ("content", obj(vec![("membership", str_val("kicked"))])),
    ]);
    assert_eq!(Event::from_json(msg), Err(DecodeError::UnrecognizedEnumLiteral));
}

#[test]
fn decode_membership_known() {
    let msg = obj(vec![
        ("type", str_val("m.room.member")),
        ("room_id", str_val("!r:h")),
        ("user_id", str_val("@a:h")),
        ("content", obj(vec![("membership", str_val("ban"))])),
    ]);
    let ev = Event::from_json(msg).unwrap();
    match ev.data {
        EventData::Room(_, RoomEvent::Membership(user, action)) => {
            assert_eq!(user.nickname, "a");
            assert_eq!(action, MembershipAction::Ban);
        },
        other => panic!("expected a membership event, got {:?}", other),
    }
}

#[test]
fn decode_join_rules_legacy_field() {
    let msg = obj(vec![
        ("type", str_val("m.room.join_rules")),
        ("room_id", str_val("!r:h")),
        ("content", obj(vec![("join_rule", str_val("public"))])),
    ]);
    let ev = Event::from_json(msg).unwrap();
    assert!(matches!(ev.data, EventData::Room(_, RoomEvent::JoinRules(r)) if r == "public"));
}

#[test]
fn decode_join_rules_current_field_wins() {
    let msg = obj(vec![
        ("type", str_val("m.room.join_rules")),
        ("room_id", str_val("!r:h")),
        (
            "content",
            obj(vec![
                ("join_rule", str_val("old")),
                ("join_rules", str_val("invite")),
            ]),
        ),
    ]);
    let ev = Event::from_json(msg).unwrap();
    assert!(matches!(ev.data, EventData::Room(_, RoomEvent::JoinRules(r)) if r == "invite"));
}

#[test]
fn decode_join_rules_missing_both_faults() {
    let msg = obj(vec![
        ("type", str_val("m.room.join_rules")),
        ("room_id", str_val("!r:h")),
        ("content", obj(vec![])),
    ]);
    assert_eq!(Event::from_json(msg), Err(DecodeError::MissingOrMistypedField));
}

#[test]
fn decode_typing_users_always_empty() {
    let msg = obj(vec![
        ("type", str_val("m.typing")),
        ("room_id", str_val("!r:h")),
        (
            "content",
            obj(vec![(
                "user_ids",
                JsonValue::Arr(vec![str_val("@a:h"), str_val("@b:h")]),
            )]),
        ),
    ]);
    let ev = Event::from_json(msg).unwrap();
    match ev.data {
        EventData::Typing(t) => {
            assert!(t.users.is_empty());
            assert_eq!(t.room.id, "r");
            assert_eq!(t.room.homeserver, "h");
        },
        other => panic!("expected a typing event, got {:?}", other),
    }
}

#[test]
fn decode_trims_category_string() {
    let msg = obj(vec![
        ("type", str_val(" m.typing")),
        ("room_id", str_val("!r:h")),
    ]);
    let ev = Event::from_json(msg).unwrap();
    assert!(matches!(ev.data, EventData::Typing(_)));

    let msg = obj(vec![
        ("type", str_val("m.typing \n")),
        ("room_id", str_val("!r:h")),
    ]);
    let ev = Event::from_json(msg).unwrap();
    assert!(matches!(ev.data, EventData::Typing(_)));

    let msg = obj(vec![
        ("type", str_val("\t m.room.message ")),
        ("room_id", str_val("!r:h")),
        ("user_id", str_val("@a:h")),
        ("content", obj(vec![("body", str_val("hi"))])),
    ]);
    let ev = Event::from_json(msg).unwrap();
    assert!(matches!(ev.data, EventData::Room(_, RoomEvent::Message(_, b)) if b == "hi"));
}

#[test]
fn decode_whitespace_inside_category_not_trimmed() {
    // Only surrounding whitespace is stripped; an inner space makes the
    // namespace token foreign and the payload falls back losslessly.
    let build = || obj(vec![("type", str_val("m .typing"))]);
    let ev = Event::from_json(build()).unwrap();
    assert_eq!(ev.data, EventData::Unknown(build()));
}

#[test]
fn decode_float_in_payload_survives_fallback() {
    let build = || {
        obj(vec![
            ("type", str_val("org.example.custom")),
            ("content", obj(vec![("ratio", JsonValue::FloatBits(0.5f64.to_bits()))])),
        ])
    };
    let ev = Event::from_json(build()).unwrap();
    assert_eq!(ev.data, EventData::Unknown(build()));
}

#[test]
fn decode_presence() {
    let msg = obj(vec![
        ("type", str_val("m.presence")),
        (
            "content",
            obj(vec![
                ("presence", str_val("online")),
                ("user_id", str_val("@a:h")),
            ]),
        ),
    ]);
    let ev = Event::from_json(msg).unwrap();
    match ev.data {
        EventData::Presence(p) => {
            assert_eq!(p.presence, "online");
            assert_eq!(p.user.nickname, "a");
            assert_eq!(p.user.homeserver, "h");
        },
        other => panic!("expected a presence event, got {:?}", other),
    }
}

#[test]
fn decode_unknown_top_level_category_faults() {
    let msg = obj(vec![("type", str_val("m.call.invite"))]);
    assert_eq!(Event::from_json(msg), Err(DecodeError::UnrecognizedTopLevelCategory));
}

#[test]
fn decode_short_category_string_faults() {
    let msg = obj(vec![("type", str_val("m"))]);
    assert_eq!(Event::from_json(msg), Err(DecodeError::UnrecognizedTopLevelCategory));
    let msg = obj(vec![("type", str_val("m.room")), ("room_id", str_val("!r:h"))]);
    assert_eq!(Event::from_json(msg), Err(DecodeError::UnrecognizedTopLevelCategory));
}

#[test]
fn decode_missing_type_faults() {
    let msg = obj(vec![("room_id", str_val("!r:h"))]);
    assert_eq!(Event::from_json(msg), Err(DecodeError::MissingOrMistypedField));
    assert_eq!(
        Event::from_json(JsonValue::Null),
        Err(DecodeError::MissingOrMistypedField)
    );
}

#[test]
fn decode_malformed_room_id_faults() {
    let msg = obj(vec![
        ("type", str_val("m.room.create")),
        ("room_id", str_val(":h")),
    ]);
    assert_eq!(Event::from_json(msg), Err(DecodeError::MalformedIdentifier));
}

#[test]
fn decode_canonical_alias() {
    let msg = obj(vec![
        ("type", str_val("m.room.canonical_alias")),
        ("room_id", str_val("!r:h")),
        ("content", obj(vec![("alias", str_val("#main:h"))])),
    ]);
    let ev = Event::from_json(msg).unwrap();
    assert!(matches!(ev.data, EventData::Room(_, RoomEvent::CanonicalAlias(a)) if a == "#main:h"));
}

#[test]
fn decode_history_visibility() {
    let msg = obj(vec![
        ("type", str_val("m.room.history_visibility")),
        ("room_id", str_val("!r:h")),
        ("content", obj(vec![("history_visibility", str_val("shared"))])),
    ]);
    let ev = Event::from_json(msg).unwrap();
    assert!(
        matches!(ev.data, EventData::Room(_, RoomEvent::HistoryVisibility(v)) if v == "shared")
    );
}

#[test]
fn decode_power_levels() {
    let msg = obj(vec![
        ("type", str_val("m.room.power_levels")),
        ("room_id", str_val("!r:h")),
        ("content", obj(vec![("users_default", JsonValue::Int(0))])),
    ]);
    let ev = Event::from_json(msg).unwrap();
    assert!(matches!(ev.data, EventData::Room(_, RoomEvent::PowerLevels)));
}

#[test]
fn decode_aliases() {
    let msg = obj(vec![
        ("type", str_val("m.room.aliases")),
        ("room_id", str_val("!r:h")),
        (
            "content",
            obj(vec![(
                "aliases",
                JsonValue::Arr(vec![str_val("#a:h"), str_val("#b:h")]),
            )]),
        ),
    ]);
    let ev = Event::from_json(msg).unwrap();
    assert!(
        matches!(ev.data, EventData::Room(_, RoomEvent::Aliases(a)) if a == vec![s("#a:h"), s("#b:h")])
    );
}

#[test]
fn decode_aliases_non_string_element_faults() {
    let msg = obj(vec![
        ("type", str_val("m.room.aliases")),
        ("room_id", str_val("!r:h")),
        (
            "content",
            obj(vec![(
                "aliases",
                JsonValue::Arr(vec![str_val("#a:h"), JsonValue::Int(3)]),
            )]),
        ),
    ]);
    assert_eq!(Event::from_json(msg), Err(DecodeError::MissingOrMistypedField));
}

#[test]
fn decode_name_topic_avatar() {
    for (sub, field, variant_check) in [
        ("name", "name", 0),
        ("topic", "topic", 1),
        ("avatar", "url", 2),
    ] {
        let msg = obj(vec![
            ("type", str_val(&format!("m.room.{}", sub))),
            ("room_id", str_val("!r:h")),
            ("user_id", str_val("@a:h")),
            ("content", obj(vec![(field, str_val("value"))])),
        ]);
        let ev = Event::from_json(msg).unwrap();
        match (variant_check, ev.data) {
            (0, EventData::Room(_, RoomEvent::Name(u, v))) => {
                assert_eq!(u.nickname, "a");
                assert_eq!(v, "value");
            },
            (1, EventData::Room(_, RoomEvent::Topic(u, v))) => {
                assert_eq!(u.nickname, "a");
                assert_eq!(v, "value");
            },
            (2, EventData::Room(_, RoomEvent::Avatar(u, v))) => {
                assert_eq!(u.nickname, "a");
                assert_eq!(v, "value");
            },
            (_, other) => panic!("unexpected decode for {}: {:?}", sub, other),
        }
    }
}

#[test]
fn decode_message_missing_body_faults() {
    let msg = obj(vec![
        ("type", str_val("m.room.message")),
        ("room_id", str_val("!r:h")),
        ("user_id", str_val("@a:h")),
        ("content", obj(vec![("msgtype", str_val("m.text"))])),
    ]);
    assert_eq!(Event::from_json(msg), Err(DecodeError::MissingOrMistypedField));
}

#[test]
fn membership_literals() {
    assert_eq!(MembershipAction::from_str("join"), MembershipAction::Join);
    assert_eq!(MembershipAction::from_str("leave"), MembershipAction::Leave);
    assert_eq!(MembershipAction::from_str("ban"), MembershipAction::Ban);
    assert_eq!(MembershipAction::from_str("invite"), MembershipAction::Invite);
    assert_eq!(MembershipAction::try_from_str("kicked"), None);
    assert_eq!(MembershipAction::try_from_str("Join"), None);
}
