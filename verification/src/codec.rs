//! The decoder and the encoder.
//!
//! `spec_decode` states, over the structured-data model, exactly which
//! event every inbound message maps to, or which fault it raises;
//! `Event::from_json` implements it. The encoder covers exactly one
//! outbound category, outgoing text messages.

use vstd::prelude::*;
use vstd::string::StrSliceExecFns;
use crate::events::{
    Event, EventData, EventDataView, EventView, MembershipAction, PresenceEvent, PresenceView,
    RoomEvent, RoomEventView, TypingEvent, TypingView, spec_membership,
};
use crate::identifiers::{
    EventID, IdView, RoomID, UserID, is_wire_wf, split_wire, wire_view, wire_wf,
};
use crate::json::{JsonValue, spec_get, spec_get2, spec_get_str, spec_get_str2};
use crate::strutil::{find_from, lemma_sep_from, sep_from, str_eq, trim, trim_ws};

verus! {

/// The faults a decode or encode call can report. Unrecognized room
/// subcategories and foreign namespaces are not here: those degrade into
/// the lossless fallback variants instead.
#[derive(Clone, Copy, Debug, PartialEq, Eq, Structural)]
pub enum DecodeError {
    /// A wire identifier string lacks the `:`-separated structure.
    MalformedIdentifier,
    /// A required field is absent or not of the required shape.
    MissingOrMistypedField,
    /// A membership literal outside the closed set.
    UnrecognizedEnumLiteral,
    /// A category in the protocol's namespace that matches no known
    /// top-level kind, or a category string with too few segments.
    UnrecognizedTopLevelCategory,
}

/// The end of the category string's first dot-segment.
pub open spec fn dot0(t: Seq<char>) -> int {
    sep_from(t, '.', 0)
}

/// The first dot-segment: the namespace token.
pub open spec fn tok0(t: Seq<char>) -> Seq<char> {
    t.subrange(0, dot0(t))
}

/// The end of the second dot-segment.
pub open spec fn dot1(t: Seq<char>) -> int {
    sep_from(t, '.', dot0(t) + 1)
}

/// The second dot-segment: the top-level kind.
pub open spec fn tok1(t: Seq<char>) -> Seq<char> {
    t.subrange(dot0(t) + 1, dot1(t))
}

/// The end of the third dot-segment.
pub open spec fn dot2(t: Seq<char>) -> int {
    sep_from(t, '.', dot1(t) + 1)
}

/// The third dot-segment: the room subcategory.
pub open spec fn tok2(t: Seq<char>) -> Seq<char> {
    t.subrange(dot1(t) + 1, dot2(t))
}

/// The identifier carried by the optional `event_id` field: absent is
/// fine, a non-string or malformed value is a fault.
pub open spec fn spec_event_id(msg: JsonValue) -> Result<Option<IdView>, DecodeError> {
    match spec_get(msg, "event_id"@) {
        None => Ok(None),
        Some(JsonValue::Str(s)) => if wire_wf(s@) {
            Ok(Some(wire_view(s@)))
        } else {
            Err(DecodeError::MalformedIdentifier)
        },
        Some(_) => Err(DecodeError::MissingOrMistypedField),
    }
}

/// The identifier carried by a required string field.
pub open spec fn spec_id_field(msg: JsonValue, key: Seq<char>) -> Result<IdView, DecodeError> {
    match spec_get_str(msg, key) {
        Some(s) => if wire_wf(s) {
            Ok(wire_view(s))
        } else {
            Err(DecodeError::MalformedIdentifier)
        },
        None => Err(DecodeError::MissingOrMistypedField),
    }
}

/// The identifier carried by a required string field two levels down.
pub open spec fn spec_id_field2(msg: JsonValue, k1: Seq<char>, k2: Seq<char>) -> Result<
    IdView,
    DecodeError,
> {
    match spec_get_str2(msg, k1, k2) {
        Some(s) => if wire_wf(s) {
            Ok(wire_view(s))
        } else {
            Err(DecodeError::MalformedIdentifier)
        },
        None => Err(DecodeError::MissingOrMistypedField),
    }
}

/// Every element of the sequence is a string node.
pub open spec fn all_strings(a: Seq<JsonValue>) -> bool {
    forall|i: int| 0 <= i < a.len() ==> a[i] is Str
}

/// The texts of a sequence of string nodes.
pub open spec fn string_views(a: Seq<JsonValue>) -> Seq<Seq<char>> {
    a.map_values(|v: JsonValue| v->Str_0@)
}

/// The room-scoped event a message decodes to under the given
/// subcategory, or the fault it raises. A subcategory outside the
/// recognized list keeps the whole payload in the `Unknown` fallback.
pub open spec fn spec_room_event(msg: JsonValue, sub: Seq<char>) -> Result<
    RoomEventView,
    DecodeError,
> {
    if sub == "canonical_alias"@ {
        match spec_get_str2(msg, "content"@, "alias"@) {
            Some(a) => Ok(RoomEventView::CanonicalAlias(a)),
            None => Err(DecodeError::MissingOrMistypedField),
        }
    } else if sub == "join_rules"@ {
        if spec_get2(msg, "content"@, "join_rules"@) is None {
            match spec_get_str2(msg, "content"@, "join_rule"@) {
                Some(r) => Ok(RoomEventView::JoinRules(r)),
                None => Err(DecodeError::MissingOrMistypedField),
            }
        } else {
            match spec_get_str2(msg, "content"@, "join_rules"@) {
                Some(r) => Ok(RoomEventView::JoinRules(r)),
                None => Err(DecodeError::MissingOrMistypedField),
            }
        }
    } else if sub == "member"@ {
        match spec_id_field(msg, "user_id"@) {
            Ok(u) => match spec_get_str2(msg, "content"@, "membership"@) {
                Some(m) => match spec_membership(m) {
                    Some(a) => Ok(RoomEventView::Membership(u, a)),
                    None => Err(DecodeError::UnrecognizedEnumLiteral),
                },
                None => Err(DecodeError::MissingOrMistypedField),
            },
            Err(e) => Err(e),
        }
    } else if sub == "history_visibility"@ {
        match spec_get_str2(msg, "content"@, "history_visibility"@) {
            Some(v) => Ok(RoomEventView::HistoryVisibility(v)),
            None => Err(DecodeError::MissingOrMistypedField),
        }
    } else if sub == "create"@ {
        Ok(RoomEventView::Create)
    } else if sub == "aliases"@ {
        match spec_get2(msg, "content"@, "aliases"@) {
            Some(JsonValue::Arr(a)) => if all_strings(a@) {
                Ok(RoomEventView::Aliases(string_views(a@)))
            } else {
                Err(DecodeError::MissingOrMistypedField)
            },
            _ => Err(DecodeError::MissingOrMistypedField),
        }
    } else if sub == "power_levels"@ {
        Ok(RoomEventView::PowerLevels)
    } else if sub == "message"@ {
        match spec_id_field(msg, "user_id"@) {
            Ok(u) => match spec_get_str2(msg, "content"@, "body"@) {
                Some(b) => Ok(RoomEventView::Message(u, b)),
                None => Err(DecodeError::MissingOrMistypedField),
            },
            Err(e) => Err(e),
        }
    } else if sub == "name"@ {
        match spec_id_field(msg, "user_id"@) {
            Ok(u) => match spec_get_str2(msg, "content"@, "name"@) {
                Some(n) => Ok(RoomEventView::Name(u, n)),
                None => Err(DecodeError::MissingOrMistypedField),
            },
            Err(e) => Err(e),
        }
    } else if sub == "topic"@ {
        match spec_id_field(msg, "user_id"@) {
            Ok(u) => match spec_get_str2(msg, "content"@, "topic"@) {
                Some(t) => Ok(RoomEventView::Topic(u, t)),
                None => Err(DecodeError::MissingOrMistypedField),
            },
            Err(e) => Err(e),
        }
    } else if sub == "avatar"@ {
        match spec_id_field(msg, "user_id"@) {
            Ok(u) => match spec_get_str2(msg, "content"@, "url"@) {
                Some(l) => Ok(RoomEventView::Avatar(u, l)),
                None => Err(DecodeError::MissingOrMistypedField),
            },
            Err(e) => Err(e),
        }
    } else {
        Ok(RoomEventView::Unknown(msg))
    }
}

/// The event a message decodes to, or the fault it raises.
///
/// The category string is read from `type`, trimmed of surrounding
/// whitespace and split on `.`. A namespace other than the protocol's own
/// keeps the whole payload in the top-level `Unknown` fallback; inside
/// the namespace, only `room`, `typing` and `presence` are known, and a
/// category string with too few segments is reported as
/// `UnrecognizedTopLevelCategory`.
pub open spec fn spec_decode(msg: JsonValue) -> Result<EventView, DecodeError> {
    match spec_get_str(msg, "type"@) {
        None => Err(DecodeError::MissingOrMistypedField),
        Some(raw) => match spec_event_id(msg) {
            Err(e) => Err(e),
            Ok(id) => {
                let t = trim_ws(raw);
                if tok0(t) != "m"@ {
                    Ok(EventView { id, data: EventDataView::Unknown(msg) })
                } else if dot0(t) >= t.len() {
                    Err(DecodeError::UnrecognizedTopLevelCategory)
                } else if tok1(t) == "room"@ {
                    if dot1(t) >= t.len() {
                        Err(DecodeError::UnrecognizedTopLevelCategory)
                    } else {
                        match spec_id_field(msg, "room_id"@) {
                            Err(e) => Err(e),
                            Ok(room) => match spec_room_event(msg, tok2(t)) {
                                Err(e) => Err(e),
                                Ok(ev) => Ok(
                                    EventView { id, data: EventDataView::Room(room, ev) },
                                ),
                            },
                        }
                    }
                } else if tok1(t) == "typing"@ {
                    match spec_id_field(msg, "room_id"@) {
                        Err(e) => Err(e),
                        Ok(room) => Ok(
                            EventView {
                                id,
                                data: EventDataView::Typing(
                                    TypingView { users: Seq::empty(), room },
                                ),
                            },
                        ),
                    }
                } else if tok1(t) == "presence"@ {
                    match spec_get_str2(msg, "content"@, "presence"@) {
                        None => Err(DecodeError::MissingOrMistypedField),
                        Some(p) => match spec_id_field2(msg, "content"@, "user_id"@) {
                            Err(e) => Err(e),
                            Ok(u) => Ok(
                                EventView {
                                    id,
                                    data: EventDataView::Presence(
                                        PresenceView { presence: p, user: u },
                                    ),
                                },
                            ),
                        },
                    }
                } else {
                    Err(DecodeError::UnrecognizedTopLevelCategory)
                }
            },
        },
    }
}

/// The view of a decode result.
pub open spec fn res_view(r: Result<Event, DecodeError>) -> Result<EventView, DecodeError> {
    match r {
        Ok(ev) => Ok(ev@),
        Err(e) => Err(e),
    }
}

/// Reads the required identifier field `key` and splits it into its local
/// part and homeserver.
fn id_field(msg: &JsonValue, key: &str) -> (r: Result<(String, String), DecodeError>)
    ensures
        match r {
            Ok(p) => spec_id_field(*msg, key@) == Ok::<IdView, DecodeError>(
                IdView { local: p.0@, host: p.1@ },
            ),
            Err(e) => spec_id_field(*msg, key@) == Err::<IdView, DecodeError>(e),
        },
{
    match msg.get_str(key) {
        Some(s) => {
            if is_wire_wf(s.as_str()) {
                Ok(split_wire(s.as_str()))
            } else {
                Err(DecodeError::MalformedIdentifier)
            }
        },
        None => Err(DecodeError::MissingOrMistypedField),
    }
}

/// Reads the required identifier field under `k1` then `k2` and splits it
/// into its local part and homeserver.
fn id_field2(msg: &JsonValue, k1: &str, k2: &str) -> (r: Result<(String, String), DecodeError>)
    ensures
        match r {
            Ok(p) => spec_id_field2(*msg, k1@, k2@) == Ok::<IdView, DecodeError>(
                IdView { local: p.0@, host: p.1@ },
            ),
            Err(e) => spec_id_field2(*msg, k1@, k2@) == Err::<IdView, DecodeError>(e),
        },
{
    match msg.get_str2(k1, k2) {
        Some(s) => {
            if is_wire_wf(s.as_str()) {
                Ok(split_wire(s.as_str()))
            } else {
                Err(DecodeError::MalformedIdentifier)
            }
        },
        None => Err(DecodeError::MissingOrMistypedField),
    }
}

/// Decodes the room-scoped part of a message; `sub` is the third
/// dot-segment of its category string.
fn room_event(msg: JsonValue, sub: &str) -> (r: Result<RoomEvent, DecodeError>)
    ensures
        match r {
            Ok(ev) => spec_room_event(msg, sub@) == Ok::<RoomEventView, DecodeError>(ev@),
            Err(e) => spec_room_event(msg, sub@) == Err::<RoomEventView, DecodeError>(e),
        },
{
    if str_eq(sub, "canonical_alias") {
        match msg.get_str2("content", "alias") {
            Some(a) => Ok(RoomEvent::CanonicalAlias(a.clone())),
            None => Err(DecodeError::MissingOrMistypedField),
        }
    } else if str_eq(sub, "join_rules") {
        let legacy = match msg.get2("content", "join_rules") {
            Some(_) => false,
            None => true,
        };
        let field = if legacy {
            msg.get_str2("content", "join_rule")
        } else {
            msg.get_str2("content", "join_rules")
        };
        match field {
            Some(r) => Ok(RoomEvent::JoinRules(r.clone())),
            None => Err(DecodeError::MissingOrMistypedField),
        }
    } else if str_eq(sub, "member") {
        let user = match id_field(&msg, "user_id") {
            Ok((nickname, homeserver)) => UserID { nickname, homeserver },
            Err(e) => {
                return Err(e);
            },
        };
        match msg.get_str2("content", "membership") {
            Some(m) => match MembershipAction::try_from_str(m.as_str()) {
                Some(a) => Ok(RoomEvent::Membership(user, a)),
                None => Err(DecodeError::UnrecognizedEnumLiteral),
            },
            None => Err(DecodeError::MissingOrMistypedField),
        }
    } else if str_eq(sub, "history_visibility") {
        match msg.get_str2("content", "history_visibility") {
            Some(v) => Ok(RoomEvent::HistoryVisibility(v.clone())),
            None => Err(DecodeError::MissingOrMistypedField),
        }
    } else if str_eq(sub, "create") {
        Ok(RoomEvent::Create)
    } else if str_eq(sub, "aliases") {
        match msg.get2("content", "aliases") {
            Some(JsonValue::Arr(a)) => {
                let n = a.len();
                let mut out: Vec<String> = Vec::new();
                let mut i: usize = 0;
                while i < n
                    invariant
                        i <= n,
                        n == a@.len(),
                        out@.len() == i,
                        spec_room_event(msg, sub@) == (if all_strings(a@) {
                            Ok::<RoomEventView, DecodeError>(
                                RoomEventView::Aliases(string_views(a@)),
                            )
                        } else {
                            Err::<RoomEventView, DecodeError>(DecodeError::MissingOrMistypedField)
                        }),
                        forall|j: int| 0 <= j < i ==> a@[j] is Str,
                        forall|j: int| 0 <= j < i ==> out@[j]@ == a@[j]->Str_0@,
                    decreases n - i,
                {
                    match &a[i] {
                        JsonValue::Str(s) => {
                            out.push(s.clone());
                        },
                        _ => {
                            proof {
                                assert(!(a@[i as int] is Str));
                                assert(!all_strings(a@));
                            }
                            return Err(DecodeError::MissingOrMistypedField);
                        },
                    }
                    i += 1;
                }
                proof {
                    assert(all_strings(a@));
                    assert(out@.map_values(|s: String| s@) =~= string_views(a@));
                }
                Ok(RoomEvent::Aliases(out))
            },
            _ => Err(DecodeError::MissingOrMistypedField),
        }
    } else if str_eq(sub, "power_levels") {
        Ok(RoomEvent::PowerLevels)
    } else if str_eq(sub, "message") {
        let user = match id_field(&msg, "user_id") {
            Ok((nickname, homeserver)) => UserID { nickname, homeserver },
            Err(e) => {
                return Err(e);
            },
        };
        match msg.get_str2("content", "body") {
            Some(b) => Ok(RoomEvent::Message(user, b.clone())),
            None => Err(DecodeError::MissingOrMistypedField),
        }
    } else if str_eq(sub, "name") {
        let user = match id_field(&msg, "user_id") {
            Ok((nickname, homeserver)) => UserID { nickname, homeserver },
            Err(e) => {
                return Err(e);
            },
        };
        match msg.get_str2("content", "name") {
            Some(n) => Ok(RoomEvent::Name(user, n.clone())),
            None => Err(DecodeError::MissingOrMistypedField),
        }
    } else if str_eq(sub, "topic") {
        let user = match id_field(&msg, "user_id") {
            Ok((nickname, homeserver)) => UserID { nickname, homeserver },
            Err(e) => {
                return Err(e);
            },
        };
        match msg.get_str2("content", "topic") {
            Some(t) => Ok(RoomEvent::Topic(user, t.clone())),
            None => Err(DecodeError::MissingOrMistypedField),
        }
    } else if str_eq(sub, "avatar") {
        let user = match id_field(&msg, "user_id") {
            Ok((nickname, homeserver)) => UserID { nickname, homeserver },
            Err(e) => {
                return Err(e);
            },
        };
        match msg.get_str2("content", "url") {
            Some(l) => Ok(RoomEvent::Avatar(user, l.clone())),
            None => Err(DecodeError::MissingOrMistypedField),
        }
    } else {
        Ok(RoomEvent::Unknown(msg))
    }
}

impl Event {
    /// Decodes one inbound message into a typed event, exactly as
    /// `spec_decode` states.
    pub fn from_json(msg: JsonValue) -> (r: Result<Event, DecodeError>)
        ensures
            res_view(r) == spec_decode(msg),
    {
        let ty: String = match msg.get_str("type") {
            Some(s) => s.clone(),
            None => {
                return Err(DecodeError::MissingOrMistypedField);
            },
        };
        let id: Option<EventID> = match msg.get("event_id") {
            None => None,
            Some(JsonValue::Str(s)) => {
                if is_wire_wf(s.as_str()) {
                    Some(EventID::from_str(s.as_str()))
                } else {
                    return Err(DecodeError::MalformedIdentifier);
                }
            },
            Some(_) => {
                return Err(DecodeError::MissingOrMistypedField);
            },
        };
        let t = trim(ty.as_str());
        let n = t.unicode_len();
        let d0 = find_from(t, '.', 0);
        proof {
            lemma_sep_from(t@, '.', 0);
        }
        if !str_eq(t.substring_char(0, d0), "m") {
            return Ok(Event { id, data: EventData::Unknown(msg) });
        }
        if d0 == n {
            return Err(DecodeError::UnrecognizedTopLevelCategory);
        }
        let d1 = find_from(t, '.', d0 + 1);
        proof {
            lemma_sep_from(t@, '.', d0 as int + 1);
        }
        let t1 = t.substring_char(d0 + 1, d1);
        if str_eq(t1, "room") {
            if d1 == n {
                return Err(DecodeError::UnrecognizedTopLevelCategory);
            }
            let room = match id_field(&msg, "room_id") {
                Ok((id, homeserver)) => RoomID { id, homeserver },
                Err(e) => {
                    return Err(e);
                },
            };
            let d2 = find_from(t, '.', d1 + 1);
            proof {
                lemma_sep_from(t@, '.', d1 as int + 1);
            }
            let sub = t.substring_char(d1 + 1, d2);
            match room_event(msg, sub) {
                Ok(ev) => Ok(Event { id, data: EventData::Room(room, ev) }),
                Err(e) => Err(e),
            }
        } else if str_eq(t1, "typing") {
            let room = match id_field(&msg, "room_id") {
                Ok((id, homeserver)) => RoomID { id, homeserver },
                Err(e) => {
                    return Err(e);
                },
            };
            let users: Vec<UserID> = Vec::new();
            proof {
                assert(users@.map_values(|u: UserID| u@) =~= Seq::<IdView>::empty());
            }
            Ok(Event { id, data: EventData::Typing(TypingEvent { users, room }) })
        } else if str_eq(t1, "presence") {
            let presence: String = match msg.get_str2("content", "presence") {
                Some(p) => p.clone(),
                None => {
                    return Err(DecodeError::MissingOrMistypedField);
                },
            };
            let user = match id_field2(&msg, "content", "user_id") {
                Ok((nickname, homeserver)) => UserID { nickname, homeserver },
                Err(e) => {
                    return Err(e);
                },
            };
            Ok(Event { id, data: EventData::Presence(PresenceEvent { presence, user }) })
        } else {
            Err(DecodeError::UnrecognizedTopLevelCategory)
        }
    }
}

/// The one category the encoder covers: an outgoing text message.
pub open spec fn encodable(d: EventDataView) -> bool {
    d matches EventDataView::Room(_, RoomEventView::Message(_, _))
}

/// The text of an outgoing text message.
pub open spec fn message_body(d: EventDataView) -> Seq<char> {
    match d {
        EventDataView::Room(_, RoomEventView::Message(_, b)) => b,
        _ => Seq::empty(),
    }
}

/// `r` is the wire payload `{"msgtype": "m.text", "body": <body>}`.
pub open spec fn spec_encoded(body: Seq<char>, r: JsonValue) -> bool {
    &&& r is Obj
    &&& r->Obj_0@.len() == 2
    &&& r->Obj_0@[0].0@ == "msgtype"@
    &&& r->Obj_0@[0].1 is Str
    &&& r->Obj_0@[0].1->Str_0@ == "m.text"@
    &&& r->Obj_0@[1].0@ == "body"@
    &&& r->Obj_0@[1].1 is Str
    &&& r->Obj_0@[1].1->Str_0@ == body
}

impl EventData {
    /// The category string a caller attaches to an outbound value;
    /// defined, like the encoder, only for outgoing text messages.
    pub fn type_str(&self) -> (r: &'static str)
        requires
            encodable(self@),
        ensures
            r@ == "m.room.message"@,
    {
        match self {
            EventData::Room(_, RoomEvent::Message(_, _)) => "m.room.message",
            _ => vstd::pervasive::unreached(),
        }
    }

    /// Renders an outgoing text message to its wire payload
    /// `{"msgtype": "m.text", "body": <text>}`; no other category has an
    /// encoding.
    pub fn to_json(&self) -> (r: JsonValue)
        requires
            encodable(self@),
        ensures
            spec_encoded(message_body(self@), r),
    {
        match self {
            EventData::Room(_, RoomEvent::Message(_, text)) => {
                let mut es: Vec<(String, JsonValue)> = Vec::new();
                es.push(("msgtype".to_owned(), JsonValue::Str("m.text".to_owned())));
                es.push(("body".to_owned(), JsonValue::Str(text.clone())));
                JsonValue::Obj(es)
            },
            _ => vstd::pervasive::unreached(),
        }
    }
}

/// A message whose category string opens with a foreign namespace token
/// decodes to the top-level fallback, the payload kept unchanged.
pub proof fn lemma_foreign_namespace_fallback(msg: JsonValue)
    requires
        spec_get_str(msg, "type"@) is Some,
        spec_event_id(msg) is Ok,
        tok0(trim_ws(spec_get_str(msg, "type"@)->Some_0)) != "m"@,
    ensures
        spec_decode(msg) == Ok::<EventView, DecodeError>(
            EventView { id: spec_event_id(msg)->Ok_0, data: EventDataView::Unknown(msg) },
        ),
{
}

/// A room message whose subcategory matches none of the recognized list
/// decodes to the room-level fallback, the payload kept, never a fault.
pub proof fn lemma_unknown_subcategory_fallback(msg: JsonValue)
    requires
        spec_get_str(msg, "type"@) is Some,
        spec_event_id(msg) is Ok,
        ({
            let t = trim_ws(spec_get_str(msg, "type"@)->Some_0);
            &&& tok0(t) == "m"@
            &&& dot0(t) < t.len()
            &&& tok1(t) == "room"@
            &&& dot1(t) < t.len()
            &&& tok2(t) != "canonical_alias"@
            &&& tok2(t) != "join_rules"@
            &&& tok2(t) != "member"@
            &&& tok2(t) != "history_visibility"@
            &&& tok2(t) != "create"@
            &&& tok2(t) != "aliases"@
            &&& tok2(t) != "power_levels"@
            &&& tok2(t) != "message"@
            &&& tok2(t) != "name"@
            &&& tok2(t) != "topic"@
            &&& tok2(t) != "avatar"@
        }),
        spec_id_field(msg, "room_id"@) is Ok,
    ensures
        spec_decode(msg) == Ok::<EventView, DecodeError>(
            EventView {
                id: spec_event_id(msg)->Ok_0,
                data: EventDataView::Room(
                    spec_id_field(msg, "room_id"@)->Ok_0,
                    RoomEventView::Unknown(msg),
                ),
            },
        ),
{
}

/// A join-rules event that lacks `content.join_rules` but carries the
/// legacy `content.join_rule` field decodes through the legacy name.
pub proof fn lemma_join_rules_legacy_field(msg: JsonValue)
    requires
        spec_get_str(msg, "type"@) is Some,
        spec_event_id(msg) is Ok,
        ({
            let t = trim_ws(spec_get_str(msg, "type"@)->Some_0);
            &&& tok0(t) == "m"@
            &&& dot0(t) < t.len()
            &&& tok1(t) == "room"@
            &&& dot1(t) < t.len()
            &&& tok2(t) == "join_rules"@
        }),
        spec_id_field(msg, "room_id"@) is Ok,
        spec_get2(msg, "content"@, "join_rules"@) is None,
        spec_get_str2(msg, "content"@, "join_rule"@) is Some,
    ensures
        spec_decode(msg) == Ok::<EventView, DecodeError>(
            EventView {
                id: spec_event_id(msg)->Ok_0,
                data: EventDataView::Room(
                    spec_id_field(msg, "room_id"@)->Ok_0,
                    RoomEventView::JoinRules(spec_get_str2(msg, "content"@, "join_rule"@)->Some_0),
                ),
            },
        ),
{
    reveal_strlit("canonical_alias");
    reveal_strlit("join_rules");
    assert("join_rules"@.len() == 10);
    assert("canonical_alias"@.len() == 15);
    assert("join_rules"@ != "canonical_alias"@);
}

/// A typing notification always decodes to an empty actor list, whatever
/// actor list its payload carries.
pub proof fn lemma_typing_users_empty(msg: JsonValue)
    ensures
        spec_decode(msg) matches Ok(ev) ==> ev.data matches EventDataView::Typing(t)
            ==> t.users == Seq::<IdView>::empty(),
{
}

} // verus!
