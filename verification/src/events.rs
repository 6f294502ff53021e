//! The event taxonomy: the closed set of recognized category shapes, with
//! explicit fallback arms that keep an unrecognized payload losslessly at
//! two levels (unrecognized room subcategory, unrecognized top-level
//! category), and the spec-level views of every shape.

use vstd::prelude::*;
use crate::identifiers::{EventID, IdView, RoomID, UserID};
use crate::json::JsonValue;
use crate::strutil::str_eq;

verus! {

/// The closed set of membership changes. An unrecognized membership
/// literal is a hard decode failure, not a fallback.
#[derive(Clone, Copy, Debug, PartialEq, Eq, Structural)]
pub enum MembershipAction {
    Join,
    Leave,
    Ban,
    Invite,
}

/// The membership action a wire literal names, if any; the four known
/// literals are matched case-sensitively.
pub open spec fn spec_membership(s: Seq<char>) -> Option<MembershipAction> {
    if s == "join"@ {
        Some(MembershipAction::Join)
    } else if s == "leave"@ {
        Some(MembershipAction::Leave)
    } else if s == "ban"@ {
        Some(MembershipAction::Ban)
    } else if s == "invite"@ {
        Some(MembershipAction::Invite)
    } else {
        None
    }
}

impl MembershipAction {
    /// The action a wire literal names, or `None` outside the closed set.
    pub fn try_from_str(s: &str) -> (r: Option<Self>)
        ensures
            r == spec_membership(s@),
    {
        if str_eq(s, "join") {
            Some(MembershipAction::Join)
        } else if str_eq(s, "leave") {
            Some(MembershipAction::Leave)
        } else if str_eq(s, "ban") {
            Some(MembershipAction::Ban)
        } else if str_eq(s, "invite") {
            Some(MembershipAction::Invite)
        } else {
            None
        }
    }

    /// Maps one of the four known literals to its action.
    pub fn from_str(s: &str) -> (r: Self)
        requires
            spec_membership(s@) is Some,
        ensures
            Some(r) == spec_membership(s@),
    {
        match Self::try_from_str(s) {
            Some(a) => a,
            None => vstd::pervasive::unreached(),
        }
    }
}

/// A room-scoped event shape; `Unknown` keeps the whole original payload
/// of any room subcategory outside the recognized list.
#[derive(Debug, PartialEq)]
pub enum RoomEvent {
    CanonicalAlias(String),
    JoinRules(String),
    Membership(UserID, MembershipAction),
    HistoryVisibility(String),
    Create,
    Aliases(Vec<String>),
    Message(UserID, String),
    PowerLevels,
    Name(UserID, String),
    Avatar(UserID, String),
    Topic(UserID, String),
    Unknown(JsonValue),
}

/// The view of a room-scoped event shape.
#[verifier::ext_equal]
pub enum RoomEventView {
    CanonicalAlias(Seq<char>),
    JoinRules(Seq<char>),
    Membership(IdView, MembershipAction),
    HistoryVisibility(Seq<char>),
    Create,
    Aliases(Seq<Seq<char>>),
    Message(IdView, Seq<char>),
    PowerLevels,
    Name(IdView, Seq<char>),
    Avatar(IdView, Seq<char>),
    Topic(IdView, Seq<char>),
    Unknown(JsonValue),
}

impl View for RoomEvent {
    type V = RoomEventView;

    open spec fn view(&self) -> RoomEventView {
        match self {
            RoomEvent::CanonicalAlias(a) => RoomEventView::CanonicalAlias(a@),
            RoomEvent::JoinRules(r) => RoomEventView::JoinRules(r@),
            RoomEvent::Membership(u, a) => RoomEventView::Membership(u@, *a),
            RoomEvent::HistoryVisibility(v) => RoomEventView::HistoryVisibility(v@),
            RoomEvent::Create => RoomEventView::Create,
            RoomEvent::Aliases(a) => RoomEventView::Aliases(
                a@.map_values(|s: String| s@),
            ),
            RoomEvent::Message(u, b) => RoomEventView::Message(u@, b@),
            RoomEvent::PowerLevels => RoomEventView::PowerLevels,
            RoomEvent::Name(u, n) => RoomEventView::Name(u@, n@),
            RoomEvent::Avatar(u, l) => RoomEventView::Avatar(u@, l@),
            RoomEvent::Topic(u, t) => RoomEventView::Topic(u@, t@),
            RoomEvent::Unknown(j) => RoomEventView::Unknown(*j),
        }
    }
}

/// Actors currently typing in a room.
#[derive(Debug, PartialEq)]
pub struct TypingEvent {
    pub users: Vec<UserID>,
    pub room: RoomID,
}

/// The view of a typing notification.
#[verifier::ext_equal]
pub struct TypingView {
    pub users: Seq<IdView>,
    pub room: IdView,
}

impl View for TypingEvent {
    type V = TypingView;

    open spec fn view(&self) -> TypingView {
        TypingView { users: self.users@.map_values(|u: UserID| u@), room: self.room@ }
    }
}

/// An actor's presence change.
#[derive(Debug, PartialEq)]
pub struct PresenceEvent {
    pub presence: String,
    pub user: UserID,
}

/// The view of a presence change.
#[verifier::ext_equal]
pub struct PresenceView {
    pub presence: Seq<char>,
    pub user: IdView,
}

impl View for PresenceEvent {
    type V = PresenceView;

    open spec fn view(&self) -> PresenceView {
        PresenceView { presence: self.presence@, user: self.user@ }
    }
}

/// A classified message; `Unknown` keeps the whole original payload of any
/// category whose namespace is not the protocol's reserved prefix.
#[derive(Debug, PartialEq)]
pub enum EventData {
    Room(RoomID, RoomEvent),
    Typing(TypingEvent),
    Presence(PresenceEvent),
    Unknown(JsonValue),
}

/// The view of a classified message.
#[verifier::ext_equal]
pub enum EventDataView {
    Room(IdView, RoomEventView),
    Typing(TypingView),
    Presence(PresenceView),
    Unknown(JsonValue),
}

impl View for EventData {
    type V = EventDataView;

    open spec fn view(&self) -> EventDataView {
        match self {
            EventData::Room(r, e) => EventDataView::Room(r@, e@),
            EventData::Typing(t) => EventDataView::Typing(t@),
            EventData::Presence(p) => EventDataView::Presence(p@),
            EventData::Unknown(j) => EventDataView::Unknown(*j),
        }
    }
}

/// One decoded message: its identifier, when the payload carried one, and
/// its classified data.
#[derive(Debug, PartialEq)]
pub struct Event {
    pub id: Option<EventID>,
    pub data: EventData,
}

/// The view of one decoded message.
#[verifier::ext_equal]
pub struct EventView {
    pub id: Option<IdView>,
    pub data: EventDataView,
}

impl View for Event {
    type V = EventView;

    open spec fn view(&self) -> EventView {
        EventView {
            id: match self.id {
                Some(i) => Some(i@),
                None => None,
            },
            data: self.data@,
        }
    }
}

} // verus!
