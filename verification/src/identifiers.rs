//! The three sigil-prefixed, domain-suffixed identifier forms of the
//! protocol: `$local:homeserver` names an event, `@local:homeserver` an
//! actor, `!local:homeserver` a room.
//!
//! Parsing is positional: the local part is everything between the sigil
//! and the first `:`, the homeserver is everything between the first `:`
//! and the second `:` (or the end). The sigil itself is not checked, and a
//! homeserver that itself contains a `:` (an explicit port) is cut short;
//! both are documented limitations of the wire syntax handled here.

use vstd::prelude::*;
use vstd::string::StrSliceExecFns;
use vstd::string::StringExecFns;
use crate::strutil::{sep_from, lemma_sep_from, lemma_sep_from_none, find_from};

verus! {

/// An identifier reduced to its two parts.
pub struct IdView {
    pub local: Seq<char>,
    pub host: Seq<char>,
}

/// The index of the first `:` in `s`, or `s.len()` when there is none.
pub open spec fn first_colon(s: Seq<char>) -> int {
    sep_from(s, ':', 0)
}

/// A wire identifier is parseable when a `:` stands at index 1 or later:
/// there is a sigil-plus-local segment before it and a homeserver after.
pub open spec fn wire_wf(s: Seq<char>) -> bool {
    1 <= first_colon(s) < s.len()
}

/// The local part: between the sigil and the first `:`.
pub open spec fn wire_local(s: Seq<char>) -> Seq<char> {
    s.subrange(1, first_colon(s))
}

/// The homeserver: between the first `:` and the second `:` or the end.
pub open spec fn wire_host(s: Seq<char>) -> Seq<char> {
    s.subrange(first_colon(s) + 1, sep_from(s, ':', first_colon(s) + 1))
}

/// Both parts of a well-formed wire identifier.
pub open spec fn wire_view(s: Seq<char>) -> IdView {
    IdView { local: wire_local(s), host: wire_host(s) }
}

/// Whether a wire identifier string is parseable.
pub fn is_wire_wf(s: &str) -> (r: bool)
    ensures
        r == wire_wf(s@),
{
    let n = s.unicode_len();
    let c1 = find_from(s, ':', 0);
    proof {
        lemma_sep_from(s@, ':', 0);
    }
    1 <= c1 && c1 < n
}

/// Splits a well-formed wire identifier into local part and homeserver.
pub(crate) fn split_wire(s: &str) -> (r: (String, String))
    requires
        wire_wf(s@),
    ensures
        r.0@ == wire_local(s@),
        r.1@ == wire_host(s@),
{
    let n = s.unicode_len();
    let c1 = find_from(s, ':', 0);
    proof {
        lemma_sep_from(s@, ':', 0);
        lemma_sep_from(s@, ':', c1 + 1);
    }
    let local = s.substring_char(1, c1).to_owned();
    let c2 = find_from(s, ':', c1 + 1);
    let host = s.substring_char(c1 + 1, c2).to_owned();
    (local, host)
}

/// An event identifier, `$local:homeserver` on the wire.
#[derive(Clone, Debug, PartialEq)]
pub struct EventID {
    pub id: String,
    pub homeserver: String,
}

impl View for EventID {
    type V = IdView;

    open spec fn view(&self) -> IdView {
        IdView { local: self.id@, host: self.homeserver@ }
    }
}

impl EventID {
    /// Parses a wire identifier by position alone; the sigil is not checked.
    pub fn from_str(s: &str) -> (r: Self)
        requires
            wire_wf(s@),
        ensures
            r@ == wire_view(s@),
    {
        let (id, homeserver) = split_wire(s);
        EventID { id, homeserver }
    }
}

/// An actor identifier, `@local:homeserver` on the wire.
#[derive(Clone, Debug, PartialEq)]
pub struct UserID {
    pub nickname: String,
    pub homeserver: String,
}

impl View for UserID {
    type V = IdView;

    open spec fn view(&self) -> IdView {
        IdView { local: self.nickname@, host: self.homeserver@ }
    }
}

impl UserID {
    /// Parses a wire identifier by position alone; the sigil is not checked.
    pub fn from_str(s: &str) -> (r: Self)
        requires
            wire_wf(s@),
        ensures
            r@ == wire_view(s@),
    {
        let (nickname, homeserver) = split_wire(s);
        UserID { nickname, homeserver }
    }
}

/// A room identifier, `!local:homeserver` on the wire.
#[derive(Clone, Debug, Hash, PartialEq, Eq)]
pub struct RoomID {
    pub id: String,
    pub homeserver: String,
}

impl View for RoomID {
    type V = IdView;

    open spec fn view(&self) -> IdView {
        IdView { local: self.id@, host: self.homeserver@ }
    }
}

/// The wire form of a room identifier with the given parts.
pub open spec fn room_wire(v: IdView) -> Seq<char> {
    seq!['!'] + v.local + seq![':'] + v.host
}

impl RoomID {
    /// Parses a wire identifier by position alone; the sigil is not checked.
    pub fn from_str(s: &str) -> (r: Self)
        requires
            wire_wf(s@),
        ensures
            r@ == wire_view(s@),
    {
        let (id, homeserver) = split_wire(s);
        RoomID { id, homeserver }
    }

    /// Renders the identifier back to its wire form `!local:homeserver`.
    pub fn to_wire(&self) -> (r: String)
        ensures
            r@ == room_wire(self@),
    {
        proof {
            reveal_strlit("!");
            reveal_strlit(":");
        }
        let mut out = String::from_str("!");
        out.append(self.id.as_str());
        out.append(":");
        out.append(self.homeserver.as_str());
        proof {
            assert(out@ =~= room_wire(self@));
        }
        out
    }
}

/// Rendering inverts parsing: a wire string that begins with the room
/// sigil and whose homeserver part holds no further `:` is reproduced
/// exactly by `to_wire` after `from_str`.
pub proof fn lemma_room_round_trip(s: Seq<char>)
    requires
        wire_wf(s),
        s[0] == '!',
        forall|j: int| first_colon(s) < j < s.len() ==> s[j] != ':',
    ensures
        room_wire(wire_view(s)) == s,
{
    lemma_sep_from(s, ':', 0);
    let c1 = first_colon(s);
    lemma_sep_from_none(s, ':', c1 + 1);
    assert(room_wire(wire_view(s)) =~= s);
}

} // verus!
