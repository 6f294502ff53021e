//! A typed event model for a federated chat protocol.
//!
//! Inbound messages arrive as untyped structured trees carrying a dotted
//! category string (such as `m.room.message`). This library classifies the
//! category, extracts the fields each known category requires, and produces
//! either a fully typed event or a lossless fallback that keeps the original
//! payload. The reverse direction is implemented for exactly one category:
//! outgoing text messages.

pub mod codec;
pub mod events;
pub mod identifiers;
pub mod json;
pub mod strutil;

pub use codec::DecodeError;
pub use events::{Event, EventData, MembershipAction, PresenceEvent, RoomEvent, TypingEvent};
pub use identifiers::{EventID, RoomID, UserID};
pub use json::JsonValue;
