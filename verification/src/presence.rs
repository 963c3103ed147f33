//! Presence and receipt vocabulary: the string-backed enums the
//! protocol uses for availability, typing state and delivery receipts.

use vstd::prelude::*;
use crate::encoding::{str_eq, str_eq_ignore_ascii_case, str_ieq};
use vstd::string::StringExecFns;

verus! {

/// A user's coarse availability.
#[derive(Clone, Debug, PartialEq, Eq)]
pub enum Presence {
    Available,
    Unavailable,
    /// A value this build does not know; kept verbatim so it
    /// round-trips instead of being lost.
    UnknownVariant(String),
}

/// The canonical text of a [`Presence`] value.
pub open spec fn presence_text(v: Presence) -> Seq<char> {
    match v {
        Presence::Available => "available"@,
        Presence::Unavailable => "unavailable"@,
        Presence::UnknownVariant(s) => s@,
    }
}

impl Presence {
    /// The protocol's text for this value.
    pub fn to_text(&self) -> (r: String)
        ensures
            r@ == presence_text(*self),
    {
        match self {
            Presence::Available => "available".to_owned(),
            Presence::Unavailable => "unavailable".to_owned(),
            Presence::UnknownVariant(s) => s.clone(),
        }
    }

    /// Reads a value from its protocol text. Unrecognized text
    /// becomes the unknown variant, carrying the text itself.
    pub fn parse_text(s: &str) -> (r: Presence)
        ensures
            match r {
                Presence::Available => s@ == "available"@,
                Presence::Unavailable => s@ == "unavailable"@,
                Presence::UnknownVariant(u) => u@ == s@,
            },
            (s@ == "available"@ || s@ == "unavailable"@) ==> !(r is UnknownVariant),
    {
        if str_eq(s, "available") {
            Presence::Available
        }         else if str_eq(s, "unavailable") {
            Presence::Unavailable
        } else {
            Presence::UnknownVariant(s.to_owned())
        }
    }
}

/// Typing state inside one chat.
#[derive(Clone, Debug, PartialEq, Eq)]
pub enum ChatPresence {
    Composing,
    Paused,
    /// A value this build does not know; kept verbatim so it
    /// round-trips instead of being lost.
    UnknownVariant(String),
}

/// The canonical text of a [`ChatPresence`] value.
pub open spec fn chat_presence_text(v: ChatPresence) -> Seq<char> {
    match v {
        ChatPresence::Composing => "composing"@,
        ChatPresence::Paused => "paused"@,
        ChatPresence::UnknownVariant(s) => s@,
    }
}

impl ChatPresence {
    /// The protocol's text for this value.
    pub fn to_text(&self) -> (r: String)
        ensures
            r@ == chat_presence_text(*self),
    {
        match self {
            ChatPresence::Composing => "composing".to_owned(),
            ChatPresence::Paused => "paused".to_owned(),
            ChatPresence::UnknownVariant(s) => s.clone(),
        }
    }

    /// Reads a value from its protocol text. Unrecognized text
    /// becomes the unknown variant, carrying the text itself.
    pub fn parse_text(s: &str) -> (r: ChatPresence)
        ensures
            match r {
                ChatPresence::Composing => s@ == "composing"@,
                ChatPresence::Paused => s@ == "paused"@,
                ChatPresence::UnknownVariant(u) => u@ == s@,
            },
            (s@ == "composing"@ || s@ == "paused"@) ==> !(r is UnknownVariant),
    {
        if str_eq(s, "composing") {
            ChatPresence::Composing
        }         else if str_eq(s, "paused") {
            ChatPresence::Paused
        } else {
            ChatPresence::UnknownVariant(s.to_owned())
        }
    }
}

/// What kind of message the typing state refers to.
#[derive(Clone, Debug, PartialEq, Eq)]
pub enum ChatPresenceMedia {
    Text,
    Audio,
    /// A value this build does not know; kept verbatim so it
    /// round-trips instead of being lost.
    UnknownVariant(String),
}

/// The canonical text of a [`ChatPresenceMedia`] value.
pub open spec fn chat_presence_media_text(v: ChatPresenceMedia) -> Seq<char> {
    match v {
        ChatPresenceMedia::Text => ""@,
        ChatPresenceMedia::Audio => "audio"@,
        ChatPresenceMedia::UnknownVariant(s) => s@,
    }
}

impl ChatPresenceMedia {
    /// The protocol's text for this value.
    pub fn to_text(&self) -> (r: String)
        ensures
            r@ == chat_presence_media_text(*self),
    {
        match self {
            ChatPresenceMedia::Text => "".to_owned(),
            ChatPresenceMedia::Audio => "audio".to_owned(),
            ChatPresenceMedia::UnknownVariant(s) => s.clone(),
        }
    }

    /// Reads a value from its protocol text. Unrecognized text
    /// becomes the unknown variant, carrying the text itself.
    pub fn parse_text(s: &str) -> (r: ChatPresenceMedia)
        ensures
            match r {
                ChatPresenceMedia::Text => s@ == ""@,
                ChatPresenceMedia::Audio => s@ == "audio"@,
                ChatPresenceMedia::UnknownVariant(u) => u@ == s@,
            },
            (s@ == ""@ || s@ == "audio"@) ==> !(r is UnknownVariant),
    {
        if str_eq(s, "") {
            ChatPresenceMedia::Text
        }         else if str_eq(s, "audio") {
            ChatPresenceMedia::Audio
        } else {
            ChatPresenceMedia::UnknownVariant(s.to_owned())
        }
    }
}

/// The kind of a delivery receipt.
#[derive(Clone, Debug, PartialEq, Eq)]
pub enum ReceiptType {
    Delivered,
    Sender,
    Retry,
    Read,
    ReadSelf,
    Played,
    PlayedSelf,
    ServerError,
    Inactive,
    PeerMsg,
    HistorySync,
    /// A value this build does not know; kept verbatim so it
    /// round-trips instead of being lost.
    UnknownVariant(String),
}

/// The canonical text of a [`ReceiptType`] value.
pub open spec fn receipt_type_text(v: ReceiptType) -> Seq<char> {
    match v {
        ReceiptType::Delivered => ""@,
        ReceiptType::Sender => "sender"@,
        ReceiptType::Retry => "retry"@,
        ReceiptType::Read => "read"@,
        ReceiptType::ReadSelf => "read-self"@,
        ReceiptType::Played => "played"@,
        ReceiptType::PlayedSelf => "played-self"@,
        ReceiptType::ServerError => "server-error"@,
        ReceiptType::Inactive => "inactive"@,
        ReceiptType::PeerMsg => "peer_msg"@,
        ReceiptType::HistorySync => "hist_sync"@,
        ReceiptType::UnknownVariant(s) => s@,
    }
}

impl ReceiptType {
    /// The protocol's text for this value.
    pub fn to_text(&self) -> (r: String)
        ensures
            r@ == receipt_type_text(*self),
    {
        match self {
            ReceiptType::Delivered => "".to_owned(),
            ReceiptType::Sender => "sender".to_owned(),
            ReceiptType::Retry => "retry".to_owned(),
            ReceiptType::Read => "read".to_owned(),
            ReceiptType::ReadSelf => "read-self".to_owned(),
            ReceiptType::Played => "played".to_owned(),
            ReceiptType::PlayedSelf => "played-self".to_owned(),
            ReceiptType::ServerError => "server-error".to_owned(),
            ReceiptType::Inactive => "inactive".to_owned(),
            ReceiptType::PeerMsg => "peer_msg".to_owned(),
            ReceiptType::HistorySync => "hist_sync".to_owned(),
            ReceiptType::UnknownVariant(s) => s.clone(),
        }
    }

    /// Reads a value from its protocol text. Unrecognized text
    /// becomes the unknown variant, carrying the text itself.
    pub fn parse_text(s: &str) -> (r: ReceiptType)
        ensures
            match r {
                ReceiptType::Delivered => s@ == ""@,
                ReceiptType::Sender => s@ == "sender"@,
                ReceiptType::Retry => s@ == "retry"@,
                ReceiptType::Read => s@ == "read"@,
                ReceiptType::ReadSelf => s@ == "read-self"@,
                ReceiptType::Played => s@ == "played"@,
                ReceiptType::PlayedSelf => s@ == "played-self"@,
                ReceiptType::ServerError => s@ == "server-error"@,
                ReceiptType::Inactive => s@ == "inactive"@,
                ReceiptType::PeerMsg => s@ == "peer_msg"@,
                ReceiptType::HistorySync => s@ == "hist_sync"@,
                ReceiptType::UnknownVariant(u) => u@ == s@,
            },
            (s@ == ""@ || s@ == "sender"@ || s@ == "retry"@ || s@ == "read"@ || s@ == "read-self"@ || s@ == "played"@ || s@ == "played-self"@ || s@ == "server-error"@ || s@ == "inactive"@ || s@ == "peer_msg"@ || s@ == "hist_sync"@) ==> !(r is UnknownVariant),
    {
        if str_eq(s, "") {
            ReceiptType::Delivered
        }         else if str_eq(s, "sender") {
            ReceiptType::Sender
        }         else if str_eq(s, "retry") {
            ReceiptType::Retry
        }         else if str_eq(s, "read") {
            ReceiptType::Read
        }         else if str_eq(s, "read-self") {
            ReceiptType::ReadSelf
        }         else if str_eq(s, "played") {
            ReceiptType::Played
        }         else if str_eq(s, "played-self") {
            ReceiptType::PlayedSelf
        }         else if str_eq(s, "server-error") {
            ReceiptType::ServerError
        }         else if str_eq(s, "inactive") {
            ReceiptType::Inactive
        }         else if str_eq(s, "peer_msg") {
            ReceiptType::PeerMsg
        }         else if str_eq(s, "hist_sync") {
            ReceiptType::HistorySync
        } else {
            ReceiptType::UnknownVariant(s.to_owned())
        }
    }
}

} // verus!
