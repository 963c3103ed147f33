//! Message identifiers and per-message metadata: who sent a
//! message, where, and the edit flag vocabulary.

use vstd::prelude::*;
use crate::encoding::{str_eq, str_eq_ignore_ascii_case, str_ieq};
use vstd::string::StringExecFns;
use crate::jid::{jid_text, JidV, JID};

verus! {

/// The edit flag a message carries.
#[derive(Clone, Debug, PartialEq, Eq)]
pub enum EditAttribute {
    Empty,
    MessageEdit,
    PinInChat,
    AdminEdit,
    SenderRevoke,
    AdminRevoke,
    /// A value this build does not know; kept verbatim so it
    /// round-trips instead of being lost.
    UnknownVariant(String),
}

/// The canonical text of a [`EditAttribute`] value.
pub open spec fn edit_attribute_text(v: EditAttribute) -> Seq<char> {
    match v {
        EditAttribute::Empty => ""@,
        EditAttribute::MessageEdit => "1"@,
        EditAttribute::PinInChat => "2"@,
        EditAttribute::AdminEdit => "3"@,
        EditAttribute::SenderRevoke => "7"@,
        EditAttribute::AdminRevoke => "8"@,
        EditAttribute::UnknownVariant(s) => s@,
    }
}

impl EditAttribute {
    /// The protocol's text for this value.
    pub fn to_text(&self) -> (r: String)
        ensures
            r@ == edit_attribute_text(*self),
    {
        match self {
            EditAttribute::Empty => "".to_owned(),
            EditAttribute::MessageEdit => "1".to_owned(),
            EditAttribute::PinInChat => "2".to_owned(),
            EditAttribute::AdminEdit => "3".to_owned(),
            EditAttribute::SenderRevoke => "7".to_owned(),
            EditAttribute::AdminRevoke => "8".to_owned(),
            EditAttribute::UnknownVariant(s) => s.clone(),
        }
    }

    /// Reads a value from its protocol text. Unrecognized text
    /// becomes the unknown variant, carrying the text itself.
    pub fn parse_text(s: &str) -> (r: EditAttribute)
        ensures
            match r {
                EditAttribute::Empty => s@ == ""@,
                EditAttribute::MessageEdit => s@ == "1"@,
                EditAttribute::PinInChat => s@ == "2"@,
                EditAttribute::AdminEdit => s@ == "3"@,
                EditAttribute::SenderRevoke => s@ == "7"@,
                EditAttribute::AdminRevoke => s@ == "8"@,
                EditAttribute::UnknownVariant(u) => u@ == s@,
            },
            (s@ == ""@ || s@ == "1"@ || s@ == "2"@ || s@ == "3"@ || s@ == "7"@ || s@ == "8"@) ==> !(r is UnknownVariant),
    {
        if str_eq(s, "") {
            EditAttribute::Empty
        }         else if str_eq(s, "1") {
            EditAttribute::MessageEdit
        }         else if str_eq(s, "2") {
            EditAttribute::PinInChat
        }         else if str_eq(s, "3") {
            EditAttribute::AdminEdit
        }         else if str_eq(s, "7") {
            EditAttribute::SenderRevoke
        }         else if str_eq(s, "8") {
            EditAttribute::AdminRevoke
        } else {
            EditAttribute::UnknownVariant(s.to_owned())
        }
    }
}

/// The internal ID of a message.
#[derive(Clone, Debug, PartialEq, Eq)]
pub struct MessageID(pub String);

/// The server-side ID of a newsletter message.
#[derive(Clone, Debug, PartialEq, Eq)]
pub struct MessageServerID(pub String);

/// Basic sender and chat information about a message.
#[derive(Clone, Debug)]
pub struct MessageSource {
    /// The chat where the message was sent.
    pub chat: JID,
    /// The user who sent the message.
    pub sender: JID,
    /// Whether the current user sent the message.
    pub is_from_me: bool,
    /// Whether the chat is a group chat or broadcast list.
    pub is_group: bool,
    /// For a read receipt to a broadcast list message, the recipient of
    /// the receipt (the chat is the list and the sender is you).
    pub broadcast_list_owner: JID,
}

/// The log-friendly text of a message source.
pub open spec fn source_text(chat: JidV, sender: JidV) -> Seq<char> {
    if sender == chat {
        jid_text(chat)
    } else {
        jid_text(sender) + " in "@ + jid_text(chat)
    }
}

impl MessageSource {
    /// True when the message went to a broadcast list rather than
    /// directly to the user: it then shows up in the direct chat with
    /// the sender.
    pub fn is_incoming_broadcast(&self) -> (r: bool)
        ensures
            r <==> ((!self.is_from_me || self.broadcast_list_owner@.server.len() > 0) && (
            self.chat@.server == "broadcast"@ && self.chat@.user != "status"@)),
    {
        (!self.is_from_me || !self.broadcast_list_owner.is_empty())
            && self.chat.is_broadcast_list()
    }

    /// A log-friendly account of who sent the message and where.
    pub fn source_string(&self) -> (r: String)
        ensures
            r@ == source_text(self.chat@, self.sender@),
    {
        proof {
            reveal_strlit(" in ");
        }
        if !(self.sender == self.chat) {
            let mut s = self.sender.to_text();
            s.append(" in ");
            let chat = self.chat.to_text();
            s.append(chat.as_str());
            proof {
                assert(s@ =~= source_text(self.chat@, self.sender@));
            }
            s
        } else {
            self.chat.to_text()
        }
    }
}

/// Metadata from messages sent by another of the user's own devices.
#[derive(Clone, Debug)]
pub struct DeviceSentMeta {
    /// The destination user.
    pub destination_jid: String,
    pub phash: String,
}

} // verus!
