//! Group-chat records: membership, names, topics and the settings a
//! group carries, plus the link-change vocabulary.

use vstd::prelude::*;
use crate::encoding::{str_eq, str_eq_ignore_ascii_case, str_ieq};
use vstd::string::StringExecFns;
use crate::jid::JID;
use crate::jsontime::Timestamp;

verus! {

/// Who may add members to a group.
#[derive(Clone, Debug, PartialEq, Eq)]
pub enum GroupMemberAddMode {
    Admin,
    /// A value this build does not know; kept verbatim so it
    /// round-trips instead of being lost.
    UnknownVariant(String),
}

/// The canonical text of a [`GroupMemberAddMode`] value.
pub open spec fn group_member_add_mode_text(v: GroupMemberAddMode) -> Seq<char> {
    match v {
        GroupMemberAddMode::Admin => "admin_add"@,
        GroupMemberAddMode::UnknownVariant(s) => s@,
    }
}

impl GroupMemberAddMode {
    /// The protocol's text for this value.
    pub fn to_text(&self) -> (r: String)
        ensures
            r@ == group_member_add_mode_text(*self),
    {
        match self {
            GroupMemberAddMode::Admin => "admin_add".to_owned(),
            GroupMemberAddMode::UnknownVariant(s) => s.clone(),
        }
    }

    /// Reads a value from its protocol text. Unrecognized text
    /// becomes the unknown variant, carrying the text itself.
    pub fn parse_text(s: &str) -> (r: GroupMemberAddMode)
        ensures
            match r {
                GroupMemberAddMode::Admin => s@ == "admin_add"@,
                GroupMemberAddMode::UnknownVariant(u) => u@ == s@,
            },
            (s@ == "admin_add"@) ==> !(r is UnknownVariant),
    {
        if str_eq(s, "admin_add") {
            GroupMemberAddMode::Admin
        } else {
            GroupMemberAddMode::UnknownVariant(s.to_owned())
        }
    }
}

/// Which side of a community link changed.
#[derive(Clone, Debug, PartialEq, Eq)]
pub enum GroupLinkChangeType {
    Parent,
    Sub,
    Sibling,
    /// A value this build does not know; kept verbatim so it
    /// round-trips instead of being lost.
    UnknownVariant(String),
}

/// The canonical text of a [`GroupLinkChangeType`] value.
pub open spec fn group_link_change_type_text(v: GroupLinkChangeType) -> Seq<char> {
    match v {
        GroupLinkChangeType::Parent => "parent_group"@,
        GroupLinkChangeType::Sub => "sub_group"@,
        GroupLinkChangeType::Sibling => "sibling_group"@,
        GroupLinkChangeType::UnknownVariant(s) => s@,
    }
}

impl GroupLinkChangeType {
    /// The protocol's text for this value.
    pub fn to_text(&self) -> (r: String)
        ensures
            r@ == group_link_change_type_text(*self),
    {
        match self {
            GroupLinkChangeType::Parent => "parent_group".to_owned(),
            GroupLinkChangeType::Sub => "sub_group".to_owned(),
            GroupLinkChangeType::Sibling => "sibling_group".to_owned(),
            GroupLinkChangeType::UnknownVariant(s) => s.clone(),
        }
    }

    /// Reads a value from its protocol text. Unrecognized text
    /// becomes the unknown variant, carrying the text itself.
    pub fn parse_text(s: &str) -> (r: GroupLinkChangeType)
        ensures
            match r {
                GroupLinkChangeType::Parent => s@ == "parent_group"@,
                GroupLinkChangeType::Sub => s@ == "sub_group"@,
                GroupLinkChangeType::Sibling => s@ == "sibling_group"@,
                GroupLinkChangeType::UnknownVariant(u) => u@ == s@,
            },
            (s@ == "parent_group"@ || s@ == "sub_group"@ || s@ == "sibling_group"@) ==> !(r is UnknownVariant),
    {
        if str_eq(s, "parent_group") {
            GroupLinkChangeType::Parent
        }         else if str_eq(s, "sub_group") {
            GroupLinkChangeType::Sub
        }         else if str_eq(s, "sibling_group") {
            GroupLinkChangeType::Sibling
        } else {
            GroupLinkChangeType::UnknownVariant(s.to_owned())
        }
    }
}

/// Why a group was unlinked from its parent.
#[derive(Clone, Debug, PartialEq, Eq)]
pub enum GroupUnlinkReason {
    Default,
    Delete,
    /// A value this build does not know; kept verbatim so it
    /// round-trips instead of being lost.
    UnknownVariant(String),
}

/// The canonical text of a [`GroupUnlinkReason`] value.
pub open spec fn group_unlink_reason_text(v: GroupUnlinkReason) -> Seq<char> {
    match v {
        GroupUnlinkReason::Default => "unlink_group"@,
        GroupUnlinkReason::Delete => "delete_parent"@,
        GroupUnlinkReason::UnknownVariant(s) => s@,
    }
}

impl GroupUnlinkReason {
    /// The protocol's text for this value.
    pub fn to_text(&self) -> (r: String)
        ensures
            r@ == group_unlink_reason_text(*self),
    {
        match self {
            GroupUnlinkReason::Default => "unlink_group".to_owned(),
            GroupUnlinkReason::Delete => "delete_parent".to_owned(),
            GroupUnlinkReason::UnknownVariant(s) => s.clone(),
        }
    }

    /// Reads a value from its protocol text. Unrecognized text
    /// becomes the unknown variant, carrying the text itself.
    pub fn parse_text(s: &str) -> (r: GroupUnlinkReason)
        ensures
            match r {
                GroupUnlinkReason::Default => s@ == "unlink_group"@,
                GroupUnlinkReason::Delete => s@ == "delete_parent"@,
                GroupUnlinkReason::UnknownVariant(u) => u@ == s@,
            },
            (s@ == "unlink_group"@ || s@ == "delete_parent"@) ==> !(r is UnknownVariant),
    {
        if str_eq(s, "unlink_group") {
            GroupUnlinkReason::Default
        }         else if str_eq(s, "delete_parent") {
            GroupUnlinkReason::Delete
        } else {
            GroupUnlinkReason::UnknownVariant(s.to_owned())
        }
    }
}

/// Basic information about a group chat.
#[derive(Clone, Debug)]
pub struct GroupInfo {
    pub jid: JID,
    pub owner_jid: JID,
    pub name: GroupName,
    pub topic: GroupTopic,
    pub locked: GroupLocked,
    pub announce: GroupAnnounce,
    pub ephemeral: GroupEphemeral,
    pub incognito: GroupIncognito,
    pub parent: GroupParent,
    pub linked_parent: GroupLinkedParent,
    pub is_default_sub: GroupIsDefaultSub,
    pub group_created: Timestamp,
    pub participant_version_id: String,
    pub participants: Vec<GroupParticipant>,
    pub member_add_mode: GroupMemberAddMode,
}

#[derive(Clone, Debug)]
pub struct GroupParent {
    pub is_parent: bool,
    /// How membership approval works by default, e.g. request-required.
    pub default_membership_approval_mode: String,
}

#[derive(Clone, Debug)]
pub struct GroupLinkedParent {
    pub linked_parent_jid: JID,
}

#[derive(Clone, Debug, PartialEq, Eq, Structural)]
pub struct GroupIsDefaultSub {
    pub is_default_sub_group: bool,
}

/// A group's name along with who set it and when.
#[derive(Clone, Debug)]
pub struct GroupName {
    pub name: String,
    pub name_set_at: Timestamp,
    pub name_set_by: JID,
}

/// A group's topic (description) along with who set it and when.
#[derive(Clone, Debug)]
pub struct GroupTopic {
    pub topic: String,
    pub topic_id: String,
    pub topic_set_at: Timestamp,
    pub topic_set_by: JID,
    pub topic_deleted: bool,
}

/// Whether only admins may edit the group info.
#[derive(Clone, Debug, PartialEq, Eq, Structural)]
pub struct GroupLocked {
    pub is_locked: bool,
}

/// Whether only admins may send messages in the group.
#[derive(Clone, Debug)]
pub struct GroupAnnounce {
    pub is_announce: bool,
    pub announce_version_id: String,
}

#[derive(Clone, Debug, PartialEq, Eq, Structural)]
pub struct GroupIncognito {
    pub is_incognito: bool,
}

/// One participant of a group chat.
#[derive(Clone, Debug)]
pub struct GroupParticipant {
    pub jid: JID,
    pub lid: JID,
    pub is_admin: bool,
    pub is_super_admin: bool,
    /// Present only for anonymous users in announcement groups: an
    /// obfuscated phone number.
    pub display_name: Option<String>,
    /// When adding this participant failed at group creation, the
    /// error code.
    pub error: Option<i32>,
    /// When adding this participant failed at group creation, the
    /// original add request.
    pub add_request: Option<GroupPartipantAddRequest>,
}

#[derive(Clone, Debug)]
pub struct GroupPartipantAddRequest {
    pub code: String,
    pub expiration: Timestamp,
}

/// A group's disappearing-messages settings.
#[derive(Clone, Debug, PartialEq, Eq, Structural)]
pub struct GroupEphemeral {
    pub is_ephemeral: bool,
    pub disappearing_timer: u64,
}

#[derive(Clone, Debug)]
pub struct GroupDelete {
    pub deleted: bool,
    pub reason: String,
}

#[derive(Clone, Debug)]
pub struct GroupLinkTarget {
    pub jid: JID,
    pub name: GroupName,
    pub is_default_sub: GroupIsDefaultSub,
}

#[derive(Clone, Debug)]
pub struct GroupLinkChange {
    pub change_type: GroupLinkChangeType,
    pub unlink_reason: GroupUnlinkReason,
    pub group: GroupLinkTarget,
}

} // verus!
