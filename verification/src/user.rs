//! User, contact and business records, and the privacy-settings
//! vocabulary with its per-context allowed subsets.

use vstd::prelude::*;
use std::collections::HashMap;
use crate::encoding::{str_eq, str_eq_ignore_ascii_case, str_ieq};
use vstd::string::StringExecFns;
use crate::jid::JID;
use crate::jsontime::Timestamp;

verus! {

/// The quality of a profile picture.
#[derive(Clone, Debug, PartialEq, Eq)]
pub enum ProfilePictureType {
    FullResolution,
    Thumbnail,
    /// A value this build does not know; kept verbatim so it
    /// round-trips instead of being lost.
    UnknownVariant(String),
}

/// The canonical text of a [`ProfilePictureType`] value.
pub open spec fn profile_picture_type_text(v: ProfilePictureType) -> Seq<char> {
    match v {
        ProfilePictureType::FullResolution => "image"@,
        ProfilePictureType::Thumbnail => "preview"@,
        ProfilePictureType::UnknownVariant(s) => s@,
    }
}

impl ProfilePictureType {
    /// The protocol's text for this value.
    pub fn to_text(&self) -> (r: String)
        ensures
            r@ == profile_picture_type_text(*self),
    {
        match self {
            ProfilePictureType::FullResolution => "image".to_owned(),
            ProfilePictureType::Thumbnail => "preview".to_owned(),
            ProfilePictureType::UnknownVariant(s) => s.clone(),
        }
    }

    /// Reads a value from its protocol text. Unrecognized text
    /// becomes the unknown variant, carrying the text itself.
    pub fn parse_text(s: &str) -> (r: ProfilePictureType)
        ensures
            match r {
                ProfilePictureType::FullResolution => s@ == "image"@,
                ProfilePictureType::Thumbnail => s@ == "preview"@,
                ProfilePictureType::UnknownVariant(u) => u@ == s@,
            },
            (s@ == "image"@ || s@ == "preview"@) ==> !(r is UnknownVariant),
    {
        if str_eq(s, "image") {
            ProfilePictureType::FullResolution
        }         else if str_eq(s, "preview") {
            ProfilePictureType::Thumbnail
        } else {
            ProfilePictureType::UnknownVariant(s.to_owned())
        }
    }
}

/// The ID and URL of a user's profile picture or a group's photo.
#[derive(Clone, Debug)]
pub struct ProfilePictureInfo {
    /// The full URL for the image.
    pub url: String,
    /// The ID of the image.
    pub id: String,
    /// The quality of the image.
    pub kind: ProfilePictureType,
    /// The path to the image.
    pub direct_path: String,
}

/// The cached names of a user.
#[derive(Clone, Debug)]
pub struct ContactInfo {
    pub first_name: String,
    pub full_name: String,
    pub push_name: String,
    pub business_name: String,
}

/// The cached local settings of a chat.
#[derive(Clone, Debug)]
pub struct LocalChatSettings {
    pub muted_until: Timestamp,
    pub pinned: bool,
    pub archived: bool,
}

/// What a business message link points at.
#[derive(Clone, Debug)]
pub struct BusinessMessageLinkTarget {
    /// The JID of the business.
    pub jid: JID,
    /// The notify / push name of the business.
    pub push_name: String,
    /// The verified business name.
    pub verified_name: String,
    pub is_signed: bool,
    /// The level of verification, starting from unknown.
    pub verified_level: String,
    /// The message clients pre-fill in the input box.
    pub message: String,
}

/// What a contact QR link points at.
#[derive(Clone, Debug)]
pub struct ContactQRLinkTarget {
    pub jid: JID,
    /// Possibly always the contact kind.
    pub kind: String,
    /// The notify / push name of the user.
    pub push_name: String,
}

/// One value of a privacy setting. Different settings allow
/// different subsets of these values; see [`PrivacySettings::new`].
#[derive(Clone, Debug, PartialEq, Eq)]
pub enum PrivacySetting {
    Undefined,
    All,
    Contacts,
    ContactBlacklist,
    MatchLastSeen,
    Known,
    Nobody,
    /// A value this build does not know; kept verbatim so it
    /// round-trips instead of being lost.
    UnknownVariant(String),
}

/// The canonical text of a [`PrivacySetting`] value.
pub open spec fn privacy_setting_text(v: PrivacySetting) -> Seq<char> {
    match v {
        PrivacySetting::Undefined => ""@,
        PrivacySetting::All => "all"@,
        PrivacySetting::Contacts => "contacts"@,
        PrivacySetting::ContactBlacklist => "contact_blacklist"@,
        PrivacySetting::MatchLastSeen => "match_last_seen"@,
        PrivacySetting::Known => "known"@,
        PrivacySetting::Nobody => "none"@,
        PrivacySetting::UnknownVariant(s) => s@,
    }
}

impl PrivacySetting {
    /// The protocol's text for this value.
    pub fn to_text(&self) -> (r: String)
        ensures
            r@ == privacy_setting_text(*self),
    {
        match self {
            PrivacySetting::Undefined => "".to_owned(),
            PrivacySetting::All => "all".to_owned(),
            PrivacySetting::Contacts => "contacts".to_owned(),
            PrivacySetting::ContactBlacklist => "contact_blacklist".to_owned(),
            PrivacySetting::MatchLastSeen => "match_last_seen".to_owned(),
            PrivacySetting::Known => "known".to_owned(),
            PrivacySetting::Nobody => "none".to_owned(),
            PrivacySetting::UnknownVariant(s) => s.clone(),
        }
    }

    /// Reads a value from its protocol text. Unrecognized text
    /// becomes the unknown variant, carrying the text itself.
    pub fn parse_text(s: &str) -> (r: PrivacySetting)
        ensures
            match r {
                PrivacySetting::Undefined => s@ == ""@,
                PrivacySetting::All => s@ == "all"@,
                PrivacySetting::Contacts => s@ == "contacts"@,
                PrivacySetting::ContactBlacklist => s@ == "contact_blacklist"@,
                PrivacySetting::MatchLastSeen => s@ == "match_last_seen"@,
                PrivacySetting::Known => s@ == "known"@,
                PrivacySetting::Nobody => s@ == "none"@,
                PrivacySetting::UnknownVariant(u) => u@ == s@,
            },
            (s@ == ""@ || s@ == "all"@ || s@ == "contacts"@ || s@ == "contact_blacklist"@ || s@ == "match_last_seen"@ || s@ == "known"@ || s@ == "none"@) ==> !(r is UnknownVariant),
    {
        if str_eq(s, "") {
            PrivacySetting::Undefined
        }         else if str_eq(s, "all") {
            PrivacySetting::All
        }         else if str_eq(s, "contacts") {
            PrivacySetting::Contacts
        }         else if str_eq(s, "contact_blacklist") {
            PrivacySetting::ContactBlacklist
        }         else if str_eq(s, "match_last_seen") {
            PrivacySetting::MatchLastSeen
        }         else if str_eq(s, "known") {
            PrivacySetting::Known
        }         else if str_eq(s, "none") {
            PrivacySetting::Nobody
        } else {
            PrivacySetting::UnknownVariant(s.to_owned())
        }
    }
}

/// Which privacy setting a value belongs to.
#[derive(Clone, Debug, PartialEq, Eq)]
pub enum PrivacySettingType {
    GroupAdd,
    LastSeen,
    Status,
    Profile,
    ReadReceipts,
    Online,
    CallAdd,
    /// A value this build does not know; kept verbatim so it
    /// round-trips instead of being lost.
    UnknownVariant(String),
}

/// The canonical text of a [`PrivacySettingType`] value.
pub open spec fn privacy_setting_type_text(v: PrivacySettingType) -> Seq<char> {
    match v {
        PrivacySettingType::GroupAdd => "groupadd"@,
        PrivacySettingType::LastSeen => "last"@,
        PrivacySettingType::Status => "status"@,
        PrivacySettingType::Profile => "profile"@,
        PrivacySettingType::ReadReceipts => "readreceipts"@,
        PrivacySettingType::Online => "online"@,
        PrivacySettingType::CallAdd => "calladd"@,
        PrivacySettingType::UnknownVariant(s) => s@,
    }
}

impl PrivacySettingType {
    /// The protocol's text for this value.
    pub fn to_text(&self) -> (r: String)
        ensures
            r@ == privacy_setting_type_text(*self),
    {
        match self {
            PrivacySettingType::GroupAdd => "groupadd".to_owned(),
            PrivacySettingType::LastSeen => "last".to_owned(),
            PrivacySettingType::Status => "status".to_owned(),
            PrivacySettingType::Profile => "profile".to_owned(),
            PrivacySettingType::ReadReceipts => "readreceipts".to_owned(),
            PrivacySettingType::Online => "online".to_owned(),
            PrivacySettingType::CallAdd => "calladd".to_owned(),
            PrivacySettingType::UnknownVariant(s) => s.clone(),
        }
    }

    /// Reads a value from its protocol text. Unrecognized text
    /// becomes the unknown variant, carrying the text itself.
    pub fn parse_text(s: &str) -> (r: PrivacySettingType)
        ensures
            match r {
                PrivacySettingType::GroupAdd => s@ == "groupadd"@,
                PrivacySettingType::LastSeen => s@ == "last"@,
                PrivacySettingType::Status => s@ == "status"@,
                PrivacySettingType::Profile => s@ == "profile"@,
                PrivacySettingType::ReadReceipts => s@ == "readreceipts"@,
                PrivacySettingType::Online => s@ == "online"@,
                PrivacySettingType::CallAdd => s@ == "calladd"@,
                PrivacySettingType::UnknownVariant(u) => u@ == s@,
            },
            (s@ == "groupadd"@ || s@ == "last"@ || s@ == "status"@ || s@ == "profile"@ || s@ == "readreceipts"@ || s@ == "online"@ || s@ == "calladd"@) ==> !(r is UnknownVariant),
    {
        if str_eq(s, "groupadd") {
            PrivacySettingType::GroupAdd
        }         else if str_eq(s, "last") {
            PrivacySettingType::LastSeen
        }         else if str_eq(s, "status") {
            PrivacySettingType::Status
        }         else if str_eq(s, "profile") {
            PrivacySettingType::Profile
        }         else if str_eq(s, "readreceipts") {
            PrivacySettingType::ReadReceipts
        }         else if str_eq(s, "online") {
            PrivacySettingType::Online
        }         else if str_eq(s, "calladd") {
            PrivacySettingType::CallAdd
        } else {
            PrivacySettingType::UnknownVariant(s.to_owned())
        }
    }
}

/// The values the group-add, last-seen, status and profile settings
/// accept.
pub open spec fn contact_level_allows(v: PrivacySetting) -> bool {
    v is All || v is Contacts || v is ContactBlacklist || v is Nobody
}

/// The values the read-receipts setting accepts.
pub open spec fn read_receipts_allows(v: PrivacySetting) -> bool {
    v is All || v is Nobody
}

/// The values the online setting accepts.
pub open spec fn online_allows(v: PrivacySetting) -> bool {
    v is All || v is MatchLastSeen
}

/// The values the call-add setting accepts.
pub open spec fn call_add_allows(v: PrivacySetting) -> bool {
    v is All || v is Known
}

fn is_contact_level(v: &PrivacySetting) -> (r: bool)
    ensures
        r <==> contact_level_allows(*v),
{
    matches!(
        v,
        PrivacySetting::All | PrivacySetting::Contacts | PrivacySetting::ContactBlacklist
            | PrivacySetting::Nobody
    )
}

/// The user's privacy settings. Each field holds a value from that
/// setting's allowed subset; the constructor checks membership, so a
/// value of this type is well-formed by construction.
#[derive(Clone, Debug)]
pub struct PrivacySettings {
    pub group_add: PrivacySetting,
    pub last_seen: PrivacySetting,
    pub status: PrivacySetting,
    pub profile: PrivacySetting,
    pub read_receipts: PrivacySetting,
    pub call_add: PrivacySetting,
    pub online: PrivacySetting,
}

impl PrivacySettings {
    /// Every field lies in its setting's allowed subset.
    pub open spec fn wf(&self) -> bool {
        &&& contact_level_allows(self.group_add)
        &&& contact_level_allows(self.last_seen)
        &&& contact_level_allows(self.status)
        &&& contact_level_allows(self.profile)
        &&& read_receipts_allows(self.read_receipts)
        &&& call_add_allows(self.call_add)
        &&& online_allows(self.online)
    }

    /// Builds settings after checking each value against its
    /// setting's allowed subset; rejects any out-of-context value.
    pub fn new(
        group_add: PrivacySetting,
        last_seen: PrivacySetting,
        status: PrivacySetting,
        profile: PrivacySetting,
        read_receipts: PrivacySetting,
        call_add: PrivacySetting,
        online: PrivacySetting,
    ) -> (r: Option<PrivacySettings>)
        ensures
            r matches Some(ps) ==> ps.wf() && ps.group_add == group_add && ps.last_seen
                == last_seen && ps.status == status && ps.profile == profile && ps.read_receipts
                == read_receipts && ps.call_add == call_add && ps.online == online,
            r is None ==> !(contact_level_allows(group_add) && contact_level_allows(last_seen)
                && contact_level_allows(status) && contact_level_allows(profile)
                && read_receipts_allows(read_receipts) && call_add_allows(call_add)
                && online_allows(online)),
    {
        let ok = is_contact_level(&group_add) && is_contact_level(&last_seen) && is_contact_level(
            &status,
        ) && is_contact_level(&profile) && matches!(
            read_receipts,
            PrivacySetting::All | PrivacySetting::Nobody
        ) && matches!(call_add, PrivacySetting::All | PrivacySetting::Known) && matches!(
            online,
            PrivacySetting::All | PrivacySetting::MatchLastSeen
        );
        if ok {
            Some(
                PrivacySettings {
                    group_add,
                    last_seen,
                    status,
                    profile,
                    read_receipts,
                    call_add,
                    online,
                },
            )
        } else {
            None
        }
    }
}

/// The kind of list a status-privacy entry names.
#[derive(Clone, Debug, PartialEq, Eq)]
pub enum StatusPrivacyType {
    Contacts,
    Blacklist,
    Whitelist,
    /// A value this build does not know; kept verbatim so it
    /// round-trips instead of being lost.
    UnknownVariant(String),
}

/// The canonical text of a [`StatusPrivacyType`] value.
pub open spec fn status_privacy_type_text(v: StatusPrivacyType) -> Seq<char> {
    match v {
        StatusPrivacyType::Contacts => "contacts"@,
        StatusPrivacyType::Blacklist => "blacklist"@,
        StatusPrivacyType::Whitelist => "whitelist"@,
        StatusPrivacyType::UnknownVariant(s) => s@,
    }
}

impl StatusPrivacyType {
    /// The protocol's text for this value.
    pub fn to_text(&self) -> (r: String)
        ensures
            r@ == status_privacy_type_text(*self),
    {
        match self {
            StatusPrivacyType::Contacts => "contacts".to_owned(),
            StatusPrivacyType::Blacklist => "blacklist".to_owned(),
            StatusPrivacyType::Whitelist => "whitelist".to_owned(),
            StatusPrivacyType::UnknownVariant(s) => s.clone(),
        }
    }

    /// Reads a value from its protocol text. Unrecognized text
    /// becomes the unknown variant, carrying the text itself.
    pub fn parse_text(s: &str) -> (r: StatusPrivacyType)
        ensures
            match r {
                StatusPrivacyType::Contacts => s@ == "contacts"@,
                StatusPrivacyType::Blacklist => s@ == "blacklist"@,
                StatusPrivacyType::Whitelist => s@ == "whitelist"@,
                StatusPrivacyType::UnknownVariant(u) => u@ == s@,
            },
            (s@ == "contacts"@ || s@ == "blacklist"@ || s@ == "whitelist"@) ==> !(r is UnknownVariant),
    {
        if str_eq(s, "contacts") {
            StatusPrivacyType::Contacts
        }         else if str_eq(s, "blacklist") {
            StatusPrivacyType::Blacklist
        }         else if str_eq(s, "whitelist") {
            StatusPrivacyType::Whitelist
        } else {
            StatusPrivacyType::UnknownVariant(s.to_owned())
        }
    }
}

/// Who status messages go to by default.
#[derive(Clone, Debug)]
pub struct StatusPrivacy {
    pub kind: StatusPrivacyType,
    pub list: Vec<JID>,
    pub is_default: bool,
}

/// The user's current list of blocked users.
#[derive(Clone, Debug)]
pub struct Blocklist {
    pub hash: String,
    pub jids: Vec<JID>,
}

/// Business operating hours of one weekday.
#[derive(Clone, Debug)]
pub struct BusinessHoursConfig {
    pub day_of_week: String,
    pub mode: String,
    pub open_time: String,
    pub close_time: String,
}

/// A business category.
#[derive(Clone, Debug)]
pub struct BusinessCategory {
    pub id: String,
    pub name: String,
}

/// The profile information of a business.
#[derive(Clone, Debug)]
pub struct BusinessProfile {
    pub jid: JID,
    pub address: String,
    pub email: String,
    pub categories: Vec<BusinessCategory>,
    pub profile_options: HashMap<String, String>,
    pub business_hours_time_zone: String,
    pub business_hours: Vec<BusinessHoursConfig>,
}

} // verus!
