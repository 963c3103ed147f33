//! Newsletter (channel) records: the states, roles and settings a
//! newsletter carries, its metadata records, and the GraphQL response
//! envelope used by out-of-band newsletter queries.

use vstd::prelude::*;
use crate::encoding::{str_eq, str_eq_ignore_ascii_case, str_ieq, dec_digits};
use vstd::string::StringExecFns;
use crate::jid::JID;
use crate::jsontime::{UnixMicroString, UnixString};
use crate::message::MessageServerID;
use crate::user::ProfilePictureInfo;

verus! {

/// Whether a newsletter is verified.
#[derive(Clone, Debug, PartialEq, Eq)]
pub enum NewsletterVerificationState {
    Verified,
    Unverified,
    /// A value this build does not know; kept verbatim so it
    /// round-trips instead of being lost.
    UnknownVariant(String),
}

/// The canonical text of a [`NewsletterVerificationState`] value.
pub open spec fn newsletter_verification_state_text(v: NewsletterVerificationState) -> Seq<char> {
    match v {
        NewsletterVerificationState::Verified => "verified"@,
        NewsletterVerificationState::Unverified => "unverified"@,
        NewsletterVerificationState::UnknownVariant(s) => s@,
    }
}

impl NewsletterVerificationState {
    /// The protocol's text for this value.
    pub fn to_text(&self) -> (r: String)
        ensures
            r@ == newsletter_verification_state_text(*self),
    {
        match self {
            NewsletterVerificationState::Verified => "verified".to_owned(),
            NewsletterVerificationState::Unverified => "unverified".to_owned(),
            NewsletterVerificationState::UnknownVariant(s) => s.clone(),
        }
    }

    /// Reads a value from its protocol text, ignoring ASCII case. Unrecognized text
    /// becomes the unknown variant, carrying the text itself.
    pub fn parse_text(s: &str) -> (r: NewsletterVerificationState)
        ensures
            match r {
                NewsletterVerificationState::Verified => str_ieq(s@, "verified"@),
                NewsletterVerificationState::Unverified => str_ieq(s@, "unverified"@),
                NewsletterVerificationState::UnknownVariant(u) => u@ == s@,
            },
            (str_ieq(s@, "verified"@) || str_ieq(s@, "unverified"@)) ==> !(r is UnknownVariant),
    {
        if str_eq_ignore_ascii_case(s, "verified") {
            NewsletterVerificationState::Verified
        }         else if str_eq_ignore_ascii_case(s, "unverified") {
            NewsletterVerificationState::Unverified
        } else {
            NewsletterVerificationState::UnknownVariant(s.to_owned())
        }
    }
}

/// A newsletter's visibility.
#[derive(Clone, Debug, PartialEq, Eq)]
pub enum NewsletterPrivacy {
    Private,
    Public,
    /// A value this build does not know; kept verbatim so it
    /// round-trips instead of being lost.
    UnknownVariant(String),
}

/// The canonical text of a [`NewsletterPrivacy`] value.
pub open spec fn newsletter_privacy_text(v: NewsletterPrivacy) -> Seq<char> {
    match v {
        NewsletterPrivacy::Private => "private"@,
        NewsletterPrivacy::Public => "public"@,
        NewsletterPrivacy::UnknownVariant(s) => s@,
    }
}

impl NewsletterPrivacy {
    /// The protocol's text for this value.
    pub fn to_text(&self) -> (r: String)
        ensures
            r@ == newsletter_privacy_text(*self),
    {
        match self {
            NewsletterPrivacy::Private => "private".to_owned(),
            NewsletterPrivacy::Public => "public".to_owned(),
            NewsletterPrivacy::UnknownVariant(s) => s.clone(),
        }
    }

    /// Reads a value from its protocol text, ignoring ASCII case. Unrecognized text
    /// becomes the unknown variant, carrying the text itself.
    pub fn parse_text(s: &str) -> (r: NewsletterPrivacy)
        ensures
            match r {
                NewsletterPrivacy::Private => str_ieq(s@, "private"@),
                NewsletterPrivacy::Public => str_ieq(s@, "public"@),
                NewsletterPrivacy::UnknownVariant(u) => u@ == s@,
            },
            (str_ieq(s@, "private"@) || str_ieq(s@, "public"@)) ==> !(r is UnknownVariant),
    {
        if str_eq_ignore_ascii_case(s, "private") {
            NewsletterPrivacy::Private
        }         else if str_eq_ignore_ascii_case(s, "public") {
            NewsletterPrivacy::Public
        } else {
            NewsletterPrivacy::UnknownVariant(s.to_owned())
        }
    }
}

/// Which reactions a newsletter allows.
#[derive(Clone, Debug, PartialEq, Eq)]
pub enum NewsletterReactionsMode {
    All,
    Basic,
    Disabled,
    Blocklist,
    /// A value this build does not know; kept verbatim so it
    /// round-trips instead of being lost.
    UnknownVariant(String),
}

/// The canonical text of a [`NewsletterReactionsMode`] value.
pub open spec fn newsletter_reactions_mode_text(v: NewsletterReactionsMode) -> Seq<char> {
    match v {
        NewsletterReactionsMode::All => "all"@,
        NewsletterReactionsMode::Basic => "basic"@,
        NewsletterReactionsMode::Disabled => "none"@,
        NewsletterReactionsMode::Blocklist => "blocklist"@,
        NewsletterReactionsMode::UnknownVariant(s) => s@,
    }
}

impl NewsletterReactionsMode {
    /// The protocol's text for this value.
    pub fn to_text(&self) -> (r: String)
        ensures
            r@ == newsletter_reactions_mode_text(*self),
    {
        match self {
            NewsletterReactionsMode::All => "all".to_owned(),
            NewsletterReactionsMode::Basic => "basic".to_owned(),
            NewsletterReactionsMode::Disabled => "none".to_owned(),
            NewsletterReactionsMode::Blocklist => "blocklist".to_owned(),
            NewsletterReactionsMode::UnknownVariant(s) => s.clone(),
        }
    }

    /// Reads a value from its protocol text. Unrecognized text
    /// becomes the unknown variant, carrying the text itself.
    pub fn parse_text(s: &str) -> (r: NewsletterReactionsMode)
        ensures
            match r {
                NewsletterReactionsMode::All => s@ == "all"@,
                NewsletterReactionsMode::Basic => s@ == "basic"@,
                NewsletterReactionsMode::Disabled => s@ == "none"@,
                NewsletterReactionsMode::Blocklist => s@ == "blocklist"@,
                NewsletterReactionsMode::UnknownVariant(u) => u@ == s@,
            },
            (s@ == "all"@ || s@ == "basic"@ || s@ == "none"@ || s@ == "blocklist"@) ==> !(r is UnknownVariant),
    {
        if str_eq(s, "all") {
            NewsletterReactionsMode::All
        }         else if str_eq(s, "basic") {
            NewsletterReactionsMode::Basic
        }         else if str_eq(s, "none") {
            NewsletterReactionsMode::Disabled
        }         else if str_eq(s, "blocklist") {
            NewsletterReactionsMode::Blocklist
        } else {
            NewsletterReactionsMode::UnknownVariant(s.to_owned())
        }
    }
}

/// A newsletter's lifecycle state.
#[derive(Clone, Debug, PartialEq, Eq)]
pub enum NewsletterState {
    Active,
    Suspended,
    GeoSuspended,
    /// A value this build does not know; kept verbatim so it
    /// round-trips instead of being lost.
    UnknownVariant(String),
}

/// The canonical text of a [`NewsletterState`] value.
pub open spec fn newsletter_state_text(v: NewsletterState) -> Seq<char> {
    match v {
        NewsletterState::Active => "active"@,
        NewsletterState::Suspended => "suspended"@,
        NewsletterState::GeoSuspended => "geosuspended"@,
        NewsletterState::UnknownVariant(s) => s@,
    }
}

impl NewsletterState {
    /// The protocol's text for this value.
    pub fn to_text(&self) -> (r: String)
        ensures
            r@ == newsletter_state_text(*self),
    {
        match self {
            NewsletterState::Active => "active".to_owned(),
            NewsletterState::Suspended => "suspended".to_owned(),
            NewsletterState::GeoSuspended => "geosuspended".to_owned(),
            NewsletterState::UnknownVariant(s) => s.clone(),
        }
    }

    /// Reads a value from its protocol text, ignoring ASCII case. Unrecognized text
    /// becomes the unknown variant, carrying the text itself.
    pub fn parse_text(s: &str) -> (r: NewsletterState)
        ensures
            match r {
                NewsletterState::Active => str_ieq(s@, "active"@),
                NewsletterState::Suspended => str_ieq(s@, "suspended"@),
                NewsletterState::GeoSuspended => str_ieq(s@, "geosuspended"@),
                NewsletterState::UnknownVariant(u) => u@ == s@,
            },
            (str_ieq(s@, "active"@) || str_ieq(s@, "suspended"@) || str_ieq(s@, "geosuspended"@)) ==> !(r is UnknownVariant),
    {
        if str_eq_ignore_ascii_case(s, "active") {
            NewsletterState::Active
        }         else if str_eq_ignore_ascii_case(s, "suspended") {
            NewsletterState::Suspended
        }         else if str_eq_ignore_ascii_case(s, "geosuspended") {
            NewsletterState::GeoSuspended
        } else {
            NewsletterState::UnknownVariant(s.to_owned())
        }
    }
}

/// Whether the viewer muted the newsletter.
#[derive(Clone, Debug, PartialEq, Eq)]
pub enum NewsletterMuteState {
    On,
    Off,
    /// A value this build does not know; kept verbatim so it
    /// round-trips instead of being lost.
    UnknownVariant(String),
}

/// The canonical text of a [`NewsletterMuteState`] value.
pub open spec fn newsletter_mute_state_text(v: NewsletterMuteState) -> Seq<char> {
    match v {
        NewsletterMuteState::On => "on"@,
        NewsletterMuteState::Off => "off"@,
        NewsletterMuteState::UnknownVariant(s) => s@,
    }
}

impl NewsletterMuteState {
    /// The protocol's text for this value.
    pub fn to_text(&self) -> (r: String)
        ensures
            r@ == newsletter_mute_state_text(*self),
    {
        match self {
            NewsletterMuteState::On => "on".to_owned(),
            NewsletterMuteState::Off => "off".to_owned(),
            NewsletterMuteState::UnknownVariant(s) => s.clone(),
        }
    }

    /// Reads a value from its protocol text, ignoring ASCII case. Unrecognized text
    /// becomes the unknown variant, carrying the text itself.
    pub fn parse_text(s: &str) -> (r: NewsletterMuteState)
        ensures
            match r {
                NewsletterMuteState::On => str_ieq(s@, "on"@),
                NewsletterMuteState::Off => str_ieq(s@, "off"@),
                NewsletterMuteState::UnknownVariant(u) => u@ == s@,
            },
            (str_ieq(s@, "on"@) || str_ieq(s@, "off"@)) ==> !(r is UnknownVariant),
    {
        if str_eq_ignore_ascii_case(s, "on") {
            NewsletterMuteState::On
        }         else if str_eq_ignore_ascii_case(s, "off") {
            NewsletterMuteState::Off
        } else {
            NewsletterMuteState::UnknownVariant(s.to_owned())
        }
    }
}

/// The viewer's role in a newsletter.
#[derive(Clone, Debug, PartialEq, Eq)]
pub enum NewsletterRole {
    Subscriber,
    Guest,
    Admin,
    Owner,
    /// A value this build does not know; kept verbatim so it
    /// round-trips instead of being lost.
    UnknownVariant(String),
}

/// The canonical text of a [`NewsletterRole`] value.
pub open spec fn newsletter_role_text(v: NewsletterRole) -> Seq<char> {
    match v {
        NewsletterRole::Subscriber => "subscriber"@,
        NewsletterRole::Guest => "guest"@,
        NewsletterRole::Admin => "admin"@,
        NewsletterRole::Owner => "owner"@,
        NewsletterRole::UnknownVariant(s) => s@,
    }
}

impl NewsletterRole {
    /// The protocol's text for this value.
    pub fn to_text(&self) -> (r: String)
        ensures
            r@ == newsletter_role_text(*self),
    {
        match self {
            NewsletterRole::Subscriber => "subscriber".to_owned(),
            NewsletterRole::Guest => "guest".to_owned(),
            NewsletterRole::Admin => "admin".to_owned(),
            NewsletterRole::Owner => "owner".to_owned(),
            NewsletterRole::UnknownVariant(s) => s.clone(),
        }
    }

    /// Reads a value from its protocol text, ignoring ASCII case. Unrecognized text
    /// becomes the unknown variant, carrying the text itself.
    pub fn parse_text(s: &str) -> (r: NewsletterRole)
        ensures
            match r {
                NewsletterRole::Subscriber => str_ieq(s@, "subscriber"@),
                NewsletterRole::Guest => str_ieq(s@, "guest"@),
                NewsletterRole::Admin => str_ieq(s@, "admin"@),
                NewsletterRole::Owner => str_ieq(s@, "owner"@),
                NewsletterRole::UnknownVariant(u) => u@ == s@,
            },
            (str_ieq(s@, "subscriber"@) || str_ieq(s@, "guest"@) || str_ieq(s@, "admin"@) || str_ieq(s@, "owner"@)) ==> !(r is UnknownVariant),
    {
        if str_eq_ignore_ascii_case(s, "subscriber") {
            NewsletterRole::Subscriber
        }         else if str_eq_ignore_ascii_case(s, "guest") {
            NewsletterRole::Guest
        }         else if str_eq_ignore_ascii_case(s, "admin") {
            NewsletterRole::Admin
        }         else if str_eq_ignore_ascii_case(s, "owner") {
            NewsletterRole::Owner
        } else {
            NewsletterRole::UnknownVariant(s.to_owned())
        }
    }
}

/// How a newsletter is addressed: by JID or by invite code.
#[derive(Clone, Debug, PartialEq, Eq)]
pub enum NewsletterKeyType {
    JID,
    Invite,
    /// A value this build does not know; kept verbatim so it
    /// round-trips instead of being lost.
    UnknownVariant(String),
}

/// The canonical text of a [`NewsletterKeyType`] value.
pub open spec fn newsletter_key_type_text(v: NewsletterKeyType) -> Seq<char> {
    match v {
        NewsletterKeyType::JID => "JID"@,
        NewsletterKeyType::Invite => "INVITE"@,
        NewsletterKeyType::UnknownVariant(s) => s@,
    }
}

impl NewsletterKeyType {
    /// The protocol's text for this value.
    pub fn to_text(&self) -> (r: String)
        ensures
            r@ == newsletter_key_type_text(*self),
    {
        match self {
            NewsletterKeyType::JID => "JID".to_owned(),
            NewsletterKeyType::Invite => "INVITE".to_owned(),
            NewsletterKeyType::UnknownVariant(s) => s.clone(),
        }
    }

    /// Reads a value from its protocol text. Unrecognized text
    /// becomes the unknown variant, carrying the text itself.
    pub fn parse_text(s: &str) -> (r: NewsletterKeyType)
        ensures
            match r {
                NewsletterKeyType::JID => s@ == "JID"@,
                NewsletterKeyType::Invite => s@ == "INVITE"@,
                NewsletterKeyType::UnknownVariant(u) => u@ == s@,
            },
            (s@ == "JID"@ || s@ == "INVITE"@) ==> !(r is UnknownVariant),
    {
        if str_eq(s, "JID") {
            NewsletterKeyType::JID
        }         else if str_eq(s, "INVITE") {
            NewsletterKeyType::Invite
        } else {
            NewsletterKeyType::UnknownVariant(s.to_owned())
        }
    }
}

#[derive(Clone, Debug)]
pub struct WrappedNewsletterState {
    pub kind: NewsletterState,
}

#[derive(Clone, Debug)]
pub struct NewsletterMetadata {
    pub id: JID,
    pub state: WrappedNewsletterState,
    pub thread_metadata: NewsletterThreadMetadata,
    pub viewer_metadata: Option<NewsletterViewerMetadata>,
}

#[derive(Clone, Debug)]
pub struct NewsletterViewerMetadata {
    pub mute: NewsletterMuteState,
    pub role: NewsletterRole,
}

#[derive(Clone, Debug)]
pub struct NewsletterReactionSettings {
    pub value: NewsletterReactionsMode,
}

#[derive(Clone, Debug)]
pub struct NewsletterSettings {
    pub reaction_codes: NewsletterReactionSettings,
}

#[derive(Clone, Debug)]
pub struct NewsletterThreadMetadata {
    pub creation_time: UnixString,
    pub invite_code: String,
    pub name: NewsletterText,
    pub description: NewsletterText,
    pub subscriber_count: i64,
    pub verification_state: NewsletterVerificationState,
    pub picture: Option<ProfilePictureInfo>,
    pub preview: ProfilePictureInfo,
    pub settings: NewsletterSettings,
}

#[derive(Clone, Debug)]
pub struct NewsletterText {
    pub text: String,
    pub id: String,
    pub update_time: UnixMicroString,
}

#[derive(Clone, Debug)]
pub struct GraphQLErrorExtensions {
    pub error_code: i32,
    pub is_retryable: bool,
    pub severity: String,
}

#[derive(Clone, Debug)]
pub struct GraphQLError {
    pub extensions: GraphQLErrorExtensions,
    pub message: String,
    pub path: Vec<String>,
}

/// The decimal text of a signed number.
pub open spec fn signed_dec_text(n: int) -> Seq<char> {
    if n >= 0 {
        dec_digits(n as nat)
    } else {
        seq!['-'] + dec_digits((-n) as nat)
    }
}

/// The decimal text of a signed 64-bit number.
pub fn i64_to_dec_string(n: i64) -> (r: String)
    ensures
        r@ == signed_dec_text(n as int),
{
    proof {
        reveal_strlit("-");
    }
    if n >= 0 {
        crate::encoding::u64_to_dec_string(n as u64)
    } else {
        let m: u64 = if n == i64::MIN {
            9223372036854775808u64
        } else {
            (-n) as u64
        };
        let mut s = "-".to_owned();
        let digits = crate::encoding::u64_to_dec_string(m);
        s.append(digits.as_str());
        proof {
            assert(s@ =~= signed_dec_text(n as int));
        }
        s
    }
}

/// The report text of one GraphQL error: code, message, severity.
pub open spec fn graphql_error_text(code: int, message: Seq<char>, severity: Seq<char>) -> Seq<
    char,
> {
    signed_dec_text(code) + " "@ + message + " ("@ + severity + ")"@
}

impl GraphQLError {
    /// A short description of the error.
    pub fn message_string(&self) -> (r: String)
        ensures
            r@ == graphql_error_text(
                self.extensions.error_code as int,
                self.message@,
                self.extensions.severity@,
            ),
    {
        proof {
            reveal_strlit(" ");
            reveal_strlit(" (");
            reveal_strlit(")");
        }
        let mut s = i64_to_dec_string(self.extensions.error_code as i64);
        s.append(" ");
        s.append(self.message.as_str());
        s.append(" (");
        s.append(self.extensions.severity.as_str());
        s.append(")");
        proof {
            assert(s@ =~= graphql_error_text(
                self.extensions.error_code as int,
                self.message@,
                self.extensions.severity@,
            ));
        }
        s
    }
}

/// The errors of one GraphQL response.
#[derive(Clone, Debug)]
pub struct GraphQLErrors(pub Vec<GraphQLError>);

impl GraphQLErrors {
    /// A short description: the first error and how many more there
    /// are; empty when there is none.
    pub fn message_string(&self) -> (r: String)
        ensures
            self.0@.len() == 0 ==> r@ == Seq::<char>::empty(),
            self.0@.len() > 0 ==> r@ == graphql_error_text(
                self.0@[0].extensions.error_code as int,
                self.0@[0].message@,
                self.0@[0].extensions.severity@,
            ) + " (and "@ + dec_digits((self.0@.len() - 1) as nat) + " other errors)"@,
    {
        proof {
            reveal_strlit("");
            reveal_strlit(" (and ");
            reveal_strlit(" other errors)");
        }
        if self.0.len() == 0 {
            let r = "".to_owned();
            proof {
                assert(r@ =~= Seq::<char>::empty());
            }
            return r;
        }
        let mut s = self.0[0].message_string();
        s.append(" (and ");
        let k = crate::encoding::u64_to_dec_string((self.0.len() - 1) as u64);
        s.append(k.as_str());
        s.append(" other errors)");
        proof {
            assert(s@ =~= graphql_error_text(
                self.0@[0].extensions.error_code as int,
                self.0@[0].message@,
                self.0@[0].extensions.severity@,
            ) + " (and "@ + dec_digits((self.0@.len() - 1) as nat) + " other errors)"@);
        }
        s
    }
}

/// The declaration that lets GraphQL response data, an opaque JSON
/// value of the serde_json crate, stand in a field.
#[verifier::external_type_specification]
#[verifier::external_body]
pub struct ExJsonValue(serde_json::Value);

/// A GraphQL response envelope: opaque data and the error list.
#[derive(Debug)]
pub struct GraphQLResponse {
    pub data: serde_json::Value,
    pub errors: GraphQLErrors,
}

} // verus!
