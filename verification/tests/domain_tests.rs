use wa_transport::group::{GroupLinkChangeType, GroupMemberAddMode, GroupUnlinkReason};
use wa_transport::jid::JID;
use wa_transport::jsontime::{
    Timestamp, UnixMicroString, UnixMilliString, UnixNanoString, UnixString,
};
use wa_transport::message::{EditAttribute, MessageSource};
use wa_transport::newsletter::{
    GraphQLError, GraphQLErrorExtensions, GraphQLErrors, NewsletterMuteState, NewsletterPrivacy,
    NewsletterReactionsMode, NewsletterRole, NewsletterState, NewsletterVerificationState,
};
use wa_transport::presence::{ChatPresence, ChatPresenceMedia, Presence, ReceiptType};
use wa_transport::user::{PrivacySetting, PrivacySettingType, PrivacySettings, StatusPrivacyType};

#[test]
fn presence_text_round_trip() {
    assert_eq!(Presence::Available.to_text(), "available");
    assert_eq!(Presence::parse_text("available"), Presence::Available);
    assert_eq!(Presence::parse_text("unavailable"), Presence::Unavailable);
    assert_eq!(
        Presence::parse_text("dozing"),
        Presence::UnknownVariant("dozing".to_string())
    );
    // The unknown value round-trips verbatim.
    assert_eq!(Presence::UnknownVariant("dozing".to_string()).to_text(), "dozing");
}

#[test]
fn chat_presence_and_media_text() {
    assert_eq!(ChatPresence::Composing.to_text(), "composing");
    assert_eq!(ChatPresence::parse_text("paused"), ChatPresence::Paused);
    assert_eq!(ChatPresenceMedia::Text.to_text(), "");
    assert_eq!(ChatPresenceMedia::parse_text("audio"), ChatPresenceMedia::Audio);
    assert_eq!(ChatPresenceMedia::parse_text(""), ChatPresenceMedia::Text);
}

#[test]
fn receipt_type_text() {
    assert_eq!(ReceiptType::Delivered.to_text(), "");
    assert_eq!(ReceiptType::parse_text(""), ReceiptType::Delivered);
    assert_eq!(ReceiptType::parse_text("read-self"), ReceiptType::ReadSelf);
    assert_eq!(ReceiptType::parse_text("peer_msg"), ReceiptType::PeerMsg);
    assert_eq!(ReceiptType::parse_text("hist_sync"), ReceiptType::HistorySync);
}

#[test]
fn edit_attribute_text() {
    assert_eq!(EditAttribute::MessageEdit.to_text(), "1");
    assert_eq!(EditAttribute::parse_text("7"), EditAttribute::SenderRevoke);
    assert_eq!(EditAttribute::parse_text(""), EditAttribute::Empty);
    assert_eq!(
        EditAttribute::parse_text("9"),
        EditAttribute::UnknownVariant("9".to_string())
    );
}

#[test]
fn group_enums_text() {
    assert_eq!(GroupMemberAddMode::Admin.to_text(), "admin_add");
    assert_eq!(
        GroupLinkChangeType::parse_text("sibling_group"),
        GroupLinkChangeType::Sibling
    );
    assert_eq!(
        GroupUnlinkReason::parse_text("delete_parent"),
        GroupUnlinkReason::Delete
    );
}

#[test]
fn newsletter_enums_parse_case_insensitively() {
    assert_eq!(
        NewsletterVerificationState::parse_text("VERIFIED"),
        NewsletterVerificationState::Verified
    );
    assert_eq!(
        NewsletterPrivacy::parse_text("Private"),
        NewsletterPrivacy::Private
    );
    assert_eq!(
        NewsletterState::parse_text("GeoSuspended"),
        NewsletterState::GeoSuspended
    );
    assert_eq!(NewsletterMuteState::parse_text("ON"), NewsletterMuteState::On);
    assert_eq!(NewsletterRole::parse_text("OWNER"), NewsletterRole::Owner);
    // The reactions mode is matched exactly.
    assert_eq!(
        NewsletterReactionsMode::parse_text("blocklist"),
        NewsletterReactionsMode::Blocklist
    );
    assert_eq!(
        NewsletterReactionsMode::parse_text("none"),
        NewsletterReactionsMode::Disabled
    );
    assert_eq!(
        NewsletterReactionsMode::parse_text("NONE"),
        NewsletterReactionsMode::UnknownVariant("NONE".to_string())
    );
}

#[test]
fn privacy_setting_text() {
    assert_eq!(PrivacySetting::Nobody.to_text(), "none");
    assert_eq!(PrivacySetting::parse_text("contact_blacklist"), PrivacySetting::ContactBlacklist);
    assert_eq!(PrivacySetting::parse_text(""), PrivacySetting::Undefined);
    assert_eq!(PrivacySettingType::parse_text("last"), PrivacySettingType::LastSeen);
    assert_eq!(StatusPrivacyType::parse_text("whitelist"), StatusPrivacyType::Whitelist);
}

#[test]
fn privacy_settings_membership_checks() {
    let ok = PrivacySettings::new(
        PrivacySetting::All,
        PrivacySetting::Contacts,
        PrivacySetting::ContactBlacklist,
        PrivacySetting::Nobody,
        PrivacySetting::Nobody,
        PrivacySetting::Known,
        PrivacySetting::MatchLastSeen,
    );
    assert!(ok.is_some());
    // "known" belongs to the call-add context only.
    let bad = PrivacySettings::new(
        PrivacySetting::Known,
        PrivacySetting::Contacts,
        PrivacySetting::ContactBlacklist,
        PrivacySetting::Nobody,
        PrivacySetting::Nobody,
        PrivacySetting::Known,
        PrivacySetting::MatchLastSeen,
    );
    assert!(bad.is_none());
    // "contacts" is not a read-receipts value.
    let bad2 = PrivacySettings::new(
        PrivacySetting::All,
        PrivacySetting::All,
        PrivacySetting::All,
        PrivacySetting::All,
        PrivacySetting::Contacts,
        PrivacySetting::All,
        PrivacySetting::All,
    );
    assert!(bad2.is_none());
}

#[test]
fn timestamp_scaled_strings() {
    let t = Timestamp {
        unix_nanos: 1_700_000_000_123_456_789,
    };
    assert_eq!(
        UnixMilliString(t).to_string_value().unwrap(),
        "1700000000123"
    );
    assert_eq!(
        UnixMicroString(t).to_string_value().unwrap(),
        "1700000000123456"
    );
    assert_eq!(
        UnixNanoString(t).to_string_value().unwrap(),
        "1700000000123456789"
    );
    assert_eq!(UnixString(t).to_string_value().unwrap(), "1700000000");
}

#[test]
fn timestamp_strings_parse_back() {
    let ms = UnixMilliString::from_string_value("1700000000123").unwrap();
    assert_eq!(ms.0.unix_nanos, 1_700_000_000_123_000_000);
    let s = UnixString::from_string_value("1700000000").unwrap();
    assert_eq!(s.0.unix_nanos, 1_700_000_000_000_000_000);
    let ns = UnixNanoString::from_string_value("123").unwrap();
    assert_eq!(ns.0.unix_nanos, 123);
    assert!(UnixString::from_string_value("not-a-number").is_none());
    assert!(UnixString::from_string_value("").is_none());
    // Out of range once scaled to nanoseconds.
    assert!(UnixString::from_string_value("99999999999999999999").is_none());
    assert!(UnixString::from_string_value("10000000000").is_none());
}

#[test]
fn timestamp_negative_has_no_string_form() {
    let t = Timestamp { unix_nanos: -1 };
    assert!(UnixMilliString(t).to_string_value().is_none());
}

#[test]
fn graphql_error_messages() {
    let e = GraphQLError {
        extensions: GraphQLErrorExtensions {
            error_code: -17,
            is_retryable: false,
            severity: "CRITICAL".to_string(),
        },
        message: "boom".to_string(),
        path: vec!["a".to_string()],
    };
    assert_eq!(e.message_string(), "-17 boom (CRITICAL)");
    let many = GraphQLErrors(vec![e.clone(), e.clone(), e]);
    assert_eq!(many.message_string(), "-17 boom (CRITICAL) (and 2 other errors)");
    assert_eq!(GraphQLErrors(vec![]).message_string(), "");
}

#[test]
fn message_source_strings() {
    let chat = JID::new("g1".to_string(), "g.us".to_string());
    let sender = JID::new("123".to_string(), "s.whatsapp.net".to_string());
    let src = MessageSource {
        chat: chat.clone(),
        sender: sender.clone(),
        is_from_me: false,
        is_group: true,
        broadcast_list_owner: JID::new(String::new(), String::new()),
    };
    assert_eq!(src.source_string(), "123@s.whatsapp.net in g1@g.us");
    let direct = MessageSource {
        chat: sender.clone(),
        sender,
        is_from_me: false,
        is_group: false,
        broadcast_list_owner: JID::new(String::new(), String::new()),
    };
    assert_eq!(direct.source_string(), "123@s.whatsapp.net");
}

#[test]
fn incoming_broadcast_detection() {
    let list = JID::new("xyz".to_string(), "broadcast".to_string());
    let me = JID::new("1".to_string(), "s.whatsapp.net".to_string());
    let src = MessageSource {
        chat: list.clone(),
        sender: me.clone(),
        is_from_me: false,
        is_group: false,
        broadcast_list_owner: JID::new(String::new(), String::new()),
    };
    assert!(src.is_incoming_broadcast());
    let own = MessageSource {
        chat: list,
        sender: me.clone(),
        is_from_me: true,
        is_group: false,
        broadcast_list_owner: JID::new(String::new(), String::new()),
    };
    assert!(!own.is_incoming_broadcast());
    let status = MessageSource {
        chat: JID::new("status".to_string(), "broadcast".to_string()),
        sender: me,
        is_from_me: false,
        is_group: false,
        broadcast_list_owner: JID::new(String::new(), String::new()),
    };
    assert!(!status.is_incoming_broadcast());
}
