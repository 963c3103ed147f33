use wa_transport::jid::{JIDParseError, JID};

fn jid(user: &str, server: &str) -> JID {
    JID::new(user.to_string(), server.to_string())
}

#[test]
fn parse_plain_user() {
    let j = JID::parse_text("12345@s.whatsapp.net").unwrap();
    assert_eq!(j, jid("12345", "s.whatsapp.net"));
}

#[test]
fn parse_bare_server() {
    let j = JID::parse_text("s.whatsapp.net").unwrap();
    assert_eq!(j, jid("", "s.whatsapp.net"));
}

#[test]
fn parse_agent_and_device() {
    let j = JID::parse_text("123.4:7@hosted").unwrap();
    let mut expected = jid("123", "hosted");
    expected.raw_agent = 4;
    expected.device = 7;
    assert_eq!(j, expected);
}

#[test]
fn parse_agent_only() {
    let j = JID::parse_text("123.4@hosted").unwrap();
    let mut expected = jid("123", "hosted");
    expected.raw_agent = 4;
    assert_eq!(j, expected);
}

#[test]
fn parse_device_only() {
    let j = JID::parse_text("123:9@s.whatsapp.net").unwrap();
    let mut expected = jid("123", "s.whatsapp.net");
    expected.device = 9;
    assert_eq!(j, expected);
}

#[test]
fn parse_rejects_extra_delimiters() {
    assert_eq!(JID::parse_text("a@b@c"), Err(JIDParseError::UnexpectedAts));
    assert_eq!(JID::parse_text("a.1.2@x"), Err(JIDParseError::UnexpectedDots));
    assert_eq!(
        JID::parse_text("a.1:2:3@x"),
        Err(JIDParseError::UnexpectedColons)
    );
    assert_eq!(JID::parse_text("a:1:2@x"), Err(JIDParseError::UnexpectedColons));
}

#[test]
fn parse_rejects_bad_numbers() {
    assert_eq!(JID::parse_text("a.x@y"), Err(JIDParseError::InvalidAgent));
    assert_eq!(JID::parse_text("a.256@y"), Err(JIDParseError::InvalidAgent));
    assert_eq!(JID::parse_text("a.1:x@y"), Err(JIDParseError::InvalidDevice));
    assert_eq!(
        JID::parse_text("a:65536@y"),
        Err(JIDParseError::InvalidDevice)
    );
}

#[test]
fn text_round_trips() {
    let mut j = jid("123", "s.whatsapp.net");
    j.raw_agent = 2;
    j.device = 11;
    assert_eq!(j.to_text(), "123.2:11@s.whatsapp.net");
    assert_eq!(JID::parse_text(&j.to_text()).unwrap(), j);

    let mut d = jid("99", "g.us");
    d.device = 3;
    assert_eq!(d.to_text(), "99:3@g.us");
    assert_eq!(JID::parse_text(&d.to_text()).unwrap(), d);

    let plain = jid("99", "g.us");
    assert_eq!(plain.to_text(), "99@g.us");
    assert_eq!(JID::parse_text(&plain.to_text()).unwrap(), plain);

    let server_only = jid("", "g.us");
    assert_eq!(server_only.to_text(), "g.us");
    assert_eq!(JID::parse_text(&server_only.to_text()).unwrap(), server_only);
}

#[test]
fn ad_string_is_always_explicit() {
    let j = jid("7", "lid");
    assert_eq!(j.ad_string(), "7.0:0@lid");
}

#[test]
fn new_ad_jid_picks_server_by_agent() {
    let a0 = JID::new_ad_jid("1".to_string(), 0, 5);
    assert_eq!(a0.server, "s.whatsapp.net");
    assert_eq!(a0.raw_agent, 0);
    assert_eq!(a0.device, 5);

    let a1 = JID::new_ad_jid("1".to_string(), 1, 5);
    assert_eq!(a1.server, "lid");
    assert_eq!(a1.raw_agent, 0);

    let a2 = JID::new_ad_jid("1".to_string(), 9, 5);
    assert_eq!(a2.server, "hosted");
    assert_eq!(a2.raw_agent, 9);
}

#[test]
fn actual_agent_follows_server() {
    let mut j = jid("1", "s.whatsapp.net");
    j.raw_agent = 42;
    assert_eq!(j.actual_agent(), 0);
    j.server = "lid".to_string();
    assert_eq!(j.actual_agent(), 1);
    j.server = "hosted".to_string();
    assert_eq!(j.actual_agent(), 42);
}

#[test]
fn to_non_ad_clears_agent_and_device() {
    let mut j = jid("1", "hosted");
    j.raw_agent = 3;
    j.device = 4;
    let p = j.to_non_ad();
    assert_eq!(p, jid("1", "hosted"));
}

#[test]
fn user_int_reads_numeric_users() {
    let j = jid("123456789", "s.whatsapp.net");
    assert_eq!(j.user_int(), 123456789);
}

#[test]
fn broadcast_and_empty_checks() {
    assert!(jid("x", "broadcast").is_broadcast_list());
    assert!(!jid("status", "broadcast").is_broadcast_list());
    assert!(!jid("x", "g.us").is_broadcast_list());
    assert!(jid("x", "").is_empty());
    assert!(!jid("x", "g.us").is_empty());
}

#[test]
fn signal_address_parts_joins_agent() {
    let plain = jid("5550001", "s.whatsapp.net");
    assert_eq!(plain.signal_address_parts(), ("5550001".to_string(), 0));

    let mut hosted = jid("5550001", "hosted");
    hosted.raw_agent = 3;
    hosted.device = 2;
    assert_eq!(hosted.signal_address_parts(), ("5550001_3".to_string(), 2));
}

#[test]
fn parse_accepts_leading_zeros() {
    let j = JID::parse_text("a.007:0042@x").unwrap();
    assert_eq!(j.raw_agent, 7);
    assert_eq!(j.device, 42);
}

#[test]
fn parse_rejects_signs_in_numbers() {
    // Only plain digit strings are numbers here.
    assert_eq!(JID::parse_text("a.+7@x"), Err(JIDParseError::InvalidAgent));
    assert_eq!(JID::parse_text("a:-1@x"), Err(JIDParseError::InvalidDevice));
}

#[test]
fn parse_boundary_values() {
    let j = JID::parse_text("a.255:65535@x").unwrap();
    assert_eq!(j.raw_agent, 255);
    assert_eq!(j.device, 65535);
}
