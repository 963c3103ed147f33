use wa_transport::token::{
    primary_token, secondary_token, secondary_token_index, token_index, DICT_VERSION,
    PRIMARY_TOKEN_COUNT, SECONDARY_TOKEN_COUNT,
};

#[test]
fn dictionary_version() {
    assert_eq!(DICT_VERSION, 3);
}

#[test]
fn primary_lookups_are_bidirectional() {
    assert_eq!(token_index("iq"), Some(1));
    assert_eq!(primary_token(1), Some("iq"));
    assert_eq!(token_index("type"), Some(2));
    assert_eq!(token_index("id"), Some(9));
    assert_eq!(token_index("s.whatsapp.net"), Some(20));
    for i in 1..=PRIMARY_TOKEN_COUNT {
        let s = primary_token(i).unwrap();
        assert_eq!(token_index(s), Some(i));
    }
}

#[test]
fn secondary_lookups_are_bidirectional() {
    assert_eq!(secondary_token_index("mute"), Some(0));
    assert_eq!(secondary_token(0), Some("mute"));
    for i in 0..SECONDARY_TOKEN_COUNT {
        let s = secondary_token(i).unwrap();
        assert_eq!(secondary_token_index(s), Some(i));
    }
}

#[test]
fn encoding_the_same_string_is_deterministic() {
    // Token determinism: two lookups of the same string agree, and an
    // out-of-table string consistently has no token.
    assert_eq!(token_index("result"), token_index("result"));
    assert_eq!(token_index("no-such-token"), None);
    assert_eq!(token_index("no-such-token"), None);
}

#[test]
fn out_of_range_indices_fail() {
    assert_eq!(primary_token(0), None);
    assert_eq!(primary_token(PRIMARY_TOKEN_COUNT + 1), None);
    assert_eq!(primary_token(255), None);
    assert_eq!(secondary_token(SECONDARY_TOKEN_COUNT), None);
    assert_eq!(secondary_token(255), None);
}
