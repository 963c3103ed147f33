//! The token dictionary: a fixed bidirectional table compressing the
//! protocol's most frequent strings to one-byte (primary) or two-byte
//! (secondary) indices inside the binary node codec. Both ends of a
//! connection must use the same version of this table; the version
//! travels once in the connection header.

use vstd::prelude::*;
use crate::encoding::str_eq;

verus! {

/// Version of this dictionary, sent in the connection header.
pub const DICT_VERSION: u8 = 3;

/// Primary tokens occupy the byte values `1..=PRIMARY_TOKEN_COUNT`.
pub const PRIMARY_TOKEN_COUNT: u8 = 40;

/// Secondary tokens occupy the index values `0..SECONDARY_TOKEN_COUNT`
/// after the two-byte-token marker.
pub const SECONDARY_TOKEN_COUNT: u8 = 8;

/// The primary table: the string of a one-byte token index.
pub open spec fn primary_token_v(i: int) -> Option<Seq<char>> {
    if i == 1 {
        Some("iq"@)
    }     else if i == 2 {
        Some("type"@)
    }     else if i == 3 {
        Some("get"@)
    }     else if i == 4 {
        Some("set"@)
    }     else if i == 5 {
        Some("result"@)
    }     else if i == 6 {
        Some("error"@)
    }     else if i == 7 {
        Some("to"@)
    }     else if i == 8 {
        Some("from"@)
    }     else if i == 9 {
        Some("id"@)
    }     else if i == 10 {
        Some("xmlns"@)
    }     else if i == 11 {
        Some("class"@)
    }     else if i == 12 {
        Some("message"@)
    }     else if i == 13 {
        Some("presence"@)
    }     else if i == 14 {
        Some("receipt"@)
    }     else if i == 15 {
        Some("notification"@)
    }     else if i == 16 {
        Some("ack"@)
    }     else if i == 17 {
        Some("success"@)
    }     else if i == 18 {
        Some("failure"@)
    }     else if i == 19 {
        Some("stream:error"@)
    }     else if i == 20 {
        Some("s.whatsapp.net"@)
    }     else if i == 21 {
        Some("g.us"@)
    }     else if i == 22 {
        Some("broadcast"@)
    }     else if i == 23 {
        Some("lid"@)
    }     else if i == 24 {
        Some("newsletter"@)
    }     else if i == 25 {
        Some("participant"@)
    }     else if i == 26 {
        Some("notify"@)
    }     else if i == 27 {
        Some("jid"@)
    }     else if i == 28 {
        Some("call"@)
    }     else if i == 29 {
        Some("chatstate"@)
    }     else if i == 30 {
        Some("composing"@)
    }     else if i == 31 {
        Some("paused"@)
    }     else if i == 32 {
        Some("available"@)
    }     else if i == 33 {
        Some("unavailable"@)
    }     else if i == 34 {
        Some("read"@)
    }     else if i == 35 {
        Some("delivery"@)
    }     else if i == 36 {
        Some("urn:xmpp:ping"@)
    }     else if i == 37 {
        Some("text"@)
    }     else if i == 38 {
        Some("media"@)
    }     else if i == 39 {
        Some("retry"@)
    }     else if i == 40 {
        Some("count"@)
    } else {
        None
    }
}

/// The secondary table: the string of a two-byte token index.
pub open spec fn secondary_token_v(i: int) -> Option<Seq<char>> {
    if i == 0 {
        Some("mute"@)
    }     else if i == 1 {
        Some("pin"@)
    }     else if i == 2 {
        Some("archive"@)
    }     else if i == 3 {
        Some("star"@)
    }     else if i == 4 {
        Some("label"@)
    }     else if i == 5 {
        Some("keep"@)
    }     else if i == 6 {
        Some("poll"@)
    }     else if i == 7 {
        Some("reaction"@)
    } else {
        None
    }
}

/// The primary index of a string, if the table holds it.
pub open spec fn token_of(s: Seq<char>) -> Option<u8> {
    if s == "iq"@ {
        Some(1u8)
    }     else if s == "type"@ {
        Some(2u8)
    }     else if s == "get"@ {
        Some(3u8)
    }     else if s == "set"@ {
        Some(4u8)
    }     else if s == "result"@ {
        Some(5u8)
    }     else if s == "error"@ {
        Some(6u8)
    }     else if s == "to"@ {
        Some(7u8)
    }     else if s == "from"@ {
        Some(8u8)
    }     else if s == "id"@ {
        Some(9u8)
    }     else if s == "xmlns"@ {
        Some(10u8)
    }     else if s == "class"@ {
        Some(11u8)
    }     else if s == "message"@ {
        Some(12u8)
    }     else if s == "presence"@ {
        Some(13u8)
    }     else if s == "receipt"@ {
        Some(14u8)
    }     else if s == "notification"@ {
        Some(15u8)
    }     else if s == "ack"@ {
        Some(16u8)
    }     else if s == "success"@ {
        Some(17u8)
    }     else if s == "failure"@ {
        Some(18u8)
    }     else if s == "stream:error"@ {
        Some(19u8)
    }     else if s == "s.whatsapp.net"@ {
        Some(20u8)
    }     else if s == "g.us"@ {
        Some(21u8)
    }     else if s == "broadcast"@ {
        Some(22u8)
    }     else if s == "lid"@ {
        Some(23u8)
    }     else if s == "newsletter"@ {
        Some(24u8)
    }     else if s == "participant"@ {
        Some(25u8)
    }     else if s == "notify"@ {
        Some(26u8)
    }     else if s == "jid"@ {
        Some(27u8)
    }     else if s == "call"@ {
        Some(28u8)
    }     else if s == "chatstate"@ {
        Some(29u8)
    }     else if s == "composing"@ {
        Some(30u8)
    }     else if s == "paused"@ {
        Some(31u8)
    }     else if s == "available"@ {
        Some(32u8)
    }     else if s == "unavailable"@ {
        Some(33u8)
    }     else if s == "read"@ {
        Some(34u8)
    }     else if s == "delivery"@ {
        Some(35u8)
    }     else if s == "urn:xmpp:ping"@ {
        Some(36u8)
    }     else if s == "text"@ {
        Some(37u8)
    }     else if s == "media"@ {
        Some(38u8)
    }     else if s == "retry"@ {
        Some(39u8)
    }     else if s == "count"@ {
        Some(40u8)
    } else {
        None
    }
}

/// The secondary index of a string, if the table holds it.
pub open spec fn secondary_token_of(s: Seq<char>) -> Option<u8> {
    if s == "mute"@ {
        Some(0u8)
    }     else if s == "pin"@ {
        Some(1u8)
    }     else if s == "archive"@ {
        Some(2u8)
    }     else if s == "star"@ {
        Some(3u8)
    }     else if s == "label"@ {
        Some(4u8)
    }     else if s == "keep"@ {
        Some(5u8)
    }     else if s == "poll"@ {
        Some(6u8)
    }     else if s == "reaction"@ {
        Some(7u8)
    } else {
        None
    }
}

/// A found primary index is in range and reads back as the same string.
pub proof fn lemma_token_of_inverts(s: Seq<char>)
    ensures
        token_of(s) matches Some(i) ==> 1 <= i <= PRIMARY_TOKEN_COUNT && primary_token_v(
            i as int,
        ) == Some(s),
{
}

/// A found secondary index is in range and reads back as the same string.
pub proof fn lemma_secondary_token_of_inverts(s: Seq<char>)
    ensures
        secondary_token_of(s) matches Some(i) ==> i < SECONDARY_TOKEN_COUNT
            && secondary_token_v(i as int) == Some(s),
{
}

/// Looks a one-byte token index up; indices outside the table fail.
pub fn primary_token(i: u8) -> (r: Option<&'static str>)
    ensures
        r matches Some(t) ==> primary_token_v(i as int) == Some(t@),
        r is None ==> primary_token_v(i as int) is None,
{
    match i {
        1 => Some("iq"),
        2 => Some("type"),
        3 => Some("get"),
        4 => Some("set"),
        5 => Some("result"),
        6 => Some("error"),
        7 => Some("to"),
        8 => Some("from"),
        9 => Some("id"),
        10 => Some("xmlns"),
        11 => Some("class"),
        12 => Some("message"),
        13 => Some("presence"),
        14 => Some("receipt"),
        15 => Some("notification"),
        16 => Some("ack"),
        17 => Some("success"),
        18 => Some("failure"),
        19 => Some("stream:error"),
        20 => Some("s.whatsapp.net"),
        21 => Some("g.us"),
        22 => Some("broadcast"),
        23 => Some("lid"),
        24 => Some("newsletter"),
        25 => Some("participant"),
        26 => Some("notify"),
        27 => Some("jid"),
        28 => Some("call"),
        29 => Some("chatstate"),
        30 => Some("composing"),
        31 => Some("paused"),
        32 => Some("available"),
        33 => Some("unavailable"),
        34 => Some("read"),
        35 => Some("delivery"),
        36 => Some("urn:xmpp:ping"),
        37 => Some("text"),
        38 => Some("media"),
        39 => Some("retry"),
        40 => Some("count"),
        _ => None,
    }
}

/// Looks a two-byte token index up; indices outside the table fail.
pub fn secondary_token(i: u8) -> (r: Option<&'static str>)
    ensures
        r matches Some(t) ==> secondary_token_v(i as int) == Some(t@),
        r is None ==> secondary_token_v(i as int) is None,
{
    match i {
        0 => Some("mute"),
        1 => Some("pin"),
        2 => Some("archive"),
        3 => Some("star"),
        4 => Some("label"),
        5 => Some("keep"),
        6 => Some("poll"),
        7 => Some("reaction"),
        _ => None,
    }
}

/// The primary index of a string: the encoding side of the table.
pub fn token_index(s: &str) -> (r: Option<u8>)
    ensures
        r == token_of(s@),
{
    if str_eq(s, "iq") {
        Some(1)
    }     else if str_eq(s, "type") {
        Some(2)
    }     else if str_eq(s, "get") {
        Some(3)
    }     else if str_eq(s, "set") {
        Some(4)
    }     else if str_eq(s, "result") {
        Some(5)
    }     else if str_eq(s, "error") {
        Some(6)
    }     else if str_eq(s, "to") {
        Some(7)
    }     else if str_eq(s, "from") {
        Some(8)
    }     else if str_eq(s, "id") {
        Some(9)
    }     else if str_eq(s, "xmlns") {
        Some(10)
    }     else if str_eq(s, "class") {
        Some(11)
    }     else if str_eq(s, "message") {
        Some(12)
    }     else if str_eq(s, "presence") {
        Some(13)
    }     else if str_eq(s, "receipt") {
        Some(14)
    }     else if str_eq(s, "notification") {
        Some(15)
    }     else if str_eq(s, "ack") {
        Some(16)
    }     else if str_eq(s, "success") {
        Some(17)
    }     else if str_eq(s, "failure") {
        Some(18)
    }     else if str_eq(s, "stream:error") {
        Some(19)
    }     else if str_eq(s, "s.whatsapp.net") {
        Some(20)
    }     else if str_eq(s, "g.us") {
        Some(21)
    }     else if str_eq(s, "broadcast") {
        Some(22)
    }     else if str_eq(s, "lid") {
        Some(23)
    }     else if str_eq(s, "newsletter") {
        Some(24)
    }     else if str_eq(s, "participant") {
        Some(25)
    }     else if str_eq(s, "notify") {
        Some(26)
    }     else if str_eq(s, "jid") {
        Some(27)
    }     else if str_eq(s, "call") {
        Some(28)
    }     else if str_eq(s, "chatstate") {
        Some(29)
    }     else if str_eq(s, "composing") {
        Some(30)
    }     else if str_eq(s, "paused") {
        Some(31)
    }     else if str_eq(s, "available") {
        Some(32)
    }     else if str_eq(s, "unavailable") {
        Some(33)
    }     else if str_eq(s, "read") {
        Some(34)
    }     else if str_eq(s, "delivery") {
        Some(35)
    }     else if str_eq(s, "urn:xmpp:ping") {
        Some(36)
    }     else if str_eq(s, "text") {
        Some(37)
    }     else if str_eq(s, "media") {
        Some(38)
    }     else if str_eq(s, "retry") {
        Some(39)
    }     else if str_eq(s, "count") {
        Some(40)
    } else {
        None
    }
}

/// The secondary index of a string: the encoding side of the table.
pub fn secondary_token_index(s: &str) -> (r: Option<u8>)
    ensures
        r == secondary_token_of(s@),
{
    if str_eq(s, "mute") {
        Some(0)
    }     else if str_eq(s, "pin") {
        Some(1)
    }     else if str_eq(s, "archive") {
        Some(2)
    }     else if str_eq(s, "star") {
        Some(3)
    }     else if str_eq(s, "label") {
        Some(4)
    }     else if str_eq(s, "keep") {
        Some(5)
    }     else if str_eq(s, "poll") {
        Some(6)
    }     else if str_eq(s, "reaction") {
        Some(7)
    } else {
        None
    }
}

} // verus!
