//! The binary node codec: serializes a [`Node`] tree to a compact byte
//! string and back. Tags, attribute keys and string values are written
//! as dictionary tokens where the token tables hold them and as
//! length-prefixed UTF-8 otherwise; JIDs get a packed binary layout of
//! their own; content is marked as absent, child nodes, raw bytes or a
//! string. Decoding consumes exactly the same markers in the same order
//! and never reads past the buffer it was given.

use vstd::prelude::*;
use vstd::utf8::{decode_utf8, encode_utf8, valid_utf8};
use crate::encoding::{copy_range, u16_be_bytes, u16_of_be, u24_be_bytes, u24_of_be};
use crate::jid::JidV;
use crate::node::{AttrV, AttrValueV, ContentV, NodeV};
use crate::token::{
    lemma_secondary_token_of_inverts, lemma_token_of_inverts, primary_token_v, secondary_token_of,
    secondary_token_v, token_of, PRIMARY_TOKEN_COUNT,
};

verus! {

/// Marker for a two-byte token: the secondary table's index follows.
pub const TOKEN_EXT: u8 = 236;

/// Marker for a packed binary JID.
pub const TOKEN_JID: u8 = 250;

/// Marker for a raw string of up to 255 UTF-8 bytes.
pub const TOKEN_RAW8: u8 = 252;

/// Marker for a raw string with a three-byte big-endian length.
pub const TOKEN_RAW24: u8 = 253;

/// Content-kind marker: no content.
pub const CONTENT_NONE: u8 = 0;

/// Content-kind marker: child nodes follow.
pub const CONTENT_NODES: u8 = 1;

/// Content-kind marker: a raw byte payload follows.
pub const CONTENT_BYTES: u8 = 2;

/// Content-kind marker: a string follows.
pub const CONTENT_TEXT: u8 = 3;

// ---------------------------------------------------------------------------
// What can be encoded
// ---------------------------------------------------------------------------

/// A string fits the codec when a token table holds it or its UTF-8
/// image fits the widest length prefix.
pub open spec fn str_encodable(s: Seq<char>) -> bool {
    ||| token_of(s) is Some
    ||| secondary_token_of(s) is Some
    ||| encode_utf8(s).len() < 0x1000000
}

pub open spec fn jid_encodable(j: JidV) -> bool {
    str_encodable(j.user) && str_encodable(j.server)
}

pub open spec fn attr_encodable(a: AttrV) -> bool {
    str_encodable(a.key) && match a.value {
        AttrValueV::Text(s) => str_encodable(s),
        AttrValueV::Jid(j) => jid_encodable(j),
    }
}

pub open spec fn attrs_encodable(s: Seq<AttrV>) -> bool {
    forall|i: int| 0 <= i < s.len() ==> attr_encodable(s[i])
}

/// A node fits the codec: its strings fit their length prefixes, it has
/// at most 255 attributes, at most 65535 children, byte payloads below
/// the frame-sized limit, and every child fits too.
pub open spec fn node_encodable(n: NodeV) -> bool
    decreases n,
{
    &&& str_encodable(n.tag)
    &&& n.attrs.len() <= 255
    &&& attrs_encodable(n.attrs)
    &&& match n.content {
        Option::None => true,
        Option::Some(ContentV::Nodes(ns)) => ns.len() <= 65535 && nodes_encodable(ns),
        Option::Some(ContentV::Bytes(b)) => b.len() < 0x1000000,
        Option::Some(ContentV::Text(s)) => str_encodable(s),
    }
}

pub open spec fn nodes_encodable(s: Seq<NodeV>) -> bool
    decreases s,
{
    if s.len() == 0 {
        true
    } else {
        node_encodable(s.first()) && nodes_encodable(s.drop_first())
    }
}

// ---------------------------------------------------------------------------
// Encoding
// ---------------------------------------------------------------------------

/// The wire image of one string element: a primary token byte, a
/// two-byte secondary token, or a length-prefixed raw string.
pub open spec fn str_elem_enc(s: Seq<char>) -> Seq<u8> {
    if token_of(s) is Some {
        seq![token_of(s).unwrap()]
    } else if secondary_token_of(s) is Some {
        seq![TOKEN_EXT, secondary_token_of(s).unwrap()]
    } else {
        let b = encode_utf8(s);
        if b.len() <= 255 {
            seq![TOKEN_RAW8, b.len() as u8] + b
        } else {
            seq![TOKEN_RAW24] + u24_be_bytes(b.len() as u32) + b
        }
    }
}

/// The packed binary JID: marker, agent, device, integrator, then the
/// user and server as string elements.
pub open spec fn jid_elem_enc(j: JidV) -> Seq<u8> {
    seq![TOKEN_JID, j.raw_agent] + u16_be_bytes(j.device) + u16_be_bytes(j.integrator)
        + str_elem_enc(j.user) + str_elem_enc(j.server)
}

pub open spec fn attr_value_enc(v: AttrValueV) -> Seq<u8> {
    match v {
        AttrValueV::Text(s) => str_elem_enc(s),
        AttrValueV::Jid(j) => jid_elem_enc(j),
    }
}

/// Attribute list: key and value elements, in order.
pub open spec fn attrs_enc(s: Seq<AttrV>) -> Seq<u8>
    decreases s,
{
    if s.len() == 0 {
        Seq::empty()
    } else {
        str_elem_enc(s.first().key) + attr_value_enc(s.first().value) + attrs_enc(s.drop_first())
    }
}

/// The wire image of a node's content: the content-kind marker, then
/// the content itself.
pub open spec fn content_enc(c: Option<ContentV>) -> Seq<u8>
    decreases c,
{
    match c {
        Option::None => seq![CONTENT_NONE],
        Option::Some(ContentV::Nodes(ns)) => seq![CONTENT_NODES] + u16_be_bytes(ns.len() as u16)
            + nodes_enc(ns),
        Option::Some(ContentV::Bytes(b)) => seq![CONTENT_BYTES] + u24_be_bytes(b.len() as u32) + b,
        Option::Some(ContentV::Text(s)) => seq![CONTENT_TEXT] + str_elem_enc(s),
    }
}

/// The wire image of one node: tag element, attribute count and list,
/// then the content.
pub open spec fn node_enc(n: NodeV) -> Seq<u8>
    decreases n,
{
    str_elem_enc(n.tag) + seq![n.attrs.len() as u8] + attrs_enc(n.attrs) + content_enc(n.content)
}

pub open spec fn nodes_enc(s: Seq<NodeV>) -> Seq<u8>
    decreases s,
{
    if s.len() == 0 {
        Seq::empty()
    } else {
        node_enc(s.first()) + nodes_enc(s.drop_first())
    }
}

// ---------------------------------------------------------------------------
// Decoding
// ---------------------------------------------------------------------------

/// Reads one string element off the front of `b`; yields the string and
/// the remainder. Unknown markers, out-of-table token indices, short
/// buffers and invalid UTF-8 all fail.
pub open spec fn dec_str(b: Seq<u8>) -> Option<(Seq<char>, Seq<u8>)> {
    if b.len() == 0 {
        None
    } else {
        let m = b[0];
        if 1 <= m <= PRIMARY_TOKEN_COUNT {
            match primary_token_v(m as int) {
                Option::Some(s) => Option::Some((s, b.skip(1))),
                Option::None => None,
            }
        } else if m == TOKEN_EXT {
            if b.len() < 2 {
                None
            } else {
                match secondary_token_v(b[1] as int) {
                    Option::Some(s) => Option::Some((s, b.skip(2))),
                    Option::None => None,
                }
            }
        } else if m == TOKEN_RAW8 {
            if b.len() < 2 {
                None
            } else {
                let l = b[1] as int;
                if b.len() < 2 + l {
                    None
                } else {
                    let bs = b.subrange(2, 2 + l);
                    if valid_utf8(bs) {
                        Option::Some((decode_utf8(bs), b.skip(2 + l)))
                    } else {
                        None
                    }
                }
            }
        } else if m == TOKEN_RAW24 {
            if b.len() < 4 {
                None
            } else {
                let l = u24_of_be(b[1], b[2], b[3]) as int;
                if b.len() < 4 + l {
                    None
                } else {
                    let bs = b.subrange(4, 4 + l);
                    if valid_utf8(bs) {
                        Option::Some((decode_utf8(bs), b.skip(4 + l)))
                    } else {
                        None
                    }
                }
            }
        } else {
            None
        }
    }
}

/// Reads one packed binary JID off the front of `b`.
pub open spec fn dec_jid(b: Seq<u8>) -> Option<(JidV, Seq<u8>)> {
    if b.len() < 6 || b[0] != TOKEN_JID {
        None
    } else {
        let raw_agent = b[1];
        let device = u16_of_be(b[2], b[3]);
        let integrator = u16_of_be(b[4], b[5]);
        match dec_str(b.skip(6)) {
            Option::Some((user, r1)) => match dec_str(r1) {
                Option::Some((server, r2)) => Option::Some(
                    (JidV { user, raw_agent, device, server, integrator }, r2),
                ),
                Option::None => None,
            },
            Option::None => None,
        }
    }
}

/// Reads one attribute value: a JID where the JID marker leads, else a
/// string element.
pub open spec fn dec_attr_value(b: Seq<u8>) -> Option<(AttrValueV, Seq<u8>)> {
    if b.len() > 0 && b[0] == TOKEN_JID {
        match dec_jid(b) {
            Option::Some((j, r)) => Option::Some((AttrValueV::Jid(j), r)),
            Option::None => None,
        }
    } else {
        match dec_str(b) {
            Option::Some((s, r)) => Option::Some((AttrValueV::Text(s), r)),
            Option::None => None,
        }
    }
}

/// Reads `count` attributes.
pub open spec fn dec_attrs(b: Seq<u8>, count: nat) -> Option<(Seq<AttrV>, Seq<u8>)>
    decreases b.len(), count,
{
    if count == 0 {
        Option::Some((Seq::empty(), b))
    } else {
        match dec_str(b) {
            Option::Some((key, r1)) => match dec_attr_value(r1) {
                Option::Some((value, r2)) => if r2.len() <= b.len() {
                    match dec_attrs(r2, (count - 1) as nat) {
                        Option::Some((rest, r3)) => Option::Some(
                            (seq![AttrV { key, value }] + rest, r3),
                        ),
                        Option::None => None,
                    }
                } else {
                    None
                },
                Option::None => None,
            },
            Option::None => None,
        }
    }
}

/// Reads one node off the front of `b`.
pub open spec fn dec_node(b: Seq<u8>) -> Option<(NodeV, Seq<u8>)>
    decreases b.len(), 0nat, 0nat,
{
    match dec_str(b) {
        Option::None => None,
        Option::Some((tag, r1)) => {
            if r1.len() == 0 {
                None
            } else {
                let count = r1[0] as nat;
                match dec_attrs(r1.skip(1), count) {
                    Option::None => None,
                    Option::Some((attrs, r3)) => {
                        if r3.len() == 0 {
                            None
                        } else {
                            let marker = r3[0];
                            let r4 = r3.skip(1);
                            if marker == CONTENT_NONE {
                                Option::Some((NodeV { tag, attrs, content: Option::None }, r4))
                            } else if marker == CONTENT_NODES {
                                if r4.len() < 2 {
                                    None
                                } else {
                                    let cnt = u16_of_be(r4[0], r4[1]) as nat;
                                    let r5 = r4.skip(2);
                                    if r5.len() < b.len() {
                                        match dec_children(r5, cnt) {
                                            Option::Some((kids, r6)) => Option::Some(
                                                (
                                                    NodeV {
                                                        tag,
                                                        attrs,
                                                        content: Option::Some(
                                                            ContentV::Nodes(kids),
                                                        ),
                                                    },
                                                    r6,
                                                ),
                                            ),
                                            Option::None => None,
                                        }
                                    } else {
                                        None
                                    }
                                }
                            } else if marker == CONTENT_BYTES {
                                if r4.len() < 3 {
                                    None
                                } else {
                                    let l = u24_of_be(r4[0], r4[1], r4[2]) as int;
                                    if r4.len() < 3 + l {
                                        None
                                    } else {
                                        Option::Some(
                                            (
                                                NodeV {
                                                    tag,
                                                    attrs,
                                                    content: Option::Some(
                                                        ContentV::Bytes(r4.subrange(3, 3 + l)),
                                                    ),
                                                },
                                                r4.skip(3 + l),
                                            ),
                                        )
                                    }
                                }
                            } else if marker == CONTENT_TEXT {
                                match dec_str(r4) {
                                    Option::Some((s, r5)) => Option::Some(
                                        (
                                            NodeV {
                                                tag,
                                                attrs,
                                                content: Option::Some(ContentV::Text(s)),
                                            },
                                            r5,
                                        ),
                                    ),
                                    Option::None => None,
                                }
                            } else {
                                None
                            }
                        }
                    },
                }
            }
        },
    }
}

// ---------------------------------------------------------------------------
// Round trip: decoding inverts encoding
// ---------------------------------------------------------------------------

/// Every string element starts with a marker other than the JID marker
/// and is at least one byte long.
pub proof fn lemma_str_elem_shape(s: Seq<char>)
    ensures
        str_elem_enc(s).len() >= 1,
        str_elem_enc(s)[0] != TOKEN_JID,
{
    if token_of(s) is Some {
        lemma_token_of_inverts(s);
    }
}

/// Decoding a stream that starts with a string element yields the
/// string and the trailing bytes.
pub proof fn lemma_dec_str_enc(s: Seq<char>, rest: Seq<u8>)
    requires
        str_encodable(s),
    ensures
        dec_str(str_elem_enc(s) + rest) == Some((s, rest)),
{
    broadcast use vstd::utf8::encode_utf8_valid_utf8;
    broadcast use vstd::utf8::encode_utf8_decode_utf8;

    let b = str_elem_enc(s) + rest;
    if token_of(s) is Some {
        lemma_token_of_inverts(s);
        assert(b.skip(1) =~= rest);
    } else if secondary_token_of(s) is Some {
        lemma_secondary_token_of_inverts(s);
        assert(b[1] == secondary_token_of(s).unwrap());
        assert(b.skip(2) =~= rest);
    } else {
        let e = encode_utf8(s);
        if e.len() <= 255 {
            assert(b[0] == TOKEN_RAW8);
            assert(b[1] == e.len() as u8);
            assert(b.subrange(2, 2 + e.len() as int) =~= e);
            assert(b.skip(2 + e.len() as int) =~= rest);
        } else {
            crate::encoding::lemma_u24_be_round(e.len() as u32);
            assert(b[0] == TOKEN_RAW24);
            assert(b[1] == u24_be_bytes(e.len() as u32)[0]);
            assert(b[2] == u24_be_bytes(e.len() as u32)[1]);
            assert(b[3] == u24_be_bytes(e.len() as u32)[2]);
            assert(b.subrange(4, 4 + e.len() as int) =~= e);
            assert(b.skip(4 + e.len() as int) =~= rest);
        }
    }
}

/// Decoding a stream that starts with a packed JID yields the JID and
/// the trailing bytes.
pub proof fn lemma_dec_jid_enc(j: JidV, rest: Seq<u8>)
    requires
        jid_encodable(j),
    ensures
        dec_jid(jid_elem_enc(j) + rest) == Some((j, rest)),
{
    let b = jid_elem_enc(j) + rest;
    lemma_str_elem_shape(j.user);
    lemma_str_elem_shape(j.server);
    crate::encoding::lemma_u16_be_round(j.device);
    crate::encoding::lemma_u16_be_round(j.integrator);
    assert(b[0] == TOKEN_JID);
    assert(b[1] == j.raw_agent);
    assert(b[2] == u16_be_bytes(j.device)[0]);
    assert(b[3] == u16_be_bytes(j.device)[1]);
    assert(b[4] == u16_be_bytes(j.integrator)[0]);
    assert(b[5] == u16_be_bytes(j.integrator)[1]);
    assert(b.skip(6) =~= str_elem_enc(j.user) + (str_elem_enc(j.server) + rest));
    lemma_dec_str_enc(j.user, str_elem_enc(j.server) + rest);
    lemma_dec_str_enc(j.server, rest);
}

/// Decoding a stream that starts with an attribute value yields the
/// value and the trailing bytes.
pub proof fn lemma_dec_attr_value_enc(v: AttrValueV, rest: Seq<u8>)
    requires
        match v {
            AttrValueV::Text(s) => str_encodable(s),
            AttrValueV::Jid(j) => jid_encodable(j),
        },
    ensures
        dec_attr_value(attr_value_enc(v) + rest) == Some((v, rest)),
{
    let b = attr_value_enc(v) + rest;
    match v {
        AttrValueV::Text(s) => {
            lemma_str_elem_shape(s);
            assert(b[0] == str_elem_enc(s)[0]);
            lemma_dec_str_enc(s, rest);
        },
        AttrValueV::Jid(j) => {
            assert(b[0] == TOKEN_JID);
            lemma_dec_jid_enc(j, rest);
        },
    }
}

/// Decoding a stream that starts with an encoded attribute list yields
/// the attributes and the trailing bytes.
pub proof fn lemma_dec_attrs_enc(attrs: Seq<AttrV>, rest: Seq<u8>)
    requires
        attrs_encodable(attrs),
    ensures
        dec_attrs(attrs_enc(attrs) + rest, attrs.len()) == Some((attrs, rest)),
    decreases attrs,
{
    let b = attrs_enc(attrs) + rest;
    if attrs.len() == 0 {
        assert(b =~= rest);
        assert(Seq::<AttrV>::empty() =~= attrs);
    } else {
        let a0 = attrs.first();
        let tail1 = attr_value_enc(a0.value) + (attrs_enc(attrs.drop_first()) + rest);
        assert(b =~= str_elem_enc(a0.key) + tail1);
        assert(attr_encodable(a0));
        lemma_dec_str_enc(a0.key, tail1);
        let tail2 = attrs_enc(attrs.drop_first()) + rest;
        lemma_dec_attr_value_enc(a0.value, tail2);
        assert(tail2.len() <= b.len()) by {
            lemma_str_elem_shape(a0.key);
        }
        assert(attrs_encodable(attrs.drop_first())) by {
            assert(forall|i: int|
                0 <= i < attrs.drop_first().len() ==> attrs.drop_first()[i] == attrs[i + 1]);
        }
        lemma_dec_attrs_enc(attrs.drop_first(), rest);
        assert(seq![AttrV { key: a0.key, value: a0.value }] + attrs.drop_first() =~= attrs);
    }
}

/// Decoding a stream that starts with an encoded node yields the node
/// and the trailing bytes.
pub proof fn lemma_dec_node_enc(n: NodeV, rest: Seq<u8>)
    requires
        node_encodable(n),
    ensures
        dec_node(node_enc(n) + rest) == Some((n, rest)),
    decreases n, 0nat, 1nat,
{
    match n.content {
        Option::None => lemma_dec_node_enc_none(n, rest),
        Option::Some(ContentV::Nodes(ns)) => lemma_dec_node_enc_nodes(n, rest),
        Option::Some(ContentV::Bytes(bb)) => lemma_dec_node_enc_bytes(n, rest),
        Option::Some(ContentV::Text(s)) => lemma_dec_node_enc_text(n, rest),
    }
}

/// Decoding an encoded node consumes the tag and the attributes and
/// stands at the content marker: the shared first half of the
/// per-content-case round-trip proofs.
#[verifier::spinoff_prover]
#[verifier::rlimit(100)]
proof fn lemma_dec_node_header(n: NodeV, rest: Seq<u8>)
    requires
        node_encodable(n),
    ensures
        ({
            let b = node_enc(n) + rest;
            let r3 = content_enc(n.content) + rest;
            let b2 = seq![n.attrs.len() as u8] + (attrs_enc(n.attrs) + r3);
            &&& dec_str(b) == Some((n.tag, b2))
            &&& b2.len() >= 1
            &&& b2[0] == n.attrs.len() as u8
            &&& dec_attrs(b2.skip(1), n.attrs.len()) == Some((n.attrs, r3))
            &&& r3.len() == content_enc(n.content).len() + rest.len()
            &&& content_enc(n.content).len() >= 1
            &&& r3[0] == content_enc(n.content)[0]
            &&& b.len() > r3.len()
        }),
{
    let b = node_enc(n) + rest;
    let r3 = content_enc(n.content) + rest;
    let b2 = seq![n.attrs.len() as u8] + (attrs_enc(n.attrs) + r3);
    assert(content_enc(n.content).len() >= 1);
    assert(b =~= str_elem_enc(n.tag) + b2);
    lemma_dec_str_enc(n.tag, b2);
    assert(b2.skip(1) =~= attrs_enc(n.attrs) + r3);
    lemma_dec_attrs_enc(n.attrs, r3);
    lemma_str_elem_shape(n.tag);
}

#[verifier::spinoff_prover]
#[verifier::rlimit(100)]
proof fn lemma_dec_node_enc_none(n: NodeV, rest: Seq<u8>)
    requires
        node_encodable(n),
        n.content is None,
    ensures
        dec_node(node_enc(n) + rest) == Some((n, rest)),
{
    lemma_dec_node_header(n, rest);
    let r3 = content_enc(n.content) + rest;
    assert(r3[0] == CONTENT_NONE);
    assert(r3.skip(1) =~= rest);
}

#[verifier::spinoff_prover]
#[verifier::rlimit(100)]
proof fn lemma_dec_node_enc_bytes(n: NodeV, rest: Seq<u8>)
    requires
        node_encodable(n),
        n.content matches Option::Some(c) && c is Bytes,
    ensures
        dec_node(node_enc(n) + rest) == Some((n, rest)),
{
    lemma_dec_node_header(n, rest);
    let bb = n.content->Some_0->Bytes_0;
    let r3 = content_enc(n.content) + rest;
    assert(r3[0] == CONTENT_BYTES);
    crate::encoding::lemma_u24_be_round(bb.len() as u32);
    let r4 = r3.skip(1);
    assert(r4 =~= u24_be_bytes(bb.len() as u32) + (bb + rest));
    assert(r4[0] == u24_be_bytes(bb.len() as u32)[0]);
    assert(r4[1] == u24_be_bytes(bb.len() as u32)[1]);
    assert(r4[2] == u24_be_bytes(bb.len() as u32)[2]);
    assert(r4.subrange(3, 3 + bb.len() as int) =~= bb);
    assert(r4.skip(3 + bb.len() as int) =~= rest);
}

#[verifier::spinoff_prover]
#[verifier::rlimit(100)]
proof fn lemma_dec_node_enc_text(n: NodeV, rest: Seq<u8>)
    requires
        node_encodable(n),
        n.content matches Option::Some(c) && c is Text,
    ensures
        dec_node(node_enc(n) + rest) == Some((n, rest)),
{
    lemma_dec_node_header(n, rest);
    let s = n.content->Some_0->Text_0;
    let r3 = content_enc(n.content) + rest;
    assert(r3[0] == CONTENT_TEXT);
    let r4 = r3.skip(1);
    assert(r4 =~= str_elem_enc(s) + rest);
    lemma_dec_str_enc(s, rest);
}

#[verifier::spinoff_prover]
#[verifier::rlimit(100)]
proof fn lemma_dec_node_enc_nodes(n: NodeV, rest: Seq<u8>)
    requires
        node_encodable(n),
        n.content matches Option::Some(c) && c is Nodes,
    ensures
        dec_node(node_enc(n) + rest) == Some((n, rest)),
    decreases n, 0nat, 0nat,
{
    lemma_dec_node_header(n, rest);
    let ns = n.content->Some_0->Nodes_0;
    let b = node_enc(n) + rest;
    let r3 = content_enc(n.content) + rest;
    assert(r3[0] == CONTENT_NODES);
    crate::encoding::lemma_u16_be_round(ns.len() as u16);
    let r4 = r3.skip(1);
    assert(r4 =~= u16_be_bytes(ns.len() as u16) + (nodes_enc(ns) + rest));
    assert(r4[0] == u16_be_bytes(ns.len() as u16)[0]);
    assert(r4[1] == u16_be_bytes(ns.len() as u16)[1]);
    let r5 = r4.skip(2);
    assert(r5 =~= nodes_enc(ns) + rest);
    assert(r5.len() < b.len());
    lemma_dec_children_enc(ns, rest);
}

/// Decoding a stream that starts with an encoded child list yields the
/// children and the trailing bytes.
#[verifier::spinoff_prover]
#[verifier::rlimit(100)]
pub proof fn lemma_dec_children_enc(ns: Seq<NodeV>, rest: Seq<u8>)
    requires
        nodes_encodable(ns),
    ensures
        dec_children(nodes_enc(ns) + rest, ns.len()) == Some((ns, rest)),
    decreases ns, 1nat, 0nat,
{
    let b = nodes_enc(ns) + rest;
    if ns.len() == 0 {
        assert(b =~= rest);
        assert(Seq::<NodeV>::empty() =~= ns);
    } else {
        let tail = nodes_enc(ns.drop_first()) + rest;
        assert(b =~= node_enc(ns.first()) + tail);
        lemma_dec_node_enc(ns.first(), tail);
        assert(tail.len() <= b.len());
        lemma_dec_children_enc(ns.drop_first(), rest);
        assert(seq![ns.first()] + ns.drop_first() =~= ns);
    }
}

/// Binary JID round trip: decoding a packed JID gives the identity
/// back, field for field, and consumes exactly its bytes.
pub proof fn lemma_jid_binary_round_trip(j: JidV)
    requires
        jid_encodable(j),
    ensures
        dec_jid(jid_elem_enc(j)) == Some((j, Seq::<u8>::empty())),
{
    lemma_dec_jid_enc(j, Seq::empty());
    assert(jid_elem_enc(j) + Seq::<u8>::empty() =~= jid_elem_enc(j));
}

/// Node round trip: decoding an encoded node gives the node back and
/// consumes exactly its bytes.
pub proof fn lemma_node_round_trip(n: NodeV)
    requires
        node_encodable(n),
    ensures
        dec_node(node_enc(n)) == Some((n, Seq::<u8>::empty())),
{
    lemma_dec_node_enc(n, Seq::empty());
    assert(node_enc(n) + Seq::<u8>::empty() =~= node_enc(n));
}

// ---------------------------------------------------------------------------
// Executable encoding
// ---------------------------------------------------------------------------

/// Why a node cannot be encoded.
#[derive(Clone, Copy, Debug, PartialEq, Eq, Structural)]
pub enum NodeEncodeError {
    /// A tag, key or string value is too long for the raw-string form.
    StringTooLong,
    /// More than 255 attributes.
    TooManyAttributes,
    /// More than 65535 child nodes.
    TooManyChildren,
    /// A byte payload too long for its length prefix.
    PayloadTooLong,
}

/// Appending one attribute extends its list's encoding.
pub proof fn lemma_attrs_enc_push(s: Seq<AttrV>, a: AttrV)
    ensures
        attrs_enc(s.push(a)) == attrs_enc(s) + str_elem_enc(a.key) + attr_value_enc(a.value),
    decreases s,
{
    reveal_with_fuel(attrs_enc, 3);
    if s.len() == 0 {
        assert(s.push(a).first() == a);
        assert(s.push(a).drop_first() =~= Seq::<AttrV>::empty());
        assert(attrs_enc(s.push(a)) =~= attrs_enc(s) + str_elem_enc(a.key) + attr_value_enc(
            a.value,
        ));
    } else {
        assert(s.push(a).first() == s.first());
        assert(s.push(a).drop_first() =~= s.drop_first().push(a));
        lemma_attrs_enc_push(s.drop_first(), a);
        assert(attrs_enc(s.push(a)) =~= attrs_enc(s) + str_elem_enc(a.key) + attr_value_enc(
            a.value,
        ));
    }
}

/// Appending one node extends its list's encoding.
pub proof fn lemma_nodes_enc_push(s: Seq<NodeV>, n: NodeV)
    ensures
        nodes_enc(s.push(n)) == nodes_enc(s) + node_enc(n),
    decreases s,
{
    reveal_with_fuel(nodes_enc, 3);
    if s.len() == 0 {
        assert(s.push(n).first() == n);
        assert(s.push(n).drop_first() =~= Seq::<NodeV>::empty());
        assert(nodes_enc(s.push(n)) =~= nodes_enc(s) + node_enc(n));
    } else {
        assert(s.push(n).first() == s.first());
        assert(s.push(n).drop_first() =~= s.drop_first().push(n));
        lemma_nodes_enc_push(s.drop_first(), n);
        assert(nodes_enc(s.push(n)) =~= nodes_enc(s) + node_enc(n));
    }
}

/// A node list is encodable exactly when each node in it is.
pub proof fn lemma_nodes_encodable_index(s: Seq<NodeV>)
    ensures
        nodes_encodable(s) <==> (forall|i: int| 0 <= i < s.len() ==> node_encodable(s[i])),
    decreases s,
{
    if s.len() > 0 {
        lemma_nodes_encodable_index(s.drop_first());
        assert(forall|i: int| 0 <= i < s.drop_first().len() ==> s.drop_first()[i] == s[i + 1]);
        if nodes_encodable(s) {
            assert forall|i: int| 0 <= i < s.len() implies node_encodable(s[i]) by {
                if i > 0 {
                    assert(s[i] == s.drop_first()[i - 1]);
                }
            }
        }
    }
}

/// Encodes one string element.
fn encode_str_elem(s: &str) -> (r: Result<Vec<u8>, NodeEncodeError>)
    ensures
        r matches Ok(v) ==> str_encodable(s@) && v@ == str_elem_enc(s@),
        r is Err ==> !str_encodable(s@),
{
    match crate::token::token_index(s) {
        Option::Some(i) => {
            let mut out: Vec<u8> = Vec::new();
            out.push(i);
            proof {
                assert(out@ =~= str_elem_enc(s@));
            }
            Ok(out)
        },
        Option::None => {
            match crate::token::secondary_token_index(s) {
                Option::Some(i) => {
                    let mut out: Vec<u8> = Vec::new();
                    out.push(TOKEN_EXT);
                    out.push(i);
                    proof {
                        assert(out@ =~= str_elem_enc(s@));
                    }
                    Ok(out)
                },
                Option::None => {
                    let bytes = s.as_bytes();
                    let n = bytes.len();
                    if n <= 255 {
                        let mut out: Vec<u8> = Vec::new();
                        out.push(TOKEN_RAW8);
                        out.push(n as u8);
                        out.extend_from_slice(bytes);
                        proof {
                            assert(out@ =~= str_elem_enc(s@));
                        }
                        Ok(out)
                    } else if n < 0x1000000 {
                        let mut out: Vec<u8> = Vec::new();
                        out.push(TOKEN_RAW24);
                        crate::encoding::push_u24_be(&mut out, n as u32);
                        out.extend_from_slice(bytes);
                        proof {
                            assert(out@ =~= str_elem_enc(s@));
                        }
                        Ok(out)
                    } else {
                        Err(NodeEncodeError::StringTooLong)
                    }
                },
            }
        },
    }
}

/// Encodes one packed binary JID element.
fn encode_jid_elem(j: &crate::jid::JID) -> (r: Result<Vec<u8>, NodeEncodeError>)
    ensures
        r matches Ok(v) ==> jid_encodable(j@) && v@ == jid_elem_enc(j@),
        r is Err ==> !jid_encodable(j@),
{
    let mut out: Vec<u8> = Vec::new();
    out.push(TOKEN_JID);
    out.push(j.raw_agent);
    crate::encoding::push_u16_be(&mut out, j.device);
    crate::encoding::push_u16_be(&mut out, j.integrator);
    let user = match encode_str_elem(j.user.as_str()) {
        Ok(v) => v,
        Err(e) => {
            return Err(e);
        },
    };
    out.extend_from_slice(user.as_slice());
    let server = match encode_str_elem(j.server.as_str()) {
        Ok(v) => v,
        Err(e) => {
            return Err(e);
        },
    };
    out.extend_from_slice(server.as_slice());
    proof {
        assert(out@ =~= jid_elem_enc(j@));
    }
    Ok(out)
}

/// Encodes a node tree. Succeeds exactly on encodable nodes: strings
/// that fit their length prefixes, at most 255 attributes and 65535
/// children per node, byte payloads below the frame limit.
pub fn encode_node(n: &crate::node::Node) -> (r: Result<Vec<u8>, NodeEncodeError>)
    ensures
        r matches Ok(v) ==> node_encodable(n@) && v@ == node_enc(n@),
        r is Err ==> !node_encodable(n@),
    decreases *n,
{
    let mut out = match encode_str_elem(n.tag.as_str()) {
        Ok(v) => v,
        Err(e) => {
            return Err(e);
        },
    };
    if n.attrs.len() > 255 {
        proof {
            assert(crate::node::attrs_view(n.attrs@).len() == n.attrs@.len());
        }
        return Err(NodeEncodeError::TooManyAttributes);
    }
    out.push(n.attrs.len() as u8);
    let ghost header = str_elem_enc(n@.tag) + seq![n@.attrs.len() as u8];
    proof {
        assert(out@ =~= header);
        assert(crate::node::attrs_view(n.attrs@).take(0) =~= Seq::<AttrV>::empty());
    }
    let mut i: usize = 0;
    while i < n.attrs.len()
        invariant
            0 <= i <= n.attrs@.len(),
            n.attrs@.len() <= 255,
            header == str_elem_enc(n@.tag) + seq![n@.attrs.len() as u8],
            out@ == header + attrs_enc(crate::node::attrs_view(n.attrs@).take(i as int)),
            attrs_encodable(crate::node::attrs_view(n.attrs@).take(i as int)),
        decreases n.attrs@.len() - i,
    {
        let ghost prev = crate::node::attrs_view(n.attrs@).take(i as int);
        let a = &n.attrs[i];
        let key = match encode_str_elem(a.key.as_str()) {
            Ok(v) => v,
            Err(_) => {
                proof {
                    assert(crate::node::attrs_view(n.attrs@)[i as int] == crate::node::attr_view(
                        n.attrs@[i as int],
                    ));
                }
                return Err(NodeEncodeError::StringTooLong);
            },
        };
        let value = match &a.value {
            crate::node::AttrValue::Text(s) => match encode_str_elem(s.as_str()) {
                Ok(v) => v,
                Err(_) => {
                    proof {
                        assert(crate::node::attrs_view(n.attrs@)[i as int]
                            == crate::node::attr_view(n.attrs@[i as int]));
                    }
                    return Err(NodeEncodeError::StringTooLong);
                },
            },
            crate::node::AttrValue::Jid(j) => match encode_jid_elem(j) {
                Ok(v) => v,
                Err(_) => {
                    proof {
                        assert(crate::node::attrs_view(n.attrs@)[i as int]
                            == crate::node::attr_view(n.attrs@[i as int]));
                    }
                    return Err(NodeEncodeError::StringTooLong);
                },
            },
        };
        out.extend_from_slice(key.as_slice());
        out.extend_from_slice(value.as_slice());
        proof {
            let av = crate::node::attrs_view(n.attrs@);
            assert(av[i as int] == crate::node::attr_view(n.attrs@[i as int]));
            assert(av.take(i + 1) =~= prev.push(av[i as int]));
            lemma_attrs_enc_push(prev, av[i as int]);
            assert(out@ =~= header + attrs_enc(av.take(i + 1)));
            assert forall|j: int| 0 <= j < i + 1 implies attr_encodable(
                #[trigger] av.take(i + 1)[j],
            ) by {
                if j < i {
                    assert(av.take(i + 1)[j] == prev[j]);
                }
            }
        }
        i += 1;
    }
    proof {
        assert(crate::node::attrs_view(n.attrs@).take(n.attrs@.len() as int) =~= crate::node::attrs_view(
            n.attrs@,
        ));
    }
    match &n.content {
        Option::None => {
            out.push(CONTENT_NONE);
            proof {
                assert(out@ =~= node_enc(n@));
            }
            Ok(out)
        },
        Option::Some(crate::node::NodeContent::Bytes(b)) => {
            if b.len() >= 0x1000000 {
                return Err(NodeEncodeError::PayloadTooLong);
            }
            out.push(CONTENT_BYTES);
            crate::encoding::push_u24_be(&mut out, b.len() as u32);
            out.extend_from_slice(b.as_slice());
            proof {
                assert(out@ =~= node_enc(n@));
            }
            Ok(out)
        },
        Option::Some(crate::node::NodeContent::Text(s)) => {
            let enc = match encode_str_elem(s.as_str()) {
                Ok(v) => v,
                Err(e) => {
                    return Err(e);
                },
            };
            out.push(CONTENT_TEXT);
            out.extend_from_slice(enc.as_slice());
            proof {
                assert(out@ =~= node_enc(n@));
            }
            Ok(out)
        },
        Option::Some(crate::node::NodeContent::Nodes(xs)) => {
            proof {
                crate::node::lemma_nodes_view_index(xs@);
            }
            if xs.len() > 65535 {
                return Err(NodeEncodeError::TooManyChildren);
            }
            out.push(CONTENT_NODES);
            crate::encoding::push_u16_be(&mut out, xs.len() as u16);
            let ghost header2 = out@;
            proof {
                assert(crate::node::nodes_view(xs@).take(0) =~= Seq::<NodeV>::empty());
            }
            let mut k: usize = 0;
            while k < xs.len()
                invariant
                    0 <= k <= xs@.len(),
                    n.content == Option::Some(crate::node::NodeContent::Nodes(*xs)),
                    header2 == out@.take(header2.len() as int),
                    out@ == header2 + nodes_enc(crate::node::nodes_view(xs@).take(k as int)),
                    nodes_encodable(crate::node::nodes_view(xs@).take(k as int)),
                decreases xs@.len() - k,
            {
                let ghost prev = crate::node::nodes_view(xs@).take(k as int);
                proof {
                    crate::node::lemma_nodes_view_index(xs@);
                    assert(decreases_to!(*n => n.content));
                    assert(decreases_to!(n.content => n.content->Some_0));
                    assert(decreases_to!(n.content->Some_0 => n.content->Some_0->Nodes_0));
                    assert(n.content->Some_0->Nodes_0 == *xs);
                    assert(decreases_to!(*xs => xs@[k as int]));
                    assert(decreases_to!(*n => xs@[k as int]));
                }
                let child = match encode_node(&xs[k]) {
                    Ok(v) => v,
                    Err(e) => {
                        proof {
                            crate::node::lemma_nodes_view_index(xs@);
                            lemma_nodes_encodable_index(crate::node::nodes_view(xs@));
                            assert(!node_encodable(crate::node::nodes_view(xs@)[k as int]));
                            assert(!nodes_encodable(crate::node::nodes_view(xs@)));
                            assert(n@.content == Option::Some(ContentV::Nodes(crate::node::nodes_view(xs@))));
                        }
                        return Err(e);
                    },
                };
                out.extend_from_slice(child.as_slice());
                proof {
                    crate::node::lemma_nodes_view_index(xs@);
                    let nv = crate::node::nodes_view(xs@);
                    assert(nv.take(k + 1) =~= prev.push(nv[k as int]));
                    lemma_nodes_enc_push(prev, nv[k as int]);
                    assert(out@ =~= header2 + nodes_enc(nv.take(k + 1)));
                    lemma_nodes_encodable_index(nv.take(k + 1));
                    assert forall|j: int| 0 <= j < k + 1 implies node_encodable(
                        #[trigger] nv.take(k + 1)[j],
                    ) by {
                        lemma_nodes_encodable_index(prev);
                        if j < k {
                            assert(nv.take(k + 1)[j] == prev[j]);
                        }
                    }
                    assert(out@.take(header2.len() as int) =~= header2);
                }
                k += 1;
            }
            proof {
                let nv = crate::node::nodes_view(xs@);
                assert(nv.take(nv.len() as int) =~= nv);
                assert(out@ =~= node_enc(n@));
            }
            Ok(out)
        },
    }
}

/// Reads `count` child nodes.
pub open spec fn dec_children(b: Seq<u8>, count: nat) -> Option<(Seq<NodeV>, Seq<u8>)>
    decreases b.len(), 1nat, count,
{
    if count == 0 {
        Option::Some((Seq::empty(), b))
    } else {
        match dec_node(b) {
            Option::Some((n, r1)) => if r1.len() <= b.len() {
                match dec_children(r1, (count - 1) as nat) {
                    Option::Some((kids, r2)) => Option::Some((seq![n] + kids, r2)),
                    Option::None => None,
                }
            } else {
                None
            },
            Option::None => None,
        }
    }
}

// ---------------------------------------------------------------------------
// Executable decoding
// ---------------------------------------------------------------------------

/// Why a byte string does not decode to a node. Every decode failure is
/// fatal to the connection: a misparsed node desynchronizes the stream.
#[derive(Clone, Copy, Debug, PartialEq, Eq, Structural)]
pub enum NodeDecodeError {
    /// The buffer ended inside a field.
    Truncated,
    /// A token index outside the dictionary.
    UnknownToken,
    /// A raw string that is not valid UTF-8.
    InvalidString,
    /// A content-kind marker outside the recognized set.
    UnexpectedMarker,
    /// Bytes left over after the node ended.
    TrailingBytes,
}

/// Relies on `String::from_utf8`: it accepts exactly the valid UTF-8
/// byte strings and returns the string holding those very bytes.
#[verifier::external_body]
fn string_from_utf8(v: Vec<u8>) -> (r: Option<String>)
    ensures
        r matches Some(s) ==> encode_utf8(s@) == v@,
        r is Some <==> valid_utf8(v@),
{
    String::from_utf8(v).ok()
}

/// Reads one string element at `pos`.
fn decode_str_elem(buf: &[u8], pos: usize) -> (r: Result<(String, usize), NodeDecodeError>)
    requires
        pos <= buf@.len(),
    ensures
        r matches Ok((s, end)) ==> pos < end <= buf@.len() && dec_str(buf@.skip(pos as int))
            == Some((s@, buf@.skip(end as int))),
        r is Err ==> dec_str(buf@.skip(pos as int)) is None,
{
    broadcast use vstd::utf8::encode_utf8_decode_utf8;

    let ghost b = buf@.skip(pos as int);
    if pos >= buf.len() {
        return Err(NodeDecodeError::Truncated);
    }
    let m = buf[pos];
    proof {
        assert(b[0] == m);
    }
    if 1 <= m && m <= crate::token::PRIMARY_TOKEN_COUNT {
        match crate::token::primary_token(m) {
            Option::Some(t) => {
                proof {
                    assert(b.skip(1) =~= buf@.skip(pos + 1));
                }
                Ok((t.to_owned(), pos + 1))
            },
            Option::None => Err(NodeDecodeError::UnknownToken),
        }
    } else if m == TOKEN_EXT {
        if pos + 1 >= buf.len() {
            return Err(NodeDecodeError::Truncated);
        }
        proof {
            assert(b[1] == buf@[pos + 1]);
        }
        match crate::token::secondary_token(buf[pos + 1]) {
            Option::Some(t) => {
                proof {
                    assert(b.skip(2) =~= buf@.skip(pos + 2));
                }
                Ok((t.to_owned(), pos + 2))
            },
            Option::None => Err(NodeDecodeError::UnknownToken),
        }
    } else if m == TOKEN_RAW8 {
        if pos + 1 >= buf.len() {
            return Err(NodeDecodeError::Truncated);
        }
        proof {
            assert(b[1] == buf@[pos + 1]);
        }
        let l = buf[pos + 1] as usize;
        if buf.len() - (pos + 2) < l {
            return Err(NodeDecodeError::Truncated);
        }
        let bytes = copy_range(buf, pos + 2, pos + 2 + l);
        proof {
            assert(bytes@ =~= b.subrange(2, 2 + l as int));
        }
        match string_from_utf8(bytes) {
            Option::Some(s) => {
                proof {
                    assert(decode_utf8(b.subrange(2, 2 + l as int)) == s@);
                    assert(b.skip(2 + l as int) =~= buf@.skip(pos + 2 + l));
                }
                Ok((s, pos + 2 + l))
            },
            Option::None => Err(NodeDecodeError::InvalidString),
        }
    } else if m == TOKEN_RAW24 {
        if buf.len() - pos < 4 {
            return Err(NodeDecodeError::Truncated);
        }
        proof {
            assert(b[1] == buf@[pos + 1]);
            assert(b[2] == buf@[pos + 2]);
            assert(b[3] == buf@[pos + 3]);
        }
        let l = crate::encoding::read_u24_be(buf, pos + 1) as usize;
        if buf.len() - (pos + 4) < l {
            return Err(NodeDecodeError::Truncated);
        }
        let bytes = copy_range(buf, pos + 4, pos + 4 + l);
        proof {
            assert(bytes@ =~= b.subrange(4, 4 + l as int));
        }
        match string_from_utf8(bytes) {
            Option::Some(s) => {
                proof {
                    assert(decode_utf8(b.subrange(4, 4 + l as int)) == s@);
                    assert(b.skip(4 + l as int) =~= buf@.skip(pos + 4 + l));
                }
                Ok((s, pos + 4 + l))
            },
            Option::None => Err(NodeDecodeError::InvalidString),
        }
    } else {
        Err(NodeDecodeError::UnknownToken)
    }
}

/// Reads one packed binary JID at `pos`.
fn decode_jid_elem(buf: &[u8], pos: usize) -> (r: Result<(crate::jid::JID, usize), NodeDecodeError>)
    requires
        pos <= buf@.len(),
    ensures
        r matches Ok((j, end)) ==> pos < end <= buf@.len() && dec_jid(buf@.skip(pos as int))
            == Some((j@, buf@.skip(end as int))),
        r is Err ==> dec_jid(buf@.skip(pos as int)) is None,
{
    let ghost b = buf@.skip(pos as int);
    if buf.len() - pos < 6 {
        return Err(NodeDecodeError::Truncated);
    }
    proof {
        assert(b[0] == buf@[pos as int]);
        assert(b[1] == buf@[pos + 1]);
        assert(b[2] == buf@[pos + 2]);
        assert(b[3] == buf@[pos + 3]);
        assert(b[4] == buf@[pos + 4]);
        assert(b[5] == buf@[pos + 5]);
    }
    if buf[pos] != TOKEN_JID {
        return Err(NodeDecodeError::UnexpectedMarker);
    }
    let raw_agent = buf[pos + 1];
    let device = crate::encoding::read_u16_be(buf, pos + 2);
    let integrator = crate::encoding::read_u16_be(buf, pos + 4);
    proof {
        assert(b.skip(6) =~= buf@.skip(pos + 6));
    }
    let (user, p1) = match decode_str_elem(buf, pos + 6) {
        Ok(x) => x,
        Err(e) => {
            return Err(e);
        },
    };
    let (server, p2) = match decode_str_elem(buf, p1) {
        Ok(x) => x,
        Err(e) => {
            return Err(e);
        },
    };
    let j = crate::jid::JID { user, raw_agent, device, server, integrator };
    Ok((j, p2))
}

/// Reads one attribute value at `pos`: a packed JID where the JID
/// marker leads, else a string element.
fn decode_attr_value(buf: &[u8], pos: usize) -> (r: Result<
    (crate::node::AttrValue, usize),
    NodeDecodeError,
>)
    requires
        pos <= buf@.len(),
    ensures
        r matches Ok((v, end)) ==> pos < end <= buf@.len() && dec_attr_value(
            buf@.skip(pos as int),
        ) == Some((v@, buf@.skip(end as int))),
        r is Err ==> dec_attr_value(buf@.skip(pos as int)) is None,
{
    let ghost b = buf@.skip(pos as int);
    if pos < buf.len() && buf[pos] == TOKEN_JID {
        proof {
            assert(b[0] == buf@[pos as int]);
        }
        match decode_jid_elem(buf, pos) {
            Ok((j, end)) => Ok((crate::node::AttrValue::Jid(j), end)),
            Err(e) => Err(e),
        }
    } else {
        proof {
            if pos < buf@.len() {
                assert(b[0] == buf@[pos as int]);
            }
        }
        match decode_str_elem(buf, pos) {
            Ok((s, end)) => Ok((crate::node::AttrValue::Text(s), end)),
            Err(e) => Err(e),
        }
    }
}

/// Reads one node at `pos`; yields the node and the position after it.
/// Fails exactly where the byte string does not decode: a short buffer,
/// an unknown token, invalid UTF-8, or a bad marker. Never reads past
/// the buffer.
#[verifier::rlimit(100)]
pub fn decode_node(buf: &[u8], pos: usize) -> (r: Result<(crate::node::Node, usize), NodeDecodeError>)
    requires
        pos <= buf@.len(),
    ensures
        r matches Ok((n, end)) ==> pos < end <= buf@.len() && dec_node(buf@.skip(pos as int))
            == Some((n@, buf@.skip(end as int))),
        r is Err ==> dec_node(buf@.skip(pos as int)) is None,
    decreases buf@.len() - pos,
{
    let ghost b = buf@.skip(pos as int);
    let (tag, p1) = match decode_str_elem(buf, pos) {
        Ok(x) => x,
        Err(e) => {
            return Err(e);
        },
    };
    let ghost r1 = buf@.skip(p1 as int);
    if p1 >= buf.len() {
        return Err(NodeDecodeError::Truncated);
    }
    let count = buf[p1] as usize;
    proof {
        assert(r1[0] == buf@[p1 as int]);
        assert(r1.skip(1) =~= buf@.skip(p1 + 1));
    }
    let mut attrs: Vec<crate::node::Attr> = Vec::new();
    let mut cur = p1 + 1;
    let mut k: usize = 0;
    proof {
        assert(crate::node::attrs_view(attrs@) + Seq::<AttrV>::empty() =~= crate::node::attrs_view(
            attrs@,
        ));
    }
    while k < count
        invariant
            0 <= k <= count,
            count <= 255,
            pos < cur <= buf@.len(),
            k == attrs@.len(),
            r1 == buf@.skip(p1 as int),
            p1 < cur,
            count == r1[0],
            dec_attrs(r1.skip(1), count as nat) is None ==> dec_node(buf@.skip(pos as int))
                is None,
            match dec_attrs(buf@.skip(cur as int), (count - k) as nat) {
                Option::Some((rest, rr)) => dec_attrs(r1.skip(1), count as nat) == Option::Some(
                    (crate::node::attrs_view(attrs@) + rest, rr),
                ),
                Option::None => dec_attrs(r1.skip(1), count as nat) is None,
            },
        decreases count - k,
    {
        let ghost bcur = buf@.skip(cur as int);
        let (key, q1) = match decode_str_elem(buf, cur) {
            Ok(x) => x,
            Err(e) => {
                proof {
                    assert(dec_attrs(bcur, (count - k) as nat) is None);
                }
                return Err(e);
            },
        };
        let (value, q2) = match decode_attr_value(buf, q1) {
            Ok(x) => x,
            Err(e) => {
                proof {
                    assert(dec_attrs(bcur, (count - k) as nat) is None);
                }
                return Err(e);
            },
        };
        proof {
            assert(buf@.skip(q2 as int).len() <= bcur.len());
        }
        let ghost old_attrs = attrs@;
        attrs.push(crate::node::Attr { key, value });
        proof {
            let av = crate::node::attr_view(
                crate::node::Attr { key: key, value: value },
            );
            assert(crate::node::attrs_view(attrs@) =~= crate::node::attrs_view(old_attrs).push(
                av,
            ));
            assert forall|rest: Seq<AttrV>|
                true implies crate::node::attrs_view(old_attrs) + (seq![av] + rest)
                =~= crate::node::attrs_view(attrs@) + rest by {}
        }
        cur = q2;
        k += 1;
    }
    proof {
        assert(dec_attrs(buf@.skip(cur as int), 0) == Option::Some(
            (Seq::<AttrV>::empty(), buf@.skip(cur as int)),
        ));
        assert(crate::node::attrs_view(attrs@) + Seq::<AttrV>::empty() =~= crate::node::attrs_view(
            attrs@,
        ));
    }
    let ghost r3 = buf@.skip(cur as int);
    if cur >= buf.len() {
        return Err(NodeDecodeError::Truncated);
    }
    let marker = buf[cur];
    proof {
        assert(r3[0] == buf@[cur as int]);
        assert(r3.skip(1) =~= buf@.skip(cur + 1));
    }
    if marker == CONTENT_NONE {
        let n = crate::node::Node { tag, attrs, content: Option::None };
        Ok((n, cur + 1))
    } else if marker == CONTENT_NODES {
        if buf.len() - (cur + 1) < 2 {
            return Err(NodeDecodeError::Truncated);
        }
        let cnt = crate::encoding::read_u16_be(buf, cur + 1) as usize;
        let ghost r4 = buf@.skip(cur + 1);
        proof {
            assert(r4[0] == buf@[cur + 1]);
            assert(r4[1] == buf@[cur + 2]);
            assert(r4.skip(2) =~= buf@.skip(cur + 3));
        }
        let start = cur + 3;
        let mut kids: Vec<crate::node::Node> = Vec::new();
        let mut cur2 = start;
        let mut c: usize = 0;
        proof {
            assert(crate::node::nodes_view(kids@) + Seq::<NodeV>::empty()
                =~= crate::node::nodes_view(kids@));
            crate::node::lemma_nodes_view_index(kids@);
        }
        while c < cnt
            invariant
                0 <= c <= cnt,
                pos < start <= cur2 <= buf@.len(),
                c == kids@.len(),
                dec_children(buf@.skip(start as int), cnt as nat) is None ==> dec_node(
                    buf@.skip(pos as int),
                ) is None,
                match dec_children(buf@.skip(cur2 as int), (cnt - c) as nat) {
                    Option::Some((rest, rr)) => dec_children(
                        buf@.skip(start as int),
                        cnt as nat,
                    ) == Option::Some((crate::node::nodes_view(kids@) + rest, rr)),
                    Option::None => dec_children(buf@.skip(start as int), cnt as nat) is None,
                },
            decreases cnt - c,
        {
            let ghost bcur = buf@.skip(cur2 as int);
            let (child, q) = match decode_node(buf, cur2) {
                Ok(x) => x,
                Err(e) => {
                    proof {
                        assert(dec_children(bcur, (cnt - c) as nat) is None);
                    }
                    return Err(e);
                },
            };
            proof {
                assert(buf@.skip(q as int).len() <= bcur.len());
            }
            let ghost old_kids = kids@;
            kids.push(child);
            proof {
                crate::node::lemma_nodes_view_index(old_kids);
                crate::node::lemma_nodes_view_index(kids@);
                assert(crate::node::nodes_view(kids@) =~= crate::node::nodes_view(old_kids).push(
                    crate::node::node_view(child),
                ));
                assert forall|rest: Seq<NodeV>|
                    true implies crate::node::nodes_view(old_kids) + (seq![
                    crate::node::node_view(child),
                ] + rest) =~= crate::node::nodes_view(kids@) + rest by {}
            }
            cur2 = q;
            c += 1;
        }
        proof {
            assert(dec_children(buf@.skip(cur2 as int), 0) == Option::Some(
                (Seq::<NodeV>::empty(), buf@.skip(cur2 as int)),
            ));
            assert(crate::node::nodes_view(kids@) + Seq::<NodeV>::empty()
                =~= crate::node::nodes_view(kids@));
            assert(buf@.skip(start as int).len() < b.len());
        }
        let n = crate::node::Node {
            tag,
            attrs,
            content: Option::Some(crate::node::NodeContent::Nodes(kids)),
        };
        Ok((n, cur2))
    } else if marker == CONTENT_BYTES {
        if buf.len() - (cur + 1) < 3 {
            return Err(NodeDecodeError::Truncated);
        }
        let ghost r4 = buf@.skip(cur + 1);
        proof {
            assert(r4[0] == buf@[cur + 1]);
            assert(r4[1] == buf@[cur + 2]);
            assert(r4[2] == buf@[cur + 3]);
        }
        let l = crate::encoding::read_u24_be(buf, cur + 1) as usize;
        if buf.len() - (cur + 4) < l {
            return Err(NodeDecodeError::Truncated);
        }
        let bytes = copy_range(buf, cur + 4, cur + 4 + l);
        proof {
            assert(bytes@ =~= r4.subrange(3, 3 + l as int));
            assert(r4.skip(3 + l as int) =~= buf@.skip(cur + 4 + l));
        }
        let n = crate::node::Node {
            tag,
            attrs,
            content: Option::Some(crate::node::NodeContent::Bytes(bytes)),
        };
        Ok((n, cur + 4 + l))
    } else if marker == CONTENT_TEXT {
        let (s, e) = match decode_str_elem(buf, cur + 1) {
            Ok(x) => x,
            Err(e) => {
                return Err(e);
            },
        };
        let n = crate::node::Node {
            tag,
            attrs,
            content: Option::Some(crate::node::NodeContent::Text(s)),
        };
        Ok((n, e))
    } else {
        Err(NodeDecodeError::UnexpectedMarker)
    }
}

/// Decodes a whole buffer as one node; trailing bytes are an error,
/// since the stream position is shared state.
pub fn decode_node_complete(buf: &[u8]) -> (r: Result<crate::node::Node, NodeDecodeError>)
    ensures
        r matches Ok(n) ==> dec_node(buf@) == Some((n@, Seq::<u8>::empty())),
        r is Err ==> dec_node(buf@) is None || (dec_node(buf@) matches Some((v, rest))
            && rest.len() > 0),
{
    proof {
        assert(buf@.skip(0) =~= buf@);
    }
    match decode_node(buf, 0) {
        Ok((n, end)) => {
            if end == buf.len() {
                proof {
                    assert(buf@.skip(end as int) =~= Seq::<u8>::empty());
                }
                Ok(n)
            } else {
                proof {
                    assert(buf@.skip(end as int).len() > 0);
                }
                Err(NodeDecodeError::TrailingBytes)
            }
        },
        Err(e) => Err(e),
    }
}

} // verus!
