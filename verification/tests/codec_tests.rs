use wa_transport::codec::{decode_node, decode_node_complete, encode_node, NodeDecodeError};
use wa_transport::jid::JID;
use wa_transport::node::{node_eq, Attr, AttrValue, Node, NodeContent};

fn text_attr(key: &str, value: &str) -> Attr {
    Attr {
        key: key.to_string(),
        value: AttrValue::Text(value.to_string()),
    }
}

fn iq_node() -> Node {
    Node {
        tag: "iq".to_string(),
        attrs: vec![text_attr("id", "1"), text_attr("type", "get")],
        content: None,
    }
}

#[test]
fn encode_iq_node_exact_bytes() {
    // tag "iq" = token 1; two attrs; "id" = token 9; "1" raw; "type" =
    // token 2; "get" = token 3; no content.
    let bytes = encode_node(&iq_node()).unwrap();
    assert_eq!(bytes, vec![1u8, 2, 9, 252, 1, b'1', 2, 3, 0]);
}

#[test]
fn node_round_trip_simple() {
    let n = iq_node();
    let bytes = encode_node(&n).unwrap();
    let decoded = decode_node_complete(&bytes).unwrap();
    assert!(node_eq(&decoded, &n));
    assert_eq!(decoded, n);
}

#[test]
fn node_round_trip_empty_everything() {
    let n = Node {
        tag: "presence".to_string(),
        attrs: vec![],
        content: None,
    };
    let bytes = encode_node(&n).unwrap();
    let decoded = decode_node_complete(&bytes).unwrap();
    assert_eq!(decoded, n);
}

#[test]
fn node_round_trip_bytes_content() {
    let n = Node {
        tag: "message".to_string(),
        attrs: vec![text_attr("to", "123@s.whatsapp.net")],
        content: Some(NodeContent::Bytes(vec![0, 1, 2, 250, 252, 255])),
    };
    let bytes = encode_node(&n).unwrap();
    let decoded = decode_node_complete(&bytes).unwrap();
    assert_eq!(decoded, n);
}

#[test]
fn node_round_trip_text_content() {
    let n = Node {
        tag: "notify".to_string(),
        attrs: vec![],
        content: Some(NodeContent::Text("hello, wörld".to_string())),
    };
    let bytes = encode_node(&n).unwrap();
    let decoded = decode_node_complete(&bytes).unwrap();
    assert_eq!(decoded, n);
}

#[test]
fn node_round_trip_jid_attr() {
    let mut j = JID::new("123".to_string(), "s.whatsapp.net".to_string());
    j.raw_agent = 2;
    j.device = 7;
    j.integrator = 9;
    let n = Node {
        tag: "receipt".to_string(),
        attrs: vec![Attr {
            key: "to".to_string(),
            value: AttrValue::Jid(j.clone()),
        }],
        content: None,
    };
    let bytes = encode_node(&n).unwrap();
    let decoded = decode_node_complete(&bytes).unwrap();
    assert_eq!(decoded, n);
    match &decoded.attrs[0].value {
        AttrValue::Jid(back) => assert_eq!(back, &j),
        other => panic!("expected a JID attribute, got {:?}", other),
    }
}

fn leaf_node() -> Node {
    Node {
        tag: "participant".to_string(),
        attrs: vec![text_attr("jid", "1@g.us")],
        content: None,
    }
}

#[test]
fn node_round_trip_nested_children() {
    let mid = Node {
        tag: "notification".to_string(),
        attrs: vec![],
        content: Some(NodeContent::Nodes(vec![leaf_node(), leaf_node()])),
    };
    let root = Node {
        tag: "message".to_string(),
        attrs: vec![text_attr("id", "abc")],
        content: Some(NodeContent::Nodes(vec![mid, leaf_node()])),
    };
    let bytes = encode_node(&root).unwrap();
    let decoded = decode_node_complete(&bytes).unwrap();
    assert_eq!(decoded, root);
}

#[test]
fn node_round_trip_empty_child_list() {
    let n = Node {
        tag: "ack".to_string(),
        attrs: vec![],
        content: Some(NodeContent::Nodes(vec![])),
    };
    let bytes = encode_node(&n).unwrap();
    let decoded = decode_node_complete(&bytes).unwrap();
    assert_eq!(decoded, n);
}

#[test]
fn raw24_string_form_round_trips() {
    let long = "x".repeat(300);
    let n = Node {
        tag: long.clone(),
        attrs: vec![],
        content: None,
    };
    let bytes = encode_node(&n).unwrap();
    assert_eq!(bytes[0], 253);
    let decoded = decode_node_complete(&bytes).unwrap();
    assert_eq!(decoded.tag, long);
}

#[test]
fn secondary_token_form_round_trips() {
    let n = Node {
        tag: "mute".to_string(),
        attrs: vec![],
        content: None,
    };
    let bytes = encode_node(&n).unwrap();
    assert_eq!(&bytes[0..2], &[236, 0]);
    let decoded = decode_node_complete(&bytes).unwrap();
    assert_eq!(decoded, n);
}

#[test]
fn decode_rejects_unknown_token() {
    // Byte 0 is no token and no known marker in tag position.
    assert_eq!(
        decode_node_complete(&[0, 0, 0]),
        Err(NodeDecodeError::UnknownToken)
    );
    // A token index past the primary table.
    assert_eq!(
        decode_node_complete(&[200, 0, 0]),
        Err(NodeDecodeError::UnknownToken)
    );
    // A secondary index past the secondary table.
    assert_eq!(
        decode_node_complete(&[236, 99, 0, 0]),
        Err(NodeDecodeError::UnknownToken)
    );
}

#[test]
fn decode_rejects_truncated_buffers() {
    let good = encode_node(&iq_node()).unwrap();
    for cut in 0..good.len() {
        let err = decode_node_complete(&good[..cut]);
        assert_eq!(err, Err(NodeDecodeError::Truncated), "cut at {}", cut);
    }
}

#[test]
fn decode_rejects_bad_content_marker() {
    // tag "iq", zero attrs, marker 9.
    assert_eq!(
        decode_node_complete(&[1, 0, 9]),
        Err(NodeDecodeError::UnexpectedMarker)
    );
}

#[test]
fn decode_rejects_invalid_utf8_raw_string() {
    // tag: raw string of one 0xFF byte.
    assert_eq!(
        decode_node_complete(&[252, 1, 0xFF, 0, 0]),
        Err(NodeDecodeError::InvalidString)
    );
}

#[test]
fn decode_rejects_trailing_bytes() {
    let mut bytes = encode_node(&iq_node()).unwrap();
    bytes.push(0);
    assert_eq!(
        decode_node_complete(&bytes),
        Err(NodeDecodeError::TrailingBytes)
    );
    // The positional decoder reports where the node ended instead.
    let (node, end) = decode_node(&bytes, 0).unwrap();
    assert_eq!(node, iq_node());
    assert_eq!(end, bytes.len() - 1);
}

#[test]
fn encode_rejects_oversize_string() {
    let n = Node {
        tag: "a".repeat(0x1000000),
        attrs: vec![],
        content: None,
    };
    assert!(encode_node(&n).is_err());
}
