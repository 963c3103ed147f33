//! The tree-structured stanza exchanged after the handshake: a tag, an
//! ordered list of attributes, and optional content — child nodes, raw
//! bytes, or a string. Attribute values are strings or JIDs, the one
//! structured attribute type the binary codec special-cases.

use vstd::prelude::*;
use crate::encoding::{bytes_eq, str_eq};
use crate::jid::{JidV, JID};

verus! {

/// One attribute: a key and its value, in insertion order.
#[derive(Clone, Debug)]
pub struct Attr {
    pub key: String,
    pub value: AttrValue,
}

/// An attribute value: a plain string or a JID.
#[derive(Clone, Debug)]
pub enum AttrValue {
    Text(String),
    Jid(JID),
}

/// The content of a node, when it has any.
#[derive(Debug)]
pub enum NodeContent {
    /// Nested child nodes, in order.
    Nodes(Vec<Node>),
    /// A raw byte payload.
    Bytes(Vec<u8>),
    /// A single string.
    Text(String),
}

/// One stanza node.
#[derive(Debug)]
pub struct Node {
    pub tag: String,
    pub attrs: Vec<Attr>,
    pub content: Option<NodeContent>,
}

/// The mathematical value of an [`Attr`].
pub struct AttrV {
    pub key: Seq<char>,
    pub value: AttrValueV,
}

/// The mathematical value of an [`AttrValue`].
pub enum AttrValueV {
    Text(Seq<char>),
    Jid(JidV),
}

/// The mathematical value of a [`NodeContent`].
pub enum ContentV {
    Nodes(Seq<NodeV>),
    Bytes(Seq<u8>),
    Text(Seq<char>),
}

/// The mathematical value of a [`Node`].
pub struct NodeV {
    pub tag: Seq<char>,
    pub attrs: Seq<AttrV>,
    pub content: Option<ContentV>,
}

pub open spec fn attr_value_view(v: AttrValue) -> AttrValueV {
    match v {
        AttrValue::Text(s) => AttrValueV::Text(s@),
        AttrValue::Jid(j) => AttrValueV::Jid(j@),
    }
}

pub open spec fn attr_view(a: Attr) -> AttrV {
    AttrV { key: a.key@, value: attr_value_view(a.value) }
}

pub open spec fn attrs_view(s: Seq<Attr>) -> Seq<AttrV> {
    s.map_values(|a: Attr| attr_view(a))
}

pub open spec fn node_view(n: Node) -> NodeV
    decreases n,
{
    NodeV {
        tag: n.tag@,
        attrs: attrs_view(n.attrs@),
        content: match n.content {
            Option::None => Option::None,
            Option::Some(NodeContent::Nodes(ns)) => Option::Some(ContentV::Nodes(nodes_view(ns@))),
            Option::Some(NodeContent::Bytes(b)) => Option::Some(ContentV::Bytes(b@)),
            Option::Some(NodeContent::Text(s)) => Option::Some(ContentV::Text(s@)),
        },
    }
}

pub open spec fn nodes_view(s: Seq<Node>) -> Seq<NodeV>
    decreases s,
{
    if s.len() == 0 {
        Seq::empty()
    } else {
        seq![node_view(s.first())] + nodes_view(s.drop_first())
    }
}

impl View for Node {
    type V = NodeV;

    open spec fn view(&self) -> NodeV {
        node_view(*self)
    }
}

impl View for Attr {
    type V = AttrV;

    open spec fn view(&self) -> AttrV {
        attr_view(*self)
    }
}

impl View for AttrValue {
    type V = AttrValueV;

    open spec fn view(&self) -> AttrValueV {
        attr_value_view(*self)
    }
}

/// Deep equality of attribute values, decided by content.
pub fn attr_value_eq(a: &AttrValue, b: &AttrValue) -> (r: bool)
    ensures
        r <==> a@ == b@,
{
    match (a, b) {
        (AttrValue::Text(x), AttrValue::Text(y)) => str_eq(x.as_str(), y.as_str()),
        (AttrValue::Jid(x), AttrValue::Jid(y)) => x == y,
        _ => false,
    }
}

/// Deep equality of attributes.
pub fn attr_eq(a: &Attr, b: &Attr) -> (r: bool)
    ensures
        r <==> a@ == b@,
{
    str_eq(a.key.as_str(), b.key.as_str()) && attr_value_eq(&a.value, &b.value)
}

/// Deep equality of nodes: same tag, same attributes in the same order,
/// same content.
pub fn node_eq(a: &Node, b: &Node) -> (r: bool)
    ensures
        r <==> a@ == b@,
    decreases *a,
{
    if !str_eq(a.tag.as_str(), b.tag.as_str()) {
        return false;
    }
    if a.attrs.len() != b.attrs.len() {
        proof {
            assert(attrs_view(a.attrs@).len() == a.attrs@.len());
            assert(attrs_view(b.attrs@).len() == b.attrs@.len());
        }
        return false;
    }
    let mut i: usize = 0;
    while i < a.attrs.len()
        invariant
            0 <= i <= a.attrs@.len(),
            a.attrs@.len() == b.attrs@.len(),
            forall|j: int| 0 <= j < i ==> attr_view(a.attrs@[j]) == attr_view(b.attrs@[j]),
        decreases a.attrs@.len() - i,
    {
        if !attr_eq(&a.attrs[i], &b.attrs[i]) {
            proof {
                assert(attrs_view(a.attrs@)[i as int] == attr_view(a.attrs@[i as int]));
                assert(attrs_view(b.attrs@)[i as int] == attr_view(b.attrs@[i as int]));
            }
            return false;
        }
        i += 1;
    }
    proof {
        assert(attrs_view(a.attrs@) =~= attrs_view(b.attrs@));
    }
    match (&a.content, &b.content) {
        (Option::None, Option::None) => true,
        (Option::Some(NodeContent::Bytes(x)), Option::Some(NodeContent::Bytes(y))) => bytes_eq(
            x.as_slice(),
            y.as_slice(),
        ),
        (Option::Some(NodeContent::Text(x)), Option::Some(NodeContent::Text(y))) => str_eq(
            x.as_str(),
            y.as_str(),
        ),
        (Option::Some(NodeContent::Nodes(xs)), Option::Some(NodeContent::Nodes(ys))) => {
            proof {
                lemma_nodes_view_index(xs@);
                lemma_nodes_view_index(ys@);
            }
            if xs.len() != ys.len() {
                return false;
            }
            let mut k: usize = 0;
            while k < xs.len()
                invariant
                    0 <= k <= xs@.len(),
                    xs@.len() == ys@.len(),
                    a.content == Option::Some(NodeContent::Nodes(*xs)),
                    b.content == Option::Some(NodeContent::Nodes(*ys)),
                    forall|j: int| 0 <= j < k ==> node_view(xs@[j]) == node_view(ys@[j]),
                decreases xs@.len() - k,
            {
                proof {
                    lemma_nodes_view_index(xs@);
                    lemma_nodes_view_index(ys@);
                    assert(decreases_to!(*a => a.content));
                    assert(decreases_to!(a.content => a.content->Some_0));
                    assert(decreases_to!(a.content->Some_0 => a.content->Some_0->Nodes_0));
                    assert(a.content->Some_0->Nodes_0 == *xs);
                    assert(decreases_to!(*xs => xs@[k as int]));
                    assert(decreases_to!(*a => xs@[k as int]));
                }
                if !node_eq(&xs[k], &ys[k]) {
                    proof {
                        assert(nodes_view(xs@)[k as int] != nodes_view(ys@)[k as int]);
                    }
                    return false;
                }
                k += 1;
            }
            proof {
                lemma_nodes_view_index(xs@);
                lemma_nodes_view_index(ys@);
                assert(nodes_view(xs@) =~= nodes_view(ys@));
            }
            true
        },
        _ => false,
    }
}

impl PartialEq for Node {
    fn eq(&self, other: &Node) -> (r: bool) {
        node_eq(self, other)
    }
}

impl vstd::std_specs::cmp::PartialEqSpecImpl for Node {
    open spec fn obeys_eq_spec() -> bool {
        true
    }

    open spec fn eq_spec(&self, other: &Node) -> bool {
        self@ == other@
    }
}

impl Eq for Node {}

impl PartialEq for Attr {
    fn eq(&self, other: &Attr) -> (r: bool) {
        attr_eq(self, other)
    }
}

impl vstd::std_specs::cmp::PartialEqSpecImpl for Attr {
    open spec fn obeys_eq_spec() -> bool {
        true
    }

    open spec fn eq_spec(&self, other: &Attr) -> bool {
        self@ == other@
    }
}

impl Eq for Attr {}

impl PartialEq for AttrValue {
    fn eq(&self, other: &AttrValue) -> (r: bool) {
        attr_value_eq(self, other)
    }
}

impl vstd::std_specs::cmp::PartialEqSpecImpl for AttrValue {
    open spec fn obeys_eq_spec() -> bool {
        true
    }

    open spec fn eq_spec(&self, other: &AttrValue) -> bool {
        self@ == other@
    }
}

impl Eq for AttrValue {}

/// A deep copy of an attribute value.
pub fn attr_value_clone(v: &AttrValue) -> (r: AttrValue)
    ensures
        r@ == v@,
{
    match v {
        AttrValue::Text(s) => AttrValue::Text(s.clone()),
        AttrValue::Jid(j) => AttrValue::Jid(j.clone()),
    }
}

/// A deep copy of an attribute.
pub fn attr_clone(a: &Attr) -> (r: Attr)
    ensures
        r@ == a@,
{
    Attr { key: a.key.clone(), value: attr_value_clone(&a.value) }
}

/// A deep copy of a node.
pub fn node_clone(n: &Node) -> (r: Node)
    ensures
        r@ == n@,
    decreases *n,
{
    let tag = n.tag.clone();
    let mut attrs: Vec<Attr> = Vec::new();
    let mut i: usize = 0;
    while i < n.attrs.len()
        invariant
            0 <= i <= n.attrs@.len(),
            attrs@.len() == i,
            forall|j: int| 0 <= j < i ==> attr_view(attrs@[j]) == attr_view(n.attrs@[j]),
        decreases n.attrs@.len() - i,
    {
        attrs.push(attr_clone(&n.attrs[i]));
        i += 1;
    }
    proof {
        assert(attrs_view(attrs@) =~= attrs_view(n.attrs@));
    }
    let content: Option<NodeContent> = match &n.content {
        Option::None => Option::None,
        Option::Some(NodeContent::Bytes(b)) => {
            let copied = crate::encoding::copy_range(b.as_slice(), 0, b.len());
            proof {
                assert(copied@ =~= b@);
            }
            Option::Some(NodeContent::Bytes(copied))
        },
        Option::Some(NodeContent::Text(s)) => Option::Some(NodeContent::Text(s.clone())),
        Option::Some(NodeContent::Nodes(xs)) => {
            let mut kids: Vec<Node> = Vec::new();
            let mut k: usize = 0;
            while k < xs.len()
                invariant
                    0 <= k <= xs@.len(),
                    kids@.len() == k,
                    n.content == Option::Some(NodeContent::Nodes(*xs)),
                    forall|j: int| 0 <= j < k ==> node_view(kids@[j]) == node_view(xs@[j]),
                decreases xs@.len() - k,
            {
                proof {
                    assert(decreases_to!(*n => n.content));
                    assert(decreases_to!(n.content => n.content->Some_0));
                    assert(decreases_to!(n.content->Some_0 => n.content->Some_0->Nodes_0));
                    assert(n.content->Some_0->Nodes_0 == *xs);
                    assert(decreases_to!(*xs => xs@[k as int]));
                    assert(decreases_to!(*n => xs@[k as int]));
                }
                kids.push(node_clone(&xs[k]));
                k += 1;
            }
            proof {
                lemma_nodes_view_index(kids@);
                lemma_nodes_view_index(xs@);
                assert(nodes_view(kids@) =~= nodes_view(xs@));
            }
            Option::Some(NodeContent::Nodes(kids))
        },
    };
    Node { tag, attrs, content }
}

impl Clone for Node {
    /// A deep copy with the same mathematical value.
    fn clone(&self) -> (r: Node)
        ensures
            r@ == self@,
    {
        node_clone(self)
    }
}

/// `nodes_view` maps the element views one for one.
pub proof fn lemma_nodes_view_index(s: Seq<Node>)
    ensures
        nodes_view(s).len() == s.len(),
        forall|i: int| 0 <= i < s.len() ==> nodes_view(s)[i] == node_view(s[i]),
    decreases s,
{
    if s.len() > 0 {
        lemma_nodes_view_index(s.drop_first());
        assert forall|i: int| 0 <= i < s.len() implies nodes_view(s)[i] == node_view(s[i]) by {
            if i > 0 {
                assert(nodes_view(s)[i] == nodes_view(s.drop_first())[i - 1]);
                assert(s.drop_first()[i - 1] == s[i]);
            }
        }
    }
}

} // verus!
