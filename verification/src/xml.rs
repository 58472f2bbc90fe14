//! Structured output of the backend, as a flat list of nodes.
//!
//! The parser is `roxmltree`. What the rules of this library read of a
//! document is copied out of it once, node by node in document order, into
//! plain values: `XmlNode`. Every query below is a verified function over
//! that list.

use crate::error::AppError;
use crate::text::{chars_eq, str_chars, str_eq};
use vstd::prelude::*;

verus! {

/// One attribute of an element: its local name and its value.
#[derive(Debug, Clone)]
pub struct XmlAttribute {
    pub name: String,
    pub value: String,
}

/// One node of a document.
#[derive(Debug, Clone)]
pub struct XmlNode {
    /// Whether the node is an element (and not text, a comment or the root).
    pub element: bool,
    /// The local name of an element's tag; empty for any other node.
    pub name: String,
    /// The index of the parent node in the list; the root has none.
    pub parent: Option<usize>,
    /// The number of nodes in the subtree of this node, itself included.
    pub span: usize,
    /// The attributes of an element, in document order.
    pub attributes: Vec<XmlAttribute>,
    /// For an element the text of its first child, where that is text; for
    /// text and comments their own text.
    pub text: Option<String>,
}

/// What an `XmlNode` holds, as mathematical values.
pub struct NodeModel {
    pub element: bool,
    pub name: Seq<char>,
    pub parent: Option<int>,
    pub span: int,
    pub attributes: Seq<(Seq<char>, Seq<char>)>,
    pub text: Option<Seq<char>>,
}

impl View for XmlAttribute {
    type V = (Seq<char>, Seq<char>);

    open spec fn view(&self) -> (Seq<char>, Seq<char>) {
        (self.name@, self.value@)
    }
}

impl View for XmlNode {
    type V = NodeModel;

    open spec fn view(&self) -> NodeModel {
        NodeModel {
            element: self.element,
            name: self.name@,
            parent: match self.parent {
                Some(p) => Some(p as int),
                None => None,
            },
            span: self.span as int,
            attributes: self.attributes@.map_values(|a: XmlAttribute| a@),
            text: match self.text {
                Some(t) => Some(t@),
                None => None,
            },
        }
    }
}

/// The models of the nodes of `nodes`.
pub open spec fn node_views(nodes: Seq<XmlNode>) -> Seq<NodeModel> {
    nodes.map_values(|n: XmlNode| n@)
}

/// What `roxmltree::Document::parse` makes of `text`: the nodes of the
/// document in document order, the root first, or nothing where `text` is no
/// well-formed document.
pub uninterp spec fn xml_nodes(text: Seq<char>) -> Option<Seq<NodeModel>>;

/// Parses `text` with `roxmltree::Document::parse` and copies each node of
/// `Document::descendants` out: whether it is an element, its tag's local
/// name, its parent's id, the size of its subtree, its attributes' local
/// names and values, and its text. The result is a function of `text` alone.
#[verifier::external_body]
fn parse_nodes(text: &str) -> (r: Result<Vec<XmlNode>, roxmltree::Error>)
    ensures
        match r {
            Ok(nodes) => xml_nodes(text@) == Some(node_views(nodes@)),
            Err(_) => xml_nodes(text@) is None,
        },
{
    let doc = roxmltree::Document::parse(text)?;
    Ok(doc.descendants().map(|n| XmlNode {
        element: n.is_element(),
        name: n.tag_name().name().to_string(),
        parent: n.parent().map(|p| p.id().get_usize()),
        span: n.descendants().len(),
        attributes: n.attributes().map(|a| XmlAttribute {
            name: a.name().to_string(),
            value: a.value().to_string(),
        }).collect(),
        text: n.text().map(|t| t.to_string()),
    }).collect())
}

/// The nodes of the document `text`, or the parser's error.
pub fn parse_document(text: &str) -> (r: Result<Vec<XmlNode>, AppError>)
    ensures
        match r {
            Ok(nodes) => xml_nodes(text@) == Some(node_views(nodes@)),
            Err(e) => xml_nodes(text@) is None && e is XmlParse,
        },
{
    match parse_nodes(text) {
        Ok(nodes) => Ok(nodes),
        Err(e) => Err(AppError::XmlParse(e)),
    }
}

/// Whether node `i` is an element with the tag `tag`.
pub open spec fn has_tag(nodes: Seq<NodeModel>, i: int, tag: Seq<char>) -> bool {
    0 <= i < nodes.len() && nodes[i].element && nodes[i].name == tag
}

/// The value of the first attribute named `name` from index `k` on.
pub open spec fn attribute_from(
    attributes: Seq<(Seq<char>, Seq<char>)>,
    name: Seq<char>,
    k: int,
) -> Option<Seq<char>>
    decreases attributes.len() - k,
{
    if k < 0 || k >= attributes.len() {
        None
    } else if attributes[k].0 == name {
        Some(attributes[k].1)
    } else {
        attribute_from(attributes, name, k + 1)
    }
}

/// The value of the first attribute of `node` named `name`.
pub open spec fn attribute(node: NodeModel, name: Seq<char>) -> Option<Seq<char>> {
    attribute_from(node.attributes, name, 0)
}

/// The value of the attribute `name` of `node`, or `default` where it has
/// none.
pub open spec fn attribute_or(node: NodeModel, name: Seq<char>, default: Seq<char>) -> Seq<
    char,
> {
    match attribute(node, name) {
        Some(v) => v,
        None => default,
    }
}

/// Where the subtree of node `i` ends: the index after its last node, and
/// never beyond the list.
pub open spec fn subtree_end(nodes: Seq<NodeModel>, i: int) -> int {
    if 0 <= i < nodes.len() && 0 <= nodes[i].span && i + nodes[i].span <= nodes.len() {
        i + nodes[i].span
    } else {
        nodes.len() as int
    }
}

/// The first child of `parent` with the tag `tag`, among the nodes from `j`
/// up to `end`.
pub open spec fn child_from(
    nodes: Seq<NodeModel>,
    parent: int,
    tag: Seq<char>,
    j: int,
    end: int,
) -> Option<int>
    decreases end - j,
{
    if j < 0 || j >= end || end > nodes.len() {
        None
    } else if nodes[j].parent == Some(parent) && has_tag(nodes, j, tag) {
        Some(j)
    } else {
        child_from(nodes, parent, tag, j + 1, end)
    }
}

/// The first child of `parent` with the tag `tag`.
pub open spec fn first_child(nodes: Seq<NodeModel>, parent: int, tag: Seq<char>) -> Option<int> {
    child_from(nodes, parent, tag, parent + 1, subtree_end(nodes, parent))
}

/// The first node with the tag `tag` among the nodes from `j` up to `end`.
pub open spec fn tagged_from(nodes: Seq<NodeModel>, tag: Seq<char>, j: int, end: int) -> Option<
    int,
>
    decreases end - j,
{
    if j < 0 || j >= end || end > nodes.len() {
        None
    } else if has_tag(nodes, j, tag) {
        Some(j)
    } else {
        tagged_from(nodes, tag, j + 1, end)
    }
}

/// The first node with the tag `tag` in the subtree of node `i`, which may
/// be that node itself.
pub open spec fn first_descendant(nodes: Seq<NodeModel>, i: int, tag: Seq<char>) -> Option<int> {
    tagged_from(nodes, tag, i, subtree_end(nodes, i))
}

/// The first node of the document with the tag `tag`.
pub open spec fn first_tagged(nodes: Seq<NodeModel>, tag: Seq<char>) -> Option<int> {
    tagged_from(nodes, tag, 0, nodes.len() as int)
}

/// The text of node `i`, or nothing where it has none.
pub open spec fn text_or_empty(nodes: Seq<NodeModel>, i: int) -> Seq<char> {
    if 0 <= i < nodes.len() {
        match nodes[i].text {
            Some(t) => t,
            None => Seq::empty(),
        }
    } else {
        Seq::empty()
    }
}

/// Whether node `i` is an element with the tag `tag`.
pub fn node_has_tag(nodes: &Vec<XmlNode>, i: usize, tag: &str) -> (r: bool)
    ensures
        r == has_tag(node_views(nodes@), i as int, tag@),
{
    i < nodes.len() && nodes[i].element && str_eq(nodes[i].name.as_str(), tag)
}

/// The value of the first attribute of `node` named `name`.
pub fn node_attribute<'a>(node: &'a XmlNode, name: &str) -> (r: Option<&'a str>)
    ensures
        match r {
            Some(v) => attribute(node@, name@) == Some(v@),
            None => attribute(node@, name@) is None,
        },
{
    let wanted = str_chars(name);
    let mut k: usize = 0;
    while k < node.attributes.len()
        invariant
            k <= node.attributes.len(),
            wanted@ == name@,
            attribute(node@, name@) == attribute_from(node@.attributes, name@, k as int),
        decreases node.attributes.len() - k,
    {
        let have = str_chars(node.attributes[k].name.as_str());
        if chars_eq(&have, &wanted) {
            return Some(node.attributes[k].value.as_str());
        }
        k += 1;
    }
    None
}

/// The value of the attribute `name` of `node`, or `default` where it has
/// none.
pub fn node_attribute_or<'a>(node: &'a XmlNode, name: &str, default: &'a str) -> (r: &'a str)
    ensures
        r@ == attribute_or(node@, name@, default@),
{
    match node_attribute(node, name) {
        Some(v) => v,
        None => default,
    }
}

/// Where the subtree of node `i` ends.
pub fn node_subtree_end(nodes: &Vec<XmlNode>, i: usize) -> (r: usize)
    ensures
        r == subtree_end(node_views(nodes@), i as int),
        r <= nodes.len(),
{
    if i < nodes.len() && nodes[i].span <= nodes.len() - i {
        i + nodes[i].span
    } else {
        nodes.len()
    }
}

/// The first child of `parent` with the tag `tag`.
pub fn node_first_child(nodes: &Vec<XmlNode>, parent: usize, tag: &str) -> (r: Option<usize>)
    ensures
        match r {
            Some(j) => first_child(node_views(nodes@), parent as int, tag@) == Some(j as int) && j
                < nodes.len(),
            None => first_child(node_views(nodes@), parent as int, tag@) is None,
        },
{
    let end = node_subtree_end(nodes, parent);
    if parent >= end {
        return None;
    }
    let mut j: usize = parent + 1;
    while j < end
        invariant
            parent < j,
            j <= end || end <= parent + 1,
            end <= nodes.len(),
            end == subtree_end(node_views(nodes@), parent as int),
            first_child(node_views(nodes@), parent as int, tag@) == child_from(
                node_views(nodes@),
                parent as int,
                tag@,
                j as int,
                end as int,
            ),
        decreases end - j,
    {
        let is_child = match nodes[j].parent {
            Some(p) => p == parent,
            None => false,
        };
        if is_child && node_has_tag(nodes, j, tag) {
            return Some(j);
        }
        j += 1;
    }
    None
}

/// The first node with the tag `tag` among the nodes from `from` up to `end`.
pub fn node_tagged_from(nodes: &Vec<XmlNode>, tag: &str, from: usize, end: usize) -> (r: Option<
    usize,
>)
    requires
        end <= nodes.len(),
    ensures
        match r {
            Some(j) => tagged_from(node_views(nodes@), tag@, from as int, end as int) == Some(
                j as int,
            ) && from <= j < end,
            None => tagged_from(node_views(nodes@), tag@, from as int, end as int) is None,
        },
{
    let mut j: usize = from;
    while j < end
        invariant
            from <= j,
            end <= nodes.len(),
            tagged_from(node_views(nodes@), tag@, from as int, end as int) == tagged_from(
                node_views(nodes@),
                tag@,
                j as int,
                end as int,
            ),
        decreases end - j,
    {
        if node_has_tag(nodes, j, tag) {
            return Some(j);
        }
        j += 1;
    }
    None
}

/// The first node with the tag `tag` in the subtree of node `i`.
pub fn node_first_descendant(nodes: &Vec<XmlNode>, i: usize, tag: &str) -> (r: Option<usize>)
    ensures
        match r {
            Some(j) => first_descendant(node_views(nodes@), i as int, tag@) == Some(j as int) && j
                < nodes.len(),
            None => first_descendant(node_views(nodes@), i as int, tag@) is None,
        },
{
    let end = node_subtree_end(nodes, i);
    node_tagged_from(nodes, tag, i, end)
}

/// The text of node `i`, or the empty string where it has none.
pub fn node_text_or_empty(nodes: &Vec<XmlNode>, i: usize) -> (r: &str)
    ensures
        r@ == text_or_empty(node_views(nodes@), i as int),
{
    if i < nodes.len() {
        match &nodes[i].text {
            Some(t) => {
                t.as_str()
            },
            None => {
                proof {
                    reveal_strlit("");
                }
                ""
            },
        }
    } else {
        proof {
            reveal_strlit("");
        }
        ""
    }
}

} // verus!
