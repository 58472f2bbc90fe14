//! The state of a working copy, entry by entry.

use crate::error::AppError;
use crate::text::str_eq;
use crate::xml::{
    attribute, attribute_or, first_child, has_tag, node_attribute, node_attribute_or,
    node_first_child, node_has_tag, node_views, parse_document, xml_nodes, NodeModel, XmlNode,
};
use vstd::prelude::*;
use vstd::string::*;

verus! {

/// What the backend reports of one path.
#[derive(Debug, Clone, Copy, PartialEq, Eq, Structural)]
pub enum ItemKind {
    Normal,
    /// The backend's `none`: nothing stands at the path.
    Absent,
    External,
    Unversioned,
    Ignored,
    Missing,
    Conflicted,
    TreeConflicted,
    Obstructed,
    Incomplete,
    /// Any other change that is under version control: content, an addition,
    /// a deletion, a replacement.
    Modified,
}

/// One record of a status report.
#[derive(Debug)]
pub struct StatusEntry {
    pub path: String,
    pub item_kind: ItemKind,
    pub props_conflicted: bool,
    pub switched: bool,
}

/// What a `StatusEntry` holds, as mathematical values.
pub struct StatusModel {
    pub path: Seq<char>,
    pub item_kind: ItemKind,
    pub props_conflicted: bool,
    pub switched: bool,
}

impl View for StatusEntry {
    type V = StatusModel;

    open spec fn view(&self) -> StatusModel {
        StatusModel {
            path: self.path@,
            item_kind: self.item_kind,
            props_conflicted: self.props_conflicted,
            switched: self.switched,
        }
    }
}

/// The models of the entries of `entries`.
pub open spec fn entry_views(entries: Seq<StatusEntry>) -> Seq<StatusModel> {
    entries.map_values(|e: StatusEntry| e@)
}

/// The kind that the backend's word for an item stands for. Words for
/// changes that this library does not tell apart count as `Modified`.
pub open spec fn kind_of_item(item: Seq<char>) -> ItemKind {
    if item == "normal"@ {
        ItemKind::Normal
    } else if item == "none"@ {
        ItemKind::Absent
    } else if item == "external"@ {
        ItemKind::External
    } else if item == "unversioned"@ {
        ItemKind::Unversioned
    } else if item == "ignored"@ {
        ItemKind::Ignored
    } else if item == "missing"@ {
        ItemKind::Missing
    } else if item == "conflicted"@ {
        ItemKind::Conflicted
    } else if item == "obstructed"@ {
        ItemKind::Obstructed
    } else if item == "incomplete"@ {
        ItemKind::Incomplete
    } else {
        ItemKind::Modified
    }
}

/// The kind of an entry: incomplete metadata comes before everything, a
/// tree conflict before what the item's own word says.
pub open spec fn entry_kind(item: Seq<char>, tree_conflicted: Seq<char>) -> ItemKind {
    if item == "incomplete"@ {
        ItemKind::Incomplete
    } else if tree_conflicted == "true"@ {
        ItemKind::TreeConflicted
    } else {
        kind_of_item(item)
    }
}

/// The record that node `i` stands for: an `entry` element with a
/// `wc-status` child. Any other node stands for none.
pub open spec fn entry_at(nodes: Seq<NodeModel>, i: int) -> Option<StatusModel> {
    if has_tag(nodes, i, "entry"@) {
        match first_child(nodes, i, "wc-status"@) {
            Some(w) => Some(
                StatusModel {
                    path: attribute_or(nodes[i], "path"@, ""@),
                    item_kind: entry_kind(
                        attribute_or(nodes[w], "item"@, ""@),
                        attribute_or(nodes[w], "tree-conflicted"@, "false"@),
                    ),
                    props_conflicted: attribute_or(nodes[w], "props"@, ""@) == "conflicted"@,
                    switched: attribute(nodes[w], "switched"@) == Some("true"@),
                },
            ),
            None => None,
        }
    } else {
        None
    }
}

/// The records of the nodes from `i` on, in document order.
pub open spec fn entries_from(nodes: Seq<NodeModel>, i: int) -> Seq<StatusModel>
    decreases nodes.len() - i,
{
    if i < 0 || i >= nodes.len() {
        Seq::empty()
    } else {
        match entry_at(nodes, i) {
            Some(e) => seq![e] + entries_from(nodes, i + 1),
            None => entries_from(nodes, i + 1),
        }
    }
}

/// The records of a status document, in document order.
pub open spec fn status_entries(nodes: Seq<NodeModel>) -> Seq<StatusModel> {
    entries_from(nodes, 0)
}

/// The kind that the backend's word for an item stands for.
pub fn item_kind_of(item: &str) -> (k: ItemKind)
    ensures
        k == kind_of_item(item@),
{
    if str_eq(item, "normal") {
        ItemKind::Normal
    } else if str_eq(item, "none") {
        ItemKind::Absent
    } else if str_eq(item, "external") {
        ItemKind::External
    } else if str_eq(item, "unversioned") {
        ItemKind::Unversioned
    } else if str_eq(item, "ignored") {
        ItemKind::Ignored
    } else if str_eq(item, "missing") {
        ItemKind::Missing
    } else if str_eq(item, "conflicted") {
        ItemKind::Conflicted
    } else if str_eq(item, "obstructed") {
        ItemKind::Obstructed
    } else if str_eq(item, "incomplete") {
        ItemKind::Incomplete
    } else {
        ItemKind::Modified
    }
}

/// The record that node `i` stands for, if it stands for one.
pub fn entry_of_node(nodes: &Vec<XmlNode>, i: usize) -> (r: Option<StatusEntry>)
    requires
        i < nodes.len(),
    ensures
        match r {
            Some(e) => entry_at(node_views(nodes@), i as int) == Some(e@),
            None => entry_at(node_views(nodes@), i as int) is None,
        },
{
    if !node_has_tag(nodes, i, "entry") {
        return None;
    }
    match node_first_child(nodes, i, "wc-status") {
        Some(w) => {
            let status = &nodes[w];
            let item = node_attribute_or(status, "item", "");
            let tree = node_attribute_or(status, "tree-conflicted", "false");
            let item_kind = if str_eq(item, "incomplete") {
                ItemKind::Incomplete
            } else if str_eq(tree, "true") {
                ItemKind::TreeConflicted
            } else {
                item_kind_of(item)
            };
            let switched = match node_attribute(status, "switched") {
                Some(v) => str_eq(v, "true"),
                None => false,
            };
            Some(
                StatusEntry {
                    path: String::from_str(node_attribute_or(&nodes[i], "path", "")),
                    item_kind,
                    props_conflicted: str_eq(
                        node_attribute_or(status, "props", ""),
                        "conflicted",
                    ),
                    switched,
                },
            )
        },
        None => None,
    }
}

/// The records of a parsed status document, in document order.
pub fn entries_of_nodes(nodes: &Vec<XmlNode>) -> (r: Vec<StatusEntry>)
    ensures
        entry_views(r@) == status_entries(node_views(nodes@)),
{
    let mut out: Vec<StatusEntry> = Vec::new();
    let mut i: usize = 0;
    while i < nodes.len()
        invariant
            i <= nodes.len(),
            status_entries(node_views(nodes@)) == entry_views(out@) + entries_from(
                node_views(nodes@),
                i as int,
            ),
        decreases nodes.len() - i,
    {
        match entry_of_node(nodes, i) {
            Some(e) => {
                out.push(e);
            },
            None => {},
        }
        i += 1;
    }
    out
}

/// Reads a structured status report into its records. The report is
/// rejected exactly where the parser rejects it.
pub fn classify_status(xml: &str) -> (r: Result<Vec<StatusEntry>, AppError>)
    ensures
        match r {
            Ok(entries) => xml_nodes(xml@) matches Some(nodes) && entry_views(entries@)
                == status_entries(nodes),
            Err(e) => xml_nodes(xml@) is None && e is XmlParse,
        },
{
    match parse_document(xml) {
        Ok(nodes) => Ok(entries_of_nodes(&nodes)),
        Err(e) => Err(e),
    }
}

} // verus!
