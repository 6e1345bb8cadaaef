//! The content of a tree node, moved whole by insert and delete operations.

use vstd::prelude::*;
use crate::attributes::{AttributesView, NodeAttributes};
use crate::text_delta::{TextDelta, TextDeltaView};

verus! {

/// The content of one node of the document tree.
#[derive(Debug, PartialEq, Eq)]
pub struct NodeData {
    /// The kind of node, as the document's schema names it.
    pub node_type: String,
    /// The node's metadata.
    pub attributes: NodeAttributes,
    /// The node's text, where it has any.
    pub delta: Option<TextDelta>,
}

/// What a [`NodeData`] holds.
pub struct NodeDataView {
    pub node_type: Seq<char>,
    pub attributes: AttributesView,
    pub delta: Option<TextDeltaView>,
}

impl View for NodeData {
    type V = NodeDataView;

    open spec fn view(&self) -> NodeDataView {
        NodeDataView {
            node_type: self.node_type@,
            attributes: self.attributes@,
            delta: match self.delta {
                Some(delta) => Some(delta@),
                None => None,
            },
        }
    }
}

impl Clone for NodeData {
    fn clone(&self) -> (r: Self)
        ensures
            r@ == self@,
    {
        NodeData {
            node_type: self.node_type.clone(),
            attributes: self.attributes.clone(),
            delta: match &self.delta {
                Some(delta) => Some(delta.clone()),
                None => None,
            },
        }
    }
}

/// What a run of nodes holds, node by node.
pub open spec fn nodes_view(nodes: Seq<NodeData>) -> Seq<NodeDataView> {
    nodes.map_values(|node: NodeData| node@)
}

/// Copies a run of nodes.
pub(crate) fn clone_nodes(nodes: &Vec<NodeData>) -> (r: Vec<NodeData>)
    ensures
        nodes_view(r@) == nodes_view(nodes@),
{
    nodes.clone()
}

} // verus!
