//! Document operations, their inverses, and the transform of one operation
//! against a concurrent one.

use vstd::prelude::*;
use crate::attributes::{AttributesView, NodeAttributes};
use crate::node::{clone_nodes, nodes_view, NodeData, NodeDataView};
use crate::position::{shift_fits, shift_path, Position};
use crate::text_delta::{TextDelta, TextDeltaView};

verus! {

/// Puts `nodes` into the tree as new siblings, the first of them at `path`.
#[derive(Debug, PartialEq, Eq)]
pub struct InsertOperation {
    pub path: Position,
    pub nodes: Vec<NodeData>,
}

/// Replaces the attributes of the node at `path`. It carries the values that
/// it replaces, so that it can be undone without looking at the document.
#[derive(Debug, PartialEq, Eq)]
pub struct UpdateOperation {
    pub path: Position,
    pub attributes: NodeAttributes,
    pub old_attributes: NodeAttributes,
}

/// Takes `nodes` out of the tree, the first of them found at `path`.
#[derive(Debug, PartialEq, Eq)]
pub struct DeleteOperation {
    pub path: Position,
    pub nodes: Vec<NodeData>,
}

/// Edits the text of the node at `path`. It carries the edit that undoes
/// `delta`, so that it can be undone without looking at the document.
#[derive(Debug, PartialEq, Eq)]
pub struct TextEditOperation {
    pub path: Position,
    pub delta: TextDelta,
    pub inverted: TextDelta,
}

/// A change to the document tree.
#[derive(Debug, PartialEq, Eq)]
pub enum DocumentOperation {
    Insert(InsertOperation),
    Update(UpdateOperation),
    Delete(DeleteOperation),
    TextEdit(TextEditOperation),
}

/// The four kinds of operation.
pub enum OperationKind {
    Insert,
    Update,
    Delete,
    TextEdit,
}

/// What a [`DocumentOperation`] holds.
pub enum DocumentOperationView {
    Insert { path: Seq<int>, nodes: Seq<NodeDataView> },
    Update { path: Seq<int>, attributes: AttributesView, old_attributes: AttributesView },
    Delete { path: Seq<int>, nodes: Seq<NodeDataView> },
    TextEdit { path: Seq<int>, delta: TextDeltaView, inverted: TextDeltaView },
}

impl DocumentOperationView {
    /// The location that the operation works at.
    pub open spec fn path(self) -> Seq<int> {
        match self {
            DocumentOperationView::Insert { path, .. } => path,
            DocumentOperationView::Update { path, .. } => path,
            DocumentOperationView::Delete { path, .. } => path,
            DocumentOperationView::TextEdit { path, .. } => path,
        }
    }

    /// Which of the four kinds the operation is.
    pub open spec fn kind(self) -> OperationKind {
        match self {
            DocumentOperationView::Insert { .. } => OperationKind::Insert,
            DocumentOperationView::Update { .. } => OperationKind::Update,
            DocumentOperationView::Delete { .. } => OperationKind::Delete,
            DocumentOperationView::TextEdit { .. } => OperationKind::TextEdit,
        }
    }

    /// Whether the two operations are of one kind and carry the same values
    /// apart from their paths.
    pub open spec fn same_payload(self, other: DocumentOperationView) -> bool {
        match self {
            DocumentOperationView::Insert { nodes, .. } => {
                &&& other is Insert
                &&& other->Insert_nodes == nodes
            },
            DocumentOperationView::Update { attributes, old_attributes, .. } => {
                &&& other is Update
                &&& other->attributes == attributes
                &&& other->old_attributes == old_attributes
            },
            DocumentOperationView::Delete { nodes, .. } => {
                &&& other is Delete
                &&& other->Delete_nodes == nodes
            },
            DocumentOperationView::TextEdit { delta, inverted, .. } => {
                &&& other is TextEdit
                &&& other->delta == delta
                &&& other->inverted == inverted
            },
        }
    }

    /// The operation that undoes this one when applied right after it.
    pub open spec fn invert(self) -> DocumentOperationView {
        match self {
            DocumentOperationView::Insert { path, nodes } => DocumentOperationView::Delete {
                path,
                nodes,
            },
            DocumentOperationView::Update {
                path,
                attributes,
                old_attributes,
            } => DocumentOperationView::Update {
                path,
                attributes: old_attributes,
                old_attributes: attributes,
            },
            DocumentOperationView::Delete { path, nodes } => DocumentOperationView::Insert {
                path,
                nodes,
            },
            DocumentOperationView::TextEdit {
                path,
                delta,
                inverted,
            } => DocumentOperationView::TextEdit { path, delta: inverted, inverted: delta },
        }
    }

    /// The same operation at another location.
    pub open spec fn with_path(self, new_path: Seq<int>) -> DocumentOperationView {
        match self {
            DocumentOperationView::Insert { nodes, .. } => DocumentOperationView::Insert {
                path: new_path,
                nodes,
            },
            DocumentOperationView::Update {
                attributes,
                old_attributes,
                ..
            } => DocumentOperationView::Update { path: new_path, attributes, old_attributes },
            DocumentOperationView::Delete { nodes, .. } => DocumentOperationView::Delete {
                path: new_path,
                nodes,
            },
            DocumentOperationView::TextEdit {
                delta,
                inverted,
                ..
            } => DocumentOperationView::TextEdit { path: new_path, delta, inverted },
        }
    }

    /// The form of `b` to apply after `a`, where both were made against the
    /// same document. An insert or a delete moves `b` by the number of nodes
    /// that it carries; an update or a text edit leaves `b` as it is.
    pub open spec fn transform(a: DocumentOperationView, b: DocumentOperationView)
        -> DocumentOperationView {
        match a {
            DocumentOperationView::Insert { path, nodes } => b.with_path(
                shift_path(path, b.path(), nodes.len() as int),
            ),
            DocumentOperationView::Delete { path, nodes } => b.with_path(
                shift_path(path, b.path(), nodes.len() as int),
            ),
            _ => b,
        }
    }

    /// Whether the machine can hold what `transform` computes for `a` and `b`:
    /// the number of nodes that `a` carries, and the path that `b` moves to.
    pub open spec fn transform_fits(a: DocumentOperationView, b: DocumentOperationView) -> bool {
        match a {
            DocumentOperationView::Insert { path, nodes } => {
                &&& nodes.len() <= i64::MAX
                &&& shift_fits(path, b.path(), nodes.len() as int)
            },
            DocumentOperationView::Delete { path, nodes } => {
                &&& nodes.len() <= i64::MAX
                &&& shift_fits(path, b.path(), nodes.len() as int)
            },
            _ => true,
        }
    }
}

impl View for InsertOperation {
    type V = DocumentOperationView;

    open spec fn view(&self) -> DocumentOperationView {
        DocumentOperationView::Insert { path: self.path@, nodes: nodes_view(self.nodes@) }
    }
}

impl View for UpdateOperation {
    type V = DocumentOperationView;

    open spec fn view(&self) -> DocumentOperationView {
        DocumentOperationView::Update {
            path: self.path@,
            attributes: self.attributes@,
            old_attributes: self.old_attributes@,
        }
    }
}

impl View for DeleteOperation {
    type V = DocumentOperationView;

    open spec fn view(&self) -> DocumentOperationView {
        DocumentOperationView::Delete { path: self.path@, nodes: nodes_view(self.nodes@) }
    }
}

impl View for TextEditOperation {
    type V = DocumentOperationView;

    open spec fn view(&self) -> DocumentOperationView {
        DocumentOperationView::TextEdit {
            path: self.path@,
            delta: self.delta@,
            inverted: self.inverted@,
        }
    }
}

impl View for DocumentOperation {
    type V = DocumentOperationView;

    open spec fn view(&self) -> DocumentOperationView {
        match *self {
            DocumentOperation::Insert(operation) => operation@,
            DocumentOperation::Update(operation) => operation@,
            DocumentOperation::Delete(operation) => operation@,
            DocumentOperation::TextEdit(operation) => operation@,
        }
    }
}

impl Clone for InsertOperation {
    fn clone(&self) -> (r: Self)
        ensures
            r@ == self@,
    {
        InsertOperation { path: self.path.clone(), nodes: clone_nodes(&self.nodes) }
    }
}

impl Clone for UpdateOperation {
    fn clone(&self) -> (r: Self)
        ensures
            r@ == self@,
    {
        UpdateOperation {
            path: self.path.clone(),
            attributes: self.attributes.clone(),
            old_attributes: self.old_attributes.clone(),
        }
    }
}

impl Clone for DeleteOperation {
    fn clone(&self) -> (r: Self)
        ensures
            r@ == self@,
    {
        DeleteOperation { path: self.path.clone(), nodes: clone_nodes(&self.nodes) }
    }
}

impl Clone for TextEditOperation {
    fn clone(&self) -> (r: Self)
        ensures
            r@ == self@,
    {
        TextEditOperation {
            path: self.path.clone(),
            delta: self.delta.clone(),
            inverted: self.inverted.clone(),
        }
    }
}

impl Clone for DocumentOperation {
    fn clone(&self) -> (r: Self)
        ensures
            r@ == self@,
    {
        match self {
            DocumentOperation::Insert(insert) => DocumentOperation::Insert(insert.clone()),
            DocumentOperation::Update(update) => DocumentOperation::Update(update.clone()),
            DocumentOperation::Delete(delete) => DocumentOperation::Delete(delete.clone()),
            DocumentOperation::TextEdit(text_edit) => DocumentOperation::TextEdit(
                text_edit.clone(),
            ),
        }
    }
}

impl DocumentOperation {
    /// The location that the operation works at.
    pub fn path(&self) -> (r: &Position)
        ensures
            r@ == self@.path(),
    {
        match self {
            DocumentOperation::Insert(insert) => &insert.path,
            DocumentOperation::Update(update) => &update.path,
            DocumentOperation::Delete(delete) => &delete.path,
            DocumentOperation::TextEdit(text_edit) => &text_edit.path,
        }
    }

    /// The operation that undoes this one when applied right after it: an
    /// insert becomes the delete of the same nodes at the same place and the
    /// other way round, an update swaps its new and old attributes, a text
    /// edit swaps its delta and the delta that undoes it.
    pub fn invert(&self) -> (r: DocumentOperation)
        ensures
            r@ == self@.invert(),
    {
        match self {
            DocumentOperation::Insert(insert_operation) => DocumentOperation::Delete(
                DeleteOperation {
                    path: insert_operation.path.clone(),
                    nodes: clone_nodes(&insert_operation.nodes),
                },
            ),
            DocumentOperation::Update(update_operation) => DocumentOperation::Update(
                UpdateOperation {
                    path: update_operation.path.clone(),
                    attributes: update_operation.old_attributes.clone(),
                    old_attributes: update_operation.attributes.clone(),
                },
            ),
            DocumentOperation::Delete(delete_operation) => DocumentOperation::Insert(
                InsertOperation {
                    path: delete_operation.path.clone(),
                    nodes: clone_nodes(&delete_operation.nodes),
                },
            ),
            DocumentOperation::TextEdit(text_edit_operation) => DocumentOperation::TextEdit(
                TextEditOperation {
                    path: text_edit_operation.path.clone(),
                    delta: text_edit_operation.inverted.clone(),
                    inverted: text_edit_operation.delta.clone(),
                },
            ),
        }
    }

    /// The same operation at `path`: the kind and every other value are kept.
    pub fn clone_with_new_path(&self, path: Position) -> (r: DocumentOperation)
        ensures
            r@ == self@.with_path(path@),
            r@.path() == path@,
            r@.same_payload(self@),
    {
        match self {
            DocumentOperation::Insert(insert) => DocumentOperation::Insert(
                InsertOperation { path, nodes: clone_nodes(&insert.nodes) },
            ),
            DocumentOperation::Update(update) => DocumentOperation::Update(
                UpdateOperation {
                    path,
                    attributes: update.attributes.clone(),
                    old_attributes: update.old_attributes.clone(),
                },
            ),
            DocumentOperation::Delete(delete) => DocumentOperation::Delete(
                DeleteOperation { path, nodes: clone_nodes(&delete.nodes) },
            ),
            DocumentOperation::TextEdit(text_edit) => DocumentOperation::TextEdit(
                TextEditOperation {
                    path,
                    delta: text_edit.delta.clone(),
                    inverted: text_edit.inverted.clone(),
                },
            ),
        }
    }

    /// The form of `b` to apply after `a`, where `a` and `b` were made
    /// against the same document. This is one half of the exchange: for the
    /// form of `a` to apply after `b`, call it again with the two swapped.
    ///
    /// An insert and a delete both hand the number of their nodes to
    /// [`Position::transform`] as it is, so a delete moves later siblings
    /// forward just as an insert does. An update or a text edit leaves the
    /// shape of the tree alone, and `b` comes back as a copy.
    ///
    /// The caller sees to it that the number of nodes and the moved index
    /// are ones that the machine's integers hold.
    pub fn transform(a: &DocumentOperation, b: &DocumentOperation) -> (r: DocumentOperation)
        requires
            DocumentOperationView::transform_fits(a@, b@),
        ensures
            r@ == DocumentOperationView::transform(a@, b@),
            r@.kind() == b@.kind(),
            r@.same_payload(b@),
            a@ is Update || a@ is TextEdit ==> r@ == b@,
    {
        match a {
            DocumentOperation::Insert(insert_op) => {
                let new_path = Position::transform(
                    a.path(),
                    b.path(),
                    insert_op.nodes.len() as i64,
                );
                b.clone_with_new_path(new_path)
            },
            DocumentOperation::Delete(delete_op) => {
                let new_path = Position::transform(
                    a.path(),
                    b.path(),
                    delete_op.nodes.len() as i64,
                );
                b.clone_with_new_path(new_path)
            },
            _ => b.clone(),
        }
    }
}

/// Inverting twice gives the operation back, whatever its kind and values.
pub proof fn lemma_invert_is_involution(op: DocumentOperationView)
    ensures
        op.invert().invert() == op,
{
}

/// What inverting does to each kind: an insert and the delete of the same
/// nodes at the same place undo each other, an update is undone by the update
/// with new and old attributes swapped, and a text edit by the one with its
/// two deltas swapped.
pub proof fn lemma_invert_swaps_roles(
    path: Seq<int>,
    nodes: Seq<NodeDataView>,
    attributes: AttributesView,
    old_attributes: AttributesView,
    delta: TextDeltaView,
    inverted: TextDeltaView,
)
    ensures
        (DocumentOperationView::Insert { path, nodes }).invert()
            == (DocumentOperationView::Delete { path, nodes }),
        (DocumentOperationView::Delete { path, nodes }).invert()
            == (DocumentOperationView::Insert { path, nodes }),
        (DocumentOperationView::Update { path, attributes, old_attributes }).invert()
            == (DocumentOperationView::Update {
            path,
            attributes: old_attributes,
            old_attributes: attributes,
        }),
        (DocumentOperationView::TextEdit { path, delta, inverted }).invert()
            == (DocumentOperationView::TextEdit { path, delta: inverted, inverted: delta }),
{
}

/// Moving an operation to a new path gives an operation at that path, of the
/// same kind and with every other value as it was.
pub proof fn lemma_with_path_keeps_payload(op: DocumentOperationView, new_path: Seq<int>)
    ensures
        op.with_path(new_path).path() == new_path,
        op.with_path(new_path).kind() == op.kind(),
        op.with_path(new_path).same_payload(op),
{
}

/// Whatever `a` is, transforming `b` against it gives an operation of the
/// kind of `b`.
pub proof fn lemma_transform_keeps_kind(a: DocumentOperationView, b: DocumentOperationView)
    ensures
        DocumentOperationView::transform(a, b).kind() == b.kind(),
{
}

/// Transforming `b` changes nothing but its path: the result carries the
/// values of `b`, and is `b` moved to the path of the result.
pub proof fn lemma_transform_changes_path_only(a: DocumentOperationView, b: DocumentOperationView)
    ensures
        DocumentOperationView::transform(a, b).same_payload(b),
        DocumentOperationView::transform(a, b) == b.with_path(
            DocumentOperationView::transform(a, b).path(),
        ),
{
}

/// An update or a text edit does not change the shape of the tree, so
/// transforming against one leaves `b` exactly as it is.
pub proof fn lemma_transform_against_content_edit(
    a: DocumentOperationView,
    b: DocumentOperationView,
)
    requires
        a is Update || a is TextEdit,
    ensures
        DocumentOperationView::transform(a, b) == b,
{
}

} // verus!
