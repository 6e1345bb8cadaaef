use lib_ot::attributes::NodeAttributes;
use lib_ot::document_operation::{
    DeleteOperation, DocumentOperation, InsertOperation, TextEditOperation, UpdateOperation,
};
use lib_ot::node::NodeData;
use lib_ot::position::Position;
use lib_ot::text_delta::{TextDelta, TextOperation};

fn attrs(entries: &[(&str, &str)]) -> NodeAttributes {
    NodeAttributes(entries.iter().map(|(k, v)| (k.to_string(), v.to_string())).collect())
}

fn node(node_type: &str) -> NodeData {
    NodeData { node_type: node_type.to_string(), attributes: attrs(&[]), delta: None }
}

fn text_node(text: &str) -> NodeData {
    NodeData {
        node_type: "text".to_string(),
        attributes: attrs(&[("align", "left")]),
        delta: Some(TextDelta(vec![TextOperation::Insert(text.to_string())])),
    }
}

fn insert(path: Vec<usize>, nodes: Vec<NodeData>) -> DocumentOperation {
    DocumentOperation::Insert(InsertOperation { path: Position(path), nodes })
}

fn delete(path: Vec<usize>, nodes: Vec<NodeData>) -> DocumentOperation {
    DocumentOperation::Delete(DeleteOperation { path: Position(path), nodes })
}

fn update(path: Vec<usize>, new: NodeAttributes, old: NodeAttributes) -> DocumentOperation {
    DocumentOperation::Update(UpdateOperation {
        path: Position(path),
        attributes: new,
        old_attributes: old,
    })
}

fn text_edit(path: Vec<usize>, delta: TextDelta, inverted: TextDelta) -> DocumentOperation {
    DocumentOperation::TextEdit(TextEditOperation { path: Position(path), delta, inverted })
}

fn typed_hello() -> TextDelta {
    TextDelta(vec![TextOperation::Retain(3), TextOperation::Insert("hello".to_string())])
}

fn erased_hello() -> TextDelta {
    TextDelta(vec![TextOperation::Retain(3), TextOperation::Delete(5)])
}

fn one_of_each() -> Vec<DocumentOperation> {
    vec![
        insert(vec![0, 2], vec![node("paragraph"), text_node("abc")]),
        update(vec![1], attrs(&[("bold", "true")]), attrs(&[("bold", "false")])),
        delete(vec![3], vec![text_node("xyz")]),
        text_edit(vec![0, 0], typed_hello(), erased_hello()),
    ]
}

#[test]
fn path_is_the_path_of_each_kind() {
    assert_eq!(insert(vec![0, 2], vec![node("a")]).path(), &Position(vec![0, 2]));
    assert_eq!(update(vec![1], attrs(&[]), attrs(&[])).path(), &Position(vec![1]));
    assert_eq!(delete(vec![3], vec![node("a")]).path(), &Position(vec![3]));
    assert_eq!(text_edit(vec![], typed_hello(), erased_hello()).path(), &Position(vec![]));
}

#[test]
fn invert_insert_gives_delete() {
    let op = insert(vec![0, 2], vec![node("paragraph"), text_node("abc")]);
    assert_eq!(op.invert(), delete(vec![0, 2], vec![node("paragraph"), text_node("abc")]));
}

#[test]
fn invert_delete_gives_insert() {
    let op = delete(vec![3], vec![text_node("xyz")]);
    assert_eq!(op.invert(), insert(vec![3], vec![text_node("xyz")]));
}

#[test]
fn invert_update_swaps_attributes() {
    let op = update(vec![1], attrs(&[("bold", "true")]), attrs(&[("bold", "false")]));
    assert_eq!(
        op.invert(),
        update(vec![1], attrs(&[("bold", "false")]), attrs(&[("bold", "true")]))
    );
}

#[test]
fn invert_text_edit_swaps_deltas() {
    let op = text_edit(vec![0, 0], typed_hello(), erased_hello());
    assert_eq!(op.invert(), text_edit(vec![0, 0], erased_hello(), typed_hello()));
}

#[test]
fn invert_twice_gives_the_operation_back() {
    for op in one_of_each() {
        assert_eq!(op.invert().invert(), op);
    }
}

#[test]
fn invert_leaves_its_input_alone() {
    let op = insert(vec![4], vec![node("a")]);
    let _ = op.invert();
    assert_eq!(op, insert(vec![4], vec![node("a")]));
}

#[test]
fn clone_gives_an_equal_operation() {
    for op in one_of_each() {
        assert_eq!(op.clone(), op);
    }
}

#[test]
fn clone_with_new_path_replaces_only_the_path() {
    let q = vec![7, 1, 4];
    assert_eq!(
        insert(vec![0, 2], vec![node("p"), text_node("abc")]).clone_with_new_path(Position(q.clone())),
        insert(q.clone(), vec![node("p"), text_node("abc")])
    );
    assert_eq!(
        update(vec![1], attrs(&[("a", "1")]), attrs(&[("a", "0")]))
            .clone_with_new_path(Position(q.clone())),
        update(q.clone(), attrs(&[("a", "1")]), attrs(&[("a", "0")]))
    );
    assert_eq!(
        delete(vec![3], vec![text_node("xyz")]).clone_with_new_path(Position(q.clone())),
        delete(q.clone(), vec![text_node("xyz")])
    );
    assert_eq!(
        text_edit(vec![0, 0], typed_hello(), erased_hello()).clone_with_new_path(Position(q.clone())),
        text_edit(q.clone(), typed_hello(), erased_hello())
    );
}

#[test]
fn clone_with_new_path_has_the_new_path() {
    for op in one_of_each() {
        let moved = op.clone_with_new_path(Position(vec![9, 9]));
        assert_eq!(moved.path(), &Position(vec![9, 9]));
        assert_eq!(moved.clone_with_new_path(op.path().clone()), op);
    }
}

#[test]
fn transform_after_insert_moves_a_later_sibling() {
    let a = insert(vec![0], vec![node("x")]);
    let b = update(vec![1], attrs(&[("k", "new")]), attrs(&[("k", "old")]));
    assert_eq!(
        DocumentOperation::transform(&a, &b),
        update(vec![2], attrs(&[("k", "new")]), attrs(&[("k", "old")]))
    );
}

#[test]
fn transform_after_delete_hands_on_the_node_count_unsigned() {
    let a = delete(vec![0], vec![node("x")]);
    let b = update(vec![1], attrs(&[("k", "new")]), attrs(&[("k", "old")]));
    let r = DocumentOperation::transform(&a, &b);
    assert_eq!(r.path(), &Position::transform(&Position(vec![0]), &Position(vec![1]), 1));
    assert_eq!(r, update(vec![2], attrs(&[("k", "new")]), attrs(&[("k", "old")])));
}

#[test]
fn transform_after_update_leaves_an_insert_alone() {
    let a = update(vec![3], attrs(&[("k", "new")]), attrs(&[("k", "old")]));
    let b = insert(vec![3], vec![node("y")]);
    assert_eq!(DocumentOperation::transform(&a, &b), insert(vec![3], vec![node("y")]));
}

#[test]
fn transform_after_text_edit_leaves_every_kind_alone() {
    let a = text_edit(vec![0], typed_hello(), erased_hello());
    for b in one_of_each() {
        assert_eq!(DocumentOperation::transform(&a, &b), b);
    }
    let a = update(vec![0], attrs(&[("k", "new")]), attrs(&[("k", "old")]));
    for b in one_of_each() {
        assert_eq!(DocumentOperation::transform(&a, &b), b);
    }
}

#[test]
fn transform_moves_by_the_number_of_nodes() {
    let a = insert(vec![1], vec![node("x"), node("y"), node("z")]);
    let b = delete(vec![4], vec![text_node("gone")]);
    assert_eq!(DocumentOperation::transform(&a, &b), delete(vec![7], vec![text_node("gone")]));
    let a = delete(vec![1], vec![node("x"), node("y")]);
    let b = text_edit(vec![1, 0], typed_hello(), erased_hello());
    assert_eq!(
        DocumentOperation::transform(&a, &b),
        text_edit(vec![3, 0], typed_hello(), erased_hello())
    );
}

#[test]
fn transform_with_no_nodes_moves_nothing() {
    let a = insert(vec![0], vec![]);
    for b in one_of_each() {
        assert_eq!(DocumentOperation::transform(&a, &b), b);
    }
}

#[test]
fn transform_leaves_an_earlier_sibling_alone() {
    let a = insert(vec![2], vec![node("x")]);
    let b = insert(vec![1], vec![node("y")]);
    assert_eq!(DocumentOperation::transform(&a, &b), insert(vec![1], vec![node("y")]));
}

#[test]
fn transform_keeps_kind_and_payload() {
    let structural = vec![
        insert(vec![0], vec![node("x"), node("y")]),
        delete(vec![0, 0], vec![node("x")]),
    ];
    for a in &structural {
        for b in one_of_each() {
            let r = DocumentOperation::transform(a, &b);
            assert_eq!(std::mem::discriminant(&r), std::mem::discriminant(&b));
            assert_eq!(r.clone_with_new_path(b.path().clone()), b);
        }
    }
}

#[test]
fn transform_leaves_its_inputs_alone() {
    let a = insert(vec![0], vec![node("x")]);
    let b = update(vec![1], attrs(&[("k", "new")]), attrs(&[("k", "old")]));
    let _ = DocumentOperation::transform(&a, &b);
    assert_eq!(a, insert(vec![0], vec![node("x")]));
    assert_eq!(b, update(vec![1], attrs(&[("k", "new")]), attrs(&[("k", "old")])));
}

#[test]
fn transform_both_ways_gives_both_halves() {
    let a = insert(vec![0], vec![node("x")]);
    let b = insert(vec![2], vec![node("y"), node("z")]);
    assert_eq!(
        DocumentOperation::transform(&a, &b),
        insert(vec![3], vec![node("y"), node("z")])
    );
    assert_eq!(DocumentOperation::transform(&b, &a), insert(vec![0], vec![node("x")]));
}

#[test]
fn inverting_and_transforming_in_turn() {
    let a = insert(vec![0], vec![node("x")]);
    let b = update(vec![1], attrs(&[("k", "new")]), attrs(&[("k", "old")]));
    let b_after_a = DocumentOperation::transform(&a, &b);
    let undo = b_after_a.invert();
    assert_eq!(undo, update(vec![2], attrs(&[("k", "old")]), attrs(&[("k", "new")])));
    assert_eq!(undo.invert(), b_after_a);
    let a_after_undo = DocumentOperation::transform(&undo, &a);
    assert_eq!(a_after_undo, a);
    assert_eq!(a_after_undo.invert(), delete(vec![0], vec![node("x")]));
    let composed = DocumentOperation::transform(&a, &DocumentOperation::transform(&b, &a).invert())
        .invert();
    assert_eq!(composed, insert(vec![1], vec![node("x")]));
    assert_eq!(composed.invert().invert(), composed);
}
