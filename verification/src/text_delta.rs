//! Text edits, carried by text-edit operations and by nodes that hold text.

use vstd::prelude::*;

verus! {

/// One step of a text edit, read against a cursor that starts at the
/// beginning of the text.
#[derive(Debug, PartialEq, Eq)]
pub enum TextOperation {
    /// Keep this many characters and move past them.
    Retain(usize),
    /// Put this text in at the cursor.
    Insert(String),
    /// Drop this many characters after the cursor.
    Delete(usize),
}

/// What a [`TextOperation`] holds.
pub enum TextOperationView {
    Retain(nat),
    Insert(Seq<char>),
    Delete(nat),
}

impl View for TextOperation {
    type V = TextOperationView;

    open spec fn view(&self) -> TextOperationView {
        match *self {
            TextOperation::Retain(count) => TextOperationView::Retain(count as nat),
            TextOperation::Insert(text) => TextOperationView::Insert(text@),
            TextOperation::Delete(count) => TextOperationView::Delete(count as nat),
        }
    }
}

impl Clone for TextOperation {
    fn clone(&self) -> (r: Self)
        ensures
            r@ == self@,
    {
        match self {
            TextOperation::Retain(count) => TextOperation::Retain(*count),
            TextOperation::Insert(text) => TextOperation::Insert(text.clone()),
            TextOperation::Delete(count) => TextOperation::Delete(*count),
        }
    }
}

/// What a text edit holds: its steps, in order.
pub type TextDeltaView = Seq<TextOperationView>;

/// An edit of a node's text: steps applied from left to right.
#[derive(Debug, PartialEq, Eq)]
pub struct TextDelta(pub Vec<TextOperation>);

impl View for TextDelta {
    type V = TextDeltaView;

    open spec fn view(&self) -> TextDeltaView {
        self.0@.map_values(|step: TextOperation| step@)
    }
}

impl Clone for TextDelta {
    fn clone(&self) -> (r: Self)
        ensures
            r@ == self@,
    {
        TextDelta(self.0.clone())
    }
}

} // verus!
