//! Operations on a tree-structured document and the pairwise transform that
//! lets two replicas apply concurrent operations in either order.

pub mod attributes;
pub mod document_operation;
pub mod node;
pub mod position;
pub mod text_delta;
