//! Node metadata, carried by update operations.

use vstd::prelude::*;

verus! {

/// What a set of attributes holds: its entries, key then value, in order.
pub type AttributesView = Seq<(Seq<char>, Seq<char>)>;

/// The metadata of a node: key-value entries, kept in the order given.
#[derive(Debug, PartialEq, Eq)]
pub struct NodeAttributes(pub Vec<(String, String)>);

impl View for NodeAttributes {
    type V = AttributesView;

    open spec fn view(&self) -> AttributesView {
        self.0@.map_values(|entry: (String, String)| (entry.0@, entry.1@))
    }
}

impl Clone for NodeAttributes {
    fn clone(&self) -> (r: Self)
        ensures
            r@ == self@,
    {
        let mut entries: Vec<(String, String)> = Vec::new();
        let mut i: usize = 0;
        while i < self.0.len()
            invariant
                i <= self.0.len(),
                entries@.len() == i,
                forall|j: int|
                    0 <= j < i ==> {
                        &&& entries@[j].0@ == self.0@[j].0@
                        &&& entries@[j].1@ == self.0@[j].1@
                    },
            decreases self.0.len() - i,
        {
            let entry = &self.0[i];
            entries.push((entry.0.clone(), entry.1.clone()));
            i += 1;
        }
        NodeAttributes(entries)
    }
}

} // verus!
