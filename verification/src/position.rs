//! Tree paths and the shift that a concurrent sibling edit causes.

use vstd::prelude::*;

verus! {

/// A location in the document tree: the sibling index taken at each level,
/// from the root down to the node.
#[derive(Debug, PartialEq, Eq, PartialOrd, Ord)]
pub struct Position(pub Vec<usize>);

impl View for Position {
    type V = Seq<int>;

    open spec fn view(&self) -> Seq<int> {
        self.0@.map_values(|index: usize| index as int)
    }
}

/// Whether an edit of the siblings at `reference` moves the node at `target`:
/// the two paths agree above the last level of `reference`, and at that level
/// `target` passes through a sibling at or after the edited one.
pub open spec fn shift_applies(reference: Seq<int>, target: Seq<int>) -> bool {
    &&& 0 < reference.len() <= target.len()
    &&& forall|i: int| 0 <= i < reference.len() - 1 ==> reference[i] == target[i]
    &&& reference.last() <= target[reference.len() - 1]
}

/// The path of `target` after `amount` siblings were added at `reference`
/// (a negative `amount` takes siblings away): where the edit moves the node,
/// its index at the edited level changes by `amount`; otherwise the path stays.
pub open spec fn shift_path(reference: Seq<int>, target: Seq<int>, amount: int) -> Seq<int> {
    if shift_applies(reference, target) {
        let level = reference.len() - 1;
        target.update(level, target[level] + amount)
    } else {
        target
    }
}

/// Whether every index of the shifted path is one that a `usize` can hold.
pub open spec fn shift_fits(reference: Seq<int>, target: Seq<int>, amount: int) -> bool {
    shift_applies(reference, target) ==> 0 <= target[reference.len() - 1] + amount <= usize::MAX
}

impl Clone for Position {
    fn clone(&self) -> (r: Self)
        ensures
            r.0@ == self.0@,
            r@ == self@,
    {
        Position(self.0.clone())
    }
}

impl Position {
    /// Where the node at `target_path` is found once `shift_amount` siblings
    /// have been added at `reference_path`. A node at or after that place
    /// among the same siblings moves by `shift_amount`, and so does every
    /// node below such a node; any other path comes back as it is.
    ///
    /// The caller sees to it that the moved index is one that a `usize` holds.
    pub fn transform(
        reference_path: &Position,
        target_path: &Position,
        shift_amount: i64,
    ) -> (r: Position)
        requires
            shift_fits(reference_path@, target_path@, shift_amount as int),
        ensures
            r@ == shift_path(reference_path@, target_path@, shift_amount as int),
    {
        let depth = reference_path.0.len();
        if depth == 0 || depth > target_path.0.len() {
            return target_path.clone();
        }
        let level: usize = depth - 1;
        let mut i: usize = 0;
        while i < level
            invariant
                level == reference_path.0.len() - 1,
                level < target_path.0.len(),
                i <= level,
                forall|j: int| 0 <= j < i ==> reference_path@[j] == target_path@[j],
            decreases level - i,
        {
            if reference_path.0[i] != target_path.0[i] {
                assert(reference_path@[i as int] != target_path@[i as int]);
                return target_path.clone();
            }
            i += 1;
        }
        if reference_path.0[level] > target_path.0[level] {
            return target_path.clone();
        }
        let shifted: i128 = target_path.0[level] as i128 + shift_amount as i128;
        let mut indices = target_path.0.clone();
        indices.set(level, shifted as usize);
        Position(indices)
    }
}

} // verus!
