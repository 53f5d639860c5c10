//! Rows of the grid that a body covers, and the test for two bodies meeting.

use vstd::prelude::*;

verus! {

/// A run of consecutive grid rows, from `top` down to `bottom`, both included.
///
/// A hitbox with `top > bottom` covers no row at all.
#[derive(Clone, Copy, Debug, PartialEq, Eq, Structural)]
pub struct Hitbox {
    pub top: i32,
    pub bottom: i32,
}

impl View for Hitbox {
    type V = Set<int>;

    /// The rows covered, as a set.
    open spec fn view(&self) -> Set<int> {
        Set::new(|row: int| self.top <= row <= self.bottom)
    }
}

impl Hitbox {
    /// Whether the two runs share a row, by their bounds alone: the lower of
    /// the two tops is not below the higher of the two bottoms.
    pub open spec fn meets(self, other: Hitbox) -> bool {
        vstd::math::max(self.top as int, other.top as int) <= vstd::math::min(
            self.bottom as int,
            other.bottom as int,
        )
    }

    /// Two hitboxes overlap exactly when their sets of rows are not disjoint.
    pub fn overlaps(&self, other: &Hitbox) -> (hit: bool)
        ensures
            hit == !self@.disjoint(other@),
            hit == self.meets(*other),
    {
        let low: i32 = if self.top >= other.top {
            self.top
        } else {
            other.top
        };
        let high: i32 = if self.bottom <= other.bottom {
            self.bottom
        } else {
            other.bottom
        };
        proof {
            lemma_meets_is_shared_row(*self, *other);
        }
        low <= high
    }
}

/// The bound test and the set test agree: two runs of rows have a row in
/// common exactly when `meets` holds of them.
pub proof fn lemma_meets_is_shared_row(a: Hitbox, b: Hitbox)
    ensures
        a.meets(b) == !a@.disjoint(b@),
{
    if a.meets(b) {
        let row = vstd::math::max(a.top as int, b.top as int);
        assert(a@.contains(row) && b@.contains(row));
    }
}

} // verus!
