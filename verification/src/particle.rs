//! The choice of a particle by weight: the running sums of the weights are
//! compared with a uniform draw, and the first particle whose running sum
//! lies above the draw is taken.

use vstd::prelude::*;
use crate::order::{comparable, lt};

verus! {

/// Returns the index of the particle chosen by `draw`: the first index whose
/// running weight sum in `cumulative` lies above `draw`, or the last index
/// when none does.
pub fn weighted_index<T: PartialOrd>(cumulative: &Vec<T>, draw: &T) -> (r: usize)
    requires
        cumulative@.len() > 0,
    ensures
        r < cumulative@.len(),
        comparable::<T>() ==> forall|j: int| 0 <= j < r ==> !lt(*draw, #[trigger] cumulative@[j]),
        comparable::<T>() ==> (r + 1 < cumulative@.len() ==> lt(*draw, cumulative@[r as int])),
{
    let mut i: usize = 0;
    while i < cumulative.len()
        invariant
            i <= cumulative@.len(),
            comparable::<T>() ==> forall|j: int| 0 <= j < i ==> !lt(*draw, #[trigger] cumulative@[j]),
        decreases cumulative.len() - i,
    {
        if *draw < cumulative[i] {
            return i;
        }
        i = i + 1;
    }
    cumulative.len() - 1
}

} // verus!
