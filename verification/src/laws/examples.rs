//! Laws of the tasks to start with.

use vstd::prelude::*;
use crate::examples::{starters, PARSE_SOLUTION, SPLIT_SOLUTION, SUM_SOLUTION};
use crate::task::Tier;

verus! {

/// The solution of every starter begins with the signature that the task asks for, and the
/// starters are of the first three tiers, in their order.
pub proof fn solutions_have_the_signature(i: int)
    requires
        0 <= i < starters().len(),
    ensures
        starters().len() == 3,
        starters()[i].canonical_solution is Some,
        starters()[i].signature.is_prefix_of(starters()[i].canonical_solution->0),
        starters()[i].tier == if i == 0 {
            Tier::AlgorithmicCore
        } else if i == 1 {
            Tier::IdiomaticSystems
        } else {
            Tier::SafetyCritical
        },
{
    reveal_strlit("pub fn sum_vec(nums: &[i32]) -> i32 { nums.iter().sum() }");
    reveal_strlit("pub fn sum_vec(nums: &[i32]) -> i32");
    reveal_strlit("pub fn parse_or_zero(s: &str) -> i32 { s.parse().unwrap_or(0) }");
    reveal_strlit("pub fn parse_or_zero(s: &str) -> i32");
    reveal_strlit("pub fn my_split_at_mut<T>(slice: &mut [T], mid: usize) -> (&mut [T], &mut [T]) {
    assert!(mid <= slice.len());
    let ptr = slice.as_mut_ptr();
    unsafe {
        (
            std::slice::from_raw_parts_mut(ptr, mid),
            std::slice::from_raw_parts_mut(ptr.add(mid), slice.len() - mid),
        )
    }
}");
    reveal_strlit("pub fn my_split_at_mut<T>(slice: &mut [T], mid: usize) -> (&mut [T], &mut [T])");
    let s = starters();
    assert(s[0].signature =~= SUM_SOLUTION@.subrange(0, s[0].signature.len() as int));
    assert(s[1].signature =~= PARSE_SOLUTION@.subrange(0, s[1].signature.len() as int));
    assert(s[2].signature =~= SPLIT_SOLUTION@.subrange(0, s[2].signature.len() as int));
}

} // verus!
