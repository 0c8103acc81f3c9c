//! Counting.

use vstd::prelude::*;

verus! {

/// How many of `flags` are set.
pub open spec fn count_set(flags: Seq<bool>) -> nat
    decreases flags.len(),
{
    if flags.len() == 0 {
        0
    } else {
        count_set(flags.drop_last()) + if flags.last() {
            1nat
        } else {
            0nat
        }
    }
}

/// Counts the flags that are set.
pub fn count_flags(flags: &Vec<bool>) -> (set: u64)
    ensures
        set == count_set(flags@),
        set <= flags.len(),
{
    let mut set: u64 = 0;
    let mut i: usize = 0;
    while i < flags.len()
        invariant
            i <= flags.len(),
            set <= i,
            set == count_set(flags@.take(i as int)),
        decreases flags.len() - i,
    {
        proof {
            assert(flags@.take(i + 1).drop_last() =~= flags@.take(i as int));
        }
        if flags[i] {
            set = set + 1;
        }
        i = i + 1;
    }
    proof {
        assert(flags@.take(flags.len() as int) =~= flags@);
    }
    set
}

} // verus!
