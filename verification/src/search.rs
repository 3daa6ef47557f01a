//! The first position in a sequence of flags at which a flag is set.

use vstd::prelude::*;

verus! {

/// The least index at or after `from` at which `flags` holds `true`.
pub open spec fn first_true_from(flags: Seq<bool>, from: int) -> Option<int>
    decreases flags.len() - from,
{
    if from < 0 || from >= flags.len() {
        None
    } else if flags[from] {
        Some(from)
    } else {
        first_true_from(flags, from + 1)
    }
}

/// The least index at which `flags` holds `true`.
pub open spec fn first_true(flags: Seq<bool>) -> Option<int> {
    first_true_from(flags, 0)
}

/// `first_true_from` finds a set flag with none set between `from` and it,
/// and finds none only where none is set from `from` on.
pub proof fn lemma_first_true_from(flags: Seq<bool>, from: int)
    requires
        0 <= from,
    ensures
        match first_true_from(flags, from) {
            Some(i) => from <= i < flags.len() && flags[i] && forall|j: int|
                from <= j < i ==> !flags[j],
            None => forall|j: int| from <= j < flags.len() ==> !flags[j],
        },
    decreases flags.len() - from,
{
    if from < flags.len() && !flags[from] {
        lemma_first_true_from(flags, from + 1);
    }
}

} // verus!
