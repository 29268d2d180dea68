//! First-hit search over an ordered sequence of flags.
//!
//! Both the resolver (first candidate location present on disk) and the
//! readiness prober (first port that accepted a connection) walk an ordered
//! list and commit to the first positive entry; this module holds that
//! search once, with its characterising lemmas.

use vstd::prelude::*;

verus! {

/// Position of the first `true` in `flags`, if any.
pub open spec fn first_true_index(flags: Seq<bool>) -> Option<int>
    decreases flags.len(),
{
    if flags.len() == 0 {
        None
    } else if flags[0] {
        Some(0)
    } else {
        match first_true_index(flags.drop_first()) {
            Some(i) => Some(i + 1),
            None => None,
        }
    }
}

/// A found index is in range, holds `true`, and nothing before it does.
pub proof fn lemma_first_true_index_found(flags: Seq<bool>, i: int)
    requires
        first_true_index(flags) == Some(i),
    ensures
        0 <= i < flags.len(),
        flags[i],
        forall|j: int| 0 <= j < i ==> !flags[j],
    decreases flags.len(),
{
    if flags.len() == 0 {
    } else if flags[0] {
    } else {
        lemma_first_true_index_found(flags.drop_first(), i - 1);
        assert forall|j: int| 0 <= j < i implies !flags[j] by {
            if j >= 1 {
                assert(!flags.drop_first()[j - 1]);
            }
        }
        assert(flags.drop_first()[i - 1] == flags[i]);
    }
}

/// An index that holds `true` while everything before it is `false` is
/// exactly the index the search finds.
pub proof fn lemma_first_true_index_from_witness(flags: Seq<bool>, i: int)
    requires
        0 <= i < flags.len(),
        flags[i],
        forall|j: int| 0 <= j < i ==> !flags[j],
    ensures
        first_true_index(flags) == Some(i),
    decreases flags.len(),
{
    if flags[0] {
        assert(i == 0);
    } else {
        assert(i >= 1);
        assert(flags.drop_first()[i - 1] == flags[i]);
        assert forall|j: int| 0 <= j < i - 1 implies !flags.drop_first()[j] by {
            assert(flags.drop_first()[j] == flags[j + 1]);
        }
        lemma_first_true_index_from_witness(flags.drop_first(), i - 1);
    }
}

/// When every flag is `false`, the search finds nothing.
pub proof fn lemma_first_true_index_all_false(flags: Seq<bool>)
    requires
        forall|j: int| 0 <= j < flags.len() ==> !flags[j],
    ensures
        first_true_index(flags) is None,
    decreases flags.len(),
{
    if flags.len() != 0 {
        assert forall|j: int| 0 <= j < flags.len() - 1 implies !flags.drop_first()[j] by {
            assert(flags.drop_first()[j] == flags[j + 1]);
        }
        lemma_first_true_index_all_false(flags.drop_first());
    }
}

/// When the search finds nothing, every flag is `false`.
pub proof fn lemma_first_true_index_none_all_false(flags: Seq<bool>)
    requires
        first_true_index(flags) is None,
    ensures
        forall|j: int| 0 <= j < flags.len() ==> !flags[j],
    decreases flags.len(),
{
    if flags.len() != 0 {
        lemma_first_true_index_none_all_false(flags.drop_first());
        assert forall|j: int| 0 <= j < flags.len() implies !flags[j] by {
            if j >= 1 {
                assert(!flags.drop_first()[j - 1]);
            }
        }
    }
}

/// When exactly one flag is `true`, the search finds exactly that one.
pub proof fn lemma_first_true_index_unique_witness(flags: Seq<bool>, k: int)
    requires
        0 <= k < flags.len(),
        flags[k],
        forall|j: int| 0 <= j < flags.len() && j != k ==> !flags[j],
    ensures
        first_true_index(flags) == Some(k),
{
    lemma_first_true_index_from_witness(flags, k);
}

} // verus!
