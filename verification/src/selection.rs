//! Index-based selection from an ordered collection.
//!
//! Both kinds of collection maintenance — removing dismissed alerts and
//! pruning expired toasts — keep a subsequence of the collection, chosen by
//! the position of each entity rather than by its value (two entities may
//! be byte-identical and still only one of them dismissed). The shared
//! machinery lives here.

use vstd::prelude::*;

verus! {

/// The subsequence of `s` at the positions where `keep` holds, in order.
pub open spec fn spec_keep_indices<T>(s: Seq<T>, keep: spec_fn(int) -> bool) -> Seq<T>
    decreases s.len(),
{
    if s.len() == 0 {
        Seq::empty()
    } else {
        spec_keep_indices(s.drop_last(), keep) + if keep(s.len() - 1) {
            seq![s.last()]
        } else {
            Seq::empty()
        }
    }
}

/// Extending the considered prefix of `s` by one position appends the
/// entity at that position exactly when `keep` holds of it. This is the
/// step a loop over the collection takes.
pub proof fn lemma_keep_indices_step<T>(s: Seq<T>, keep: spec_fn(int) -> bool, j: int)
    requires
        0 <= j < s.len(),
    ensures
        spec_keep_indices(s.take(j + 1), keep) == spec_keep_indices(s.take(j), keep) + (if keep(
            j,
        ) {
            seq![s[j]]
        } else {
            Seq::<T>::empty()
        }),
{
    assert(s.take(j + 1).len() == j + 1);
    assert(s.take(j + 1).drop_last() =~= s.take(j));
    assert(s.take(j + 1).last() == s[j]);
}

/// Keeping every position changes nothing.
pub proof fn lemma_keep_all<T>(s: Seq<T>, keep: spec_fn(int) -> bool)
    requires
        forall|j: int| 0 <= j < s.len() ==> #[trigger] keep(j),
    ensures
        spec_keep_indices(s, keep) == s,
    decreases s.len(),
{
    if s.len() == 0 {
        assert(spec_keep_indices(s, keep) =~= s);
    } else {
        lemma_keep_all(s.drop_last(), keep);
        assert(spec_keep_indices(s, keep) =~= s.drop_last() + seq![s.last()]);
        assert(s.drop_last() + seq![s.last()] =~= s);
    }
}

/// Keeping every position but one removes exactly the entity at that
/// position; every other entity stays, in its old order.
pub proof fn lemma_keep_all_but_one<T>(s: Seq<T>, keep: spec_fn(int) -> bool, j: int)
    requires
        0 <= j < s.len(),
        forall|k: int| 0 <= k < s.len() ==> (#[trigger] keep(k) <==> k != j),
    ensures
        spec_keep_indices(s, keep) == s.remove(j),
    decreases s.len(),
{
    if j == s.len() - 1 {
        lemma_keep_all(s.drop_last(), keep);
        assert(spec_keep_indices(s, keep) =~= s.drop_last());
        assert(s.remove(j) =~= s.drop_last());
    } else {
        lemma_keep_all_but_one(s.drop_last(), keep, j);
        assert(spec_keep_indices(s, keep) =~= s.drop_last().remove(j) + seq![s.last()]);
        assert(s.drop_last().remove(j) + seq![s.last()] =~= s.remove(j));
    }
}

/// A property that holds of the entity at every kept position holds of
/// every entity of the kept subsequence.
pub proof fn lemma_keep_indices_all<T>(
    s: Seq<T>,
    keep: spec_fn(int) -> bool,
    prop: spec_fn(T) -> bool,
)
    requires
        forall|j: int| 0 <= j < s.len() && #[trigger] keep(j) ==> #[trigger] prop(s[j]),
    ensures
        forall|i: int|
            0 <= i < spec_keep_indices(s, keep).len() ==> #[trigger] prop(
                spec_keep_indices(s, keep)[i],
            ),
    decreases s.len(),
{
    if s.len() > 0 {
        lemma_keep_indices_all(s.drop_last(), keep, prop);
        let kept = spec_keep_indices(s, keep);
        let sub = spec_keep_indices(s.drop_last(), keep);
        assert forall|i: int| 0 <= i < kept.len() implies #[trigger] prop(kept[i]) by {
            if i < sub.len() {
                assert(kept[i] == sub[i]);
                assert(prop(sub[i]));
            } else {
                assert(keep(s.len() - 1));
                assert(kept[i] == s.last());
                assert(prop(s[s.len() - 1]));
            }
        }
    }
}

} // verus!
