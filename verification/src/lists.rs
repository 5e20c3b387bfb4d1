//! Facts about sequences used by the list-keeping interface classes: the
//! elements a predicate keeps, and the first element a predicate picks.
use vstd::prelude::*;

verus! {

/// The elements of `s` that `keep` accepts, in their order.
pub open spec fn retained<T>(s: Seq<T>, keep: spec_fn(T) -> bool) -> Seq<T>
    decreases s.len(),
{
    if s.len() == 0 {
        Seq::empty()
    } else {
        let before = retained(s.drop_last(), keep);
        if keep(s.last()) {
            before.push(s.last())
        } else {
            before
        }
    }
}

/// Every element left by `retained` is accepted, and was an element of `s`.
pub proof fn lemma_retained_accepted<T>(s: Seq<T>, keep: spec_fn(T) -> bool)
    ensures
        retained(s, keep).len() <= s.len(),
        forall|i: int| 0 <= i < retained(s, keep).len() ==> keep(#[trigger] retained(s, keep)[i]),
        forall|i: int| 0 <= i < retained(s, keep).len() ==> s.contains(#[trigger] retained(s, keep)[i]),
    decreases s.len(),
{
    if s.len() > 0 {
        lemma_retained_accepted(s.drop_last(), keep);
        let before = retained(s.drop_last(), keep);
        assert forall|i: int| 0 <= i < retained(s, keep).len() implies s.contains(#[trigger] retained(s, keep)[i]) by {
            if i < before.len() {
                let x = before[i];
                assert(s.drop_last().contains(x));
                let k = choose|k: int| 0 <= k < s.drop_last().len() && s.drop_last()[k] == x;
                assert(s[k] == x);
            } else {
                assert(s[s.len() - 1] == s.last());
            }
        }
    }
}

/// Where `keep` accepts every element, `retained` leaves `s` as it is.
pub proof fn lemma_retained_all<T>(s: Seq<T>, keep: spec_fn(T) -> bool)
    requires
        forall|i: int| 0 <= i < s.len() ==> keep(#[trigger] s[i]),
    ensures
        retained(s, keep) == s,
    decreases s.len(),
{
    if s.len() > 0 {
        lemma_retained_all(s.drop_last(), keep);
        assert(keep(s[s.len() - 1]));
        assert(s.drop_last().push(s.last()) =~= s);
    }
}

/// Taking one more element of `s` adds it to what `retained` leaves when
/// `keep` accepts it.
pub proof fn lemma_retained_step<T>(s: Seq<T>, keep: spec_fn(T) -> bool, i: int)
    requires
        0 <= i < s.len(),
    ensures
        retained(s.take(i + 1), keep) == (if keep(s[i]) {
            retained(s.take(i), keep).push(s[i])
        } else {
            retained(s.take(i), keep)
        }),
{
    assert(s.take(i + 1).drop_last() =~= s.take(i));
    assert(s.take(i + 1).last() == s[i]);
}

/// The index of the first element of `s` that `pick` accepts.
pub open spec fn first_index<T>(s: Seq<T>, pick: spec_fn(T) -> bool) -> Option<int>
    decreases s.len(),
{
    if s.len() == 0 {
        None
    } else if pick(s[0]) {
        Some(0)
    } else {
        match first_index(s.drop_first(), pick) {
            Some(i) => Some(i + 1),
            None => None,
        }
    }
}

/// The first accepted element is at `i` when it is accepted and no
/// element before it is.
pub proof fn lemma_first_index_at<T>(s: Seq<T>, pick: spec_fn(T) -> bool, i: int)
    requires
        0 <= i < s.len(),
        pick(s[i]),
        forall|j: int| 0 <= j < i ==> !pick(#[trigger] s[j]),
    ensures
        first_index(s, pick) == Some(i),
    decreases i,
{
    if i > 0 {
        assert(!pick(s[0]));
        assert forall|j: int| 0 <= j < i - 1 implies !pick(#[trigger] s.drop_first()[j]) by {
            assert(s.drop_first()[j] == s[j + 1]);
        }
        lemma_first_index_at(s.drop_first(), pick, i - 1);
    }
}

/// No index is picked when no element is accepted.
pub proof fn lemma_first_index_none<T>(s: Seq<T>, pick: spec_fn(T) -> bool)
    requires
        forall|j: int| 0 <= j < s.len() ==> !pick(#[trigger] s[j]),
    ensures
        first_index(s, pick) is None,
    decreases s.len(),
{
    if s.len() > 0 {
        assert(!pick(s[0]));
        assert forall|j: int| 0 <= j < s.len() - 1 implies !pick(#[trigger] s.drop_first()[j]) by {
            assert(s.drop_first()[j] == s[j + 1]);
        }
        lemma_first_index_none(s.drop_first(), pick);
    }
}

/// What `first_index` returns is accepted, in range, and first.
pub proof fn lemma_first_index_props<T>(s: Seq<T>, pick: spec_fn(T) -> bool)
    ensures
        first_index(s, pick) matches Some(i) ==> 0 <= i < s.len() && pick(s[i]) && forall|j: int|
            0 <= j < i ==> !pick(#[trigger] s[j]),
        first_index(s, pick) is None ==> forall|j: int| 0 <= j < s.len() ==> !pick(#[trigger] s[j]),
    decreases s.len(),
{
    if s.len() > 0 {
        lemma_first_index_props(s.drop_first(), pick);
        if !pick(s[0]) {
            match first_index(s.drop_first(), pick) {
                Some(k) => {
                    assert(s.drop_first()[k] == s[k + 1]);
                    assert forall|j: int| 0 <= j < k + 1 implies !pick(#[trigger] s[j]) by {
                        if j > 0 {
                            assert(s.drop_first()[j - 1] == s[j]);
                        }
                    }
                },
                None => {
                    assert forall|j: int| 0 <= j < s.len() implies !pick(#[trigger] s[j]) by {
                        if j > 0 {
                            assert(s.drop_first()[j - 1] == s[j]);
                        }
                    }
                },
            }
        }
    }
}

} // verus!
