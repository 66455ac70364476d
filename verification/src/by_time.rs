//! Sequences ordered by a point in time that each element carries.

use crate::time::Timestamp;
use vstd::prelude::*;

verus! {

/// No element of `s` stands before one with an earlier time.
pub open spec fn ascending<T>(s: Seq<T>, at: spec_fn(T) -> Timestamp) -> bool {
    forall|i: int, j: int| 0 <= i < j < s.len() ==> at(s[i]).not_after(at(s[j]))
}

/// `s` with `x` put behind the last element whose time is not later than
/// that of `x`.
pub open spec fn inserted<T>(s: Seq<T>, x: T, at: spec_fn(T) -> Timestamp) -> Seq<T>
    decreases s.len(),
{
    if s.len() > 0 && at(x).before(at(s.last())) {
        inserted(s.drop_last(), x, at).push(s.last())
    } else {
        s.push(x)
    }
}

/// `s` ordered by time, oldest first; elements with the same time keep
/// the order they have in `s`.
pub open spec fn oldest_first<T>(s: Seq<T>, at: spec_fn(T) -> Timestamp) -> Seq<T>
    decreases s.len(),
{
    if s.len() == 0 {
        s
    } else {
        inserted(oldest_first(s.drop_last(), at), s.last(), at)
    }
}

/// Inserting keeps the order and adds exactly the inserted element.
pub proof fn lemma_inserted<T>(s: Seq<T>, x: T, at: spec_fn(T) -> Timestamp)
    requires
        ascending(s, at),
    ensures
        ascending(inserted(s, x, at), at),
        inserted(s, x, at).to_multiset() == s.to_multiset().insert(x),
        inserted(s, x, at).len() == s.len() + 1,
    decreases s.len(),
{
    broadcast use vstd::seq_lib::group_to_multiset_ensures;

    if s.len() > 0 && at(x).before(at(s.last())) {
        let init = s.drop_last();
        lemma_inserted(init, x, at);
        let t = inserted(init, x, at);
        let r = t.push(s.last());
        assert(s == init.push(s.last()));
        assert forall|i: int, j: int| 0 <= i < j < r.len() implies at(r[i]).not_after(
            at(r[j]),
        ) by {
            if j == r.len() - 1 {
                let y = t[i];
                assert(t.to_multiset().count(y) > 0) by {
                    t.to_multiset_ensures();
                }
                if y != x {
                    init.to_multiset_ensures();
                    let k = choose|k: int| 0 <= k < init.len() && init[k] == y;
                }
            }
        }
    } else {
        let r = s.push(x);
        assert forall|i: int, j: int| 0 <= i < j < r.len() implies at(r[i]).not_after(
            at(r[j]),
        ) by {
        }
    }
}

/// Ordering gives the same elements, oldest first.
pub proof fn lemma_oldest_first<T>(s: Seq<T>, at: spec_fn(T) -> Timestamp)
    ensures
        ascending(oldest_first(s, at), at),
        oldest_first(s, at).to_multiset() == s.to_multiset(),
        oldest_first(s, at).len() == s.len(),
    decreases s.len(),
{
    broadcast use vstd::seq_lib::group_to_multiset_ensures;

    if s.len() > 0 {
        lemma_oldest_first(s.drop_last(), at);
        lemma_inserted(oldest_first(s.drop_last(), at), s.last(), at);
        assert(s == s.drop_last().push(s.last()));
    }
}

} // verus!
