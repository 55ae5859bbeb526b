//! Lists used as keyed tables: the entry that answers a key is the last one
//! that matches it.

use vstd::prelude::*;

verus! {

/// The index of the last element of `s` satisfying `f`, or `-1`.
pub open spec fn last_index<T>(s: Seq<T>, f: spec_fn(T) -> bool) -> int
    decreases s.len(),
{
    if s.len() == 0 {
        -1
    } else if f(s.last()) {
        s.len() - 1
    } else {
        last_index(s.drop_last(), f)
    }
}

pub proof fn lemma_last_index_bounds<T>(s: Seq<T>, f: spec_fn(T) -> bool)
    ensures
        -1 <= last_index(s, f) < s.len(),
        last_index(s, f) >= 0 ==> f(s[last_index(s, f)]),
        forall|k: int| last_index(s, f) < k < s.len() ==> !f(#[trigger] s[k]),
    decreases s.len(),
{
    if s.len() > 0 && !f(s.last()) {
        lemma_last_index_bounds(s.drop_last(), f);
        assert forall|k: int| last_index(s, f) < k < s.len() implies !f(#[trigger] s[k]) by {
            if k < s.len() - 1 {
                assert(s[k] == s.drop_last()[k]);
            }
        }
    }
}

/// Appending an element moves the answer to it exactly where it matches.
pub proof fn lemma_last_index_push<T>(s: Seq<T>, x: T, f: spec_fn(T) -> bool)
    ensures
        last_index(s.push(x), f) == if f(x) {
            s.len() as int
        } else {
            last_index(s, f)
        },
{
    assert(s.push(x).drop_last() =~= s);
}

/// Replacing an element by one that matches the key alike keeps the answer.
pub proof fn lemma_last_index_update<T>(s: Seq<T>, k: int, x: T, f: spec_fn(T) -> bool)
    requires
        0 <= k < s.len(),
        f(x) == f(s[k]),
    ensures
        last_index(s.update(k, x), f) == last_index(s, f),
    decreases s.len(),
{
    let t = s.update(k, x);
    if k < s.len() - 1 {
        assert(t.last() == s.last());
        assert(t.drop_last() =~= s.drop_last().update(k, x));
        lemma_last_index_update(s.drop_last(), k, x, f);
    } else {
        assert(t.drop_last() =~= s.drop_last());
    }
}

} // verus!
