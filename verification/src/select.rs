//! Selection of the capturable body nearest to the catcher.
//!
//! Bodies are presented as a sequence of keys, one per body, in the host's
//! enumeration order. A key is an unsigned number that orders the bodies as
//! their squared distance to the catcher does; which such number the host
//! takes makes no difference to the body selected.

use vstd::prelude::*;

verus! {

/// `i` is the first position of `keys` that holds the least key.
pub open spec fn is_nearest(keys: Seq<u32>, i: int) -> bool {
    &&& 0 <= i < keys.len()
    &&& forall|j: int| 0 <= j < keys.len() ==> keys[i] <= #[trigger] keys[j]
    &&& forall|j: int| 0 <= j < i ==> keys[i] < #[trigger] keys[j]
}

/// The position that selection settles on. Meaningful for a non-empty
/// sequence, where exactly one position is the first least one.
pub open spec fn nearest_index(keys: Seq<u32>) -> int
    recommends
        keys.len() > 0,
{
    choose|i: int| is_nearest(keys, i)
}

/// Two keyings order the bodies alike.
pub open spec fn same_order(a: Seq<u32>, b: Seq<u32>) -> bool {
    &&& a.len() == b.len()
    &&& forall|i: int, j: int|
        0 <= i < a.len() && 0 <= j < a.len() ==> ((#[trigger] a[i]) <= (#[trigger] a[j]) <==> b[i]
            <= b[j])
}

/// At most one position is the first least one.
pub proof fn lemma_nearest_unique(keys: Seq<u32>, i: int, j: int)
    requires
        is_nearest(keys, i),
        is_nearest(keys, j),
    ensures
        i == j,
{
    if i < j {
        assert(keys[j] < keys[i]);
        assert(keys[i] <= keys[j]);
    } else if j < i {
        assert(keys[i] < keys[j]);
        assert(keys[j] <= keys[i]);
    }
}

/// Every non-empty sequence has a first least position, and
/// `nearest_index` names it.
pub proof fn lemma_nearest_exists(keys: Seq<u32>)
    requires
        keys.len() > 0,
    ensures
        is_nearest(keys, nearest_index(keys)),
    decreases keys.len(),
{
    if keys.len() == 1 {
        assert(is_nearest(keys, 0));
    } else {
        let front = keys.drop_last();
        lemma_nearest_exists(front);
        let p = nearest_index(front);
        let last = keys.len() - 1;
        assert forall|j: int| 0 <= j < last implies keys[j] == front[j] by {}
        if keys[last] < keys[p] {
            assert forall|j: int| 0 <= j < keys.len() implies keys[last] <= #[trigger] keys[j] by {
                if j < last {
                    assert(front[p] <= front[j]);
                }
            }
            assert forall|j: int| 0 <= j < last implies keys[last] < #[trigger] keys[j] by {
                assert(front[p] <= front[j]);
            }
            assert(is_nearest(keys, last));
        } else {
            assert forall|j: int| 0 <= j < keys.len() implies keys[p] <= #[trigger] keys[j] by {
                if j < last {
                    assert(front[p] <= front[j]);
                }
            }
            assert forall|j: int| 0 <= j < p implies keys[p] < #[trigger] keys[j] by {
                assert(front[p] < front[j]);
            }
            assert(is_nearest(keys, p));
        }
    }
}

/// A body strictly nearer than every other one is the body selected.
pub proof fn lemma_strict_minimum_is_selected(keys: Seq<u32>, i: int)
    requires
        0 <= i < keys.len(),
        forall|j: int| 0 <= j < keys.len() && j != i ==> keys[i] < #[trigger] keys[j],
    ensures
        nearest_index(keys) == i,
{
    assert(is_nearest(keys, i));
    lemma_nearest_exists(keys);
    lemma_nearest_unique(keys, i, nearest_index(keys));
}

/// Among bodies tied for the least key, the one enumerated first is
/// selected: the selected key is the least, and no earlier body shares it.
pub proof fn lemma_ties_go_to_first(keys: Seq<u32>, j: int)
    requires
        0 <= j < keys.len(),
    ensures
        keys[nearest_index(keys)] <= keys[j],
        keys[j] == keys[nearest_index(keys)] ==> nearest_index(keys) <= j,
{
    lemma_nearest_exists(keys);
}

/// Selection depends on the order of the keys alone: any keying that
/// orders the bodies as squared distance does selects the same body.
pub proof fn lemma_selection_follows_order(a: Seq<u32>, b: Seq<u32>)
    requires
        a.len() > 0,
        same_order(a, b),
    ensures
        nearest_index(a) == nearest_index(b),
{
    lemma_nearest_exists(a);
    lemma_nearest_exists(b);
    let p = nearest_index(a);
    assert forall|j: int| 0 <= j < b.len() implies b[p] <= #[trigger] b[j] by {
        assert(a[p] <= a[j]);
    }
    assert forall|j: int| 0 <= j < p implies b[p] < #[trigger] b[j] by {
        assert(a[p] < a[j]);
        assert(!(a[j] <= a[p]));
    }
    assert(is_nearest(b, p));
    lemma_nearest_unique(b, p, nearest_index(b));
}

/// Finds the body nearest to the catcher.
///
/// Returns `None` exactly when there is no body. Otherwise returns the
/// position of the least key; of several bodies that share it, the one
/// enumerated first.
pub fn nearest(keys: &Vec<u32>) -> (r: Option<usize>)
    ensures
        r is None <==> keys@.len() == 0,
        r matches Some(i) ==> is_nearest(keys@, i as int) && i as int == nearest_index(keys@),
{
    let n: usize = keys.len();
    if n == 0 {
        return None;
    }
    let mut best: usize = 0;
    let mut i: usize = 1;
    while i < n
        invariant
            n == keys@.len(),
            best < i <= n,
            forall|j: int| 0 <= j < i ==> keys@[best as int] <= #[trigger] keys@[j],
            forall|j: int| 0 <= j < best ==> keys@[best as int] < #[trigger] keys@[j],
        decreases n - i,
    {
        if keys[i] < keys[best] {
            best = i;
        }
        i += 1;
    }
    proof {
        lemma_nearest_exists(keys@);
        lemma_nearest_unique(keys@, best as int, nearest_index(keys@));
    }
    Some(best)
}

} // verus!
