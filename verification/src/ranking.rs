//! Ranking by a key, largest first, where equal keys keep the order they
//! came in.

use vstd::prelude::*;

verus! {

/// The ranking `order` with the index `i` put in its place: behind every
/// index whose key is at least that of `i`.
pub open spec fn place(order: Seq<int>, keys: Seq<u64>, i: int) -> Seq<int>
    decreases order.len(),
{
    if order.len() == 0 {
        seq![i]
    } else if keys[order.last()] >= keys[i] {
        order.push(i)
    } else {
        place(order.drop_last(), keys, i).push(order.last())
    }
}

/// The first `n` indices of `keys`, ranked by key from the largest to
/// the smallest; indices with equal keys stand in ascending order.
pub open spec fn ranking(keys: Seq<u64>, n: int) -> Seq<int>
    decreases n,
{
    if n <= 0 {
        Seq::empty()
    } else {
        place(ranking(keys, n - 1), keys, n - 1)
    }
}

/// `order` holds indices below `n`, each at most once, with keys that do
/// not rise, and among equal keys the indices rise.
pub open spec fn is_ranked(order: Seq<int>, keys: Seq<u64>, n: int) -> bool {
    &&& forall|a: int| 0 <= a < order.len() ==> 0 <= #[trigger] order[a] < n
    &&& forall|a: int, b: int|
        0 <= a < b < order.len() ==> keys[#[trigger] order[a]] > keys[#[trigger] order[b]] || (
        keys[order[a]] == keys[order[b]] && order[a] < order[b])
}

/// Where `place` puts an index: at the position `k` behind which every
/// key is smaller and before which the nearest key is not.
pub proof fn lemma_place_is_insert(order: Seq<int>, keys: Seq<u64>, i: int, k: int)
    requires
        0 <= k <= order.len(),
        forall|a: int| k <= a < order.len() ==> keys[#[trigger] order[a]] < keys[i],
        k > 0 ==> keys[order[k - 1]] >= keys[i],
    ensures
        place(order, keys, i) == order.insert(k, i),
    decreases order.len(),
{
    if order.len() == 0 {
        assert(order.insert(k, i) =~= seq![i]);
    } else if k == order.len() {
        assert(order.insert(k, i) =~= order.push(i));
    } else {
        let front = order.drop_last();
        assert(keys[order[order.len() - 1]] < keys[i]);
        assert forall|a: int| k <= a < front.len() implies keys[#[trigger] front[a]] < keys[i] by {
            assert(front[a] == order[a]);
        }
        lemma_place_is_insert(front, keys, i, k);
        assert(front.insert(k, i).push(order.last()) =~= order.insert(k, i));
    }
}

/// Putting the next index into a ranking gives a ranking that is one longer.
pub proof fn lemma_place_keeps_ranked(order: Seq<int>, keys: Seq<u64>, n: int)
    requires
        is_ranked(order, keys, n),
        order.len() == n,
        0 <= n < keys.len(),
    ensures
        is_ranked(place(order, keys, n), keys, n + 1),
        place(order, keys, n).len() == n + 1,
    decreases order.len(),
{
    lemma_choose_position(order, keys, n);
    let k = choose_position(order, keys, n);
    lemma_place_is_insert(order, keys, n, k);
    let placed = order.insert(k, n);
    assert forall|a: int, b: int| 0 <= a < b < placed.len() implies keys[#[trigger] placed[a]]
        > keys[#[trigger] placed[b]] || (keys[placed[a]] == keys[placed[b]] && placed[a]
        < placed[b]) by {
        if a == k {
            assert(placed[b] == order[b - 1]);
        } else if b == k {
            assert(placed[a] == order[a]);
            if a < k - 1 {
                assert(keys[order[a]] > keys[order[k - 1]] || keys[order[a]] == keys[order[k
                    - 1]]);
            }
            assert(order[a] < n);
        } else {
            let oa = if a < k {
                a
            } else {
                a - 1
            };
            let ob = if b < k {
                b
            } else {
                b - 1
            };
            assert(placed[a] == order[oa] && placed[b] == order[ob]);
        }
    }
    assert forall|a: int| 0 <= a < placed.len() implies 0 <= #[trigger] placed[a] < n + 1 by {
        if a < k {
            assert(placed[a] == order[a]);
        } else if a > k {
            assert(placed[a] == order[a - 1]);
        }
    }
}

/// The position at which `place` puts the index `i`.
pub open spec fn choose_position(order: Seq<int>, keys: Seq<u64>, i: int) -> int
    decreases order.len(),
{
    if order.len() == 0 {
        0
    } else if keys[order.last()] >= keys[i] {
        order.len() as int
    } else {
        choose_position(order.drop_last(), keys, i)
    }
}

/// The position that `choose_position` names is the one `place` uses.
pub proof fn lemma_choose_position(order: Seq<int>, keys: Seq<u64>, i: int)
    ensures
        0 <= choose_position(order, keys, i) <= order.len(),
        forall|a: int|
            choose_position(order, keys, i) <= a < order.len() ==> keys[#[trigger] order[a]]
                < keys[i],
        choose_position(order, keys, i) > 0 ==> keys[order[choose_position(order, keys, i) - 1]]
            >= keys[i],
    decreases order.len(),
{
    if order.len() > 0 && keys[order.last()] < keys[i] {
        let front = order.drop_last();
        lemma_choose_position(front, keys, i);
        let k = choose_position(front, keys, i);
        assert forall|a: int| k <= a < order.len() implies keys[#[trigger] order[a]] < keys[i] by {
            if a < front.len() {
                assert(front[a] == order[a]);
            }
        }
        if k > 0 {
            assert(front[k - 1] == order[k - 1]);
        }
    }
}

/// A ranking holds each index once, its keys never rise, and indices
/// with equal keys stand in the order they came in.
pub proof fn lemma_ranking_is_ranked(keys: Seq<u64>, n: int)
    requires
        0 <= n <= keys.len(),
    ensures
        is_ranked(ranking(keys, n), keys, n),
        ranking(keys, n).len() == n,
    decreases n,
{
    if n > 0 {
        lemma_ranking_is_ranked(keys, n - 1);
        lemma_choose_position(ranking(keys, n - 1), keys, n - 1);
        lemma_place_keeps_ranked(ranking(keys, n - 1), keys, n - 1);
    }
}

/// A list of indices as mathematical integers.
pub open spec fn indices(order: Seq<usize>) -> Seq<int> {
    order.map_values(|i: usize| i as int)
}

/// The indices of `keys`, ranked by key from the largest to the
/// smallest; indices with equal keys stand in ascending order.
pub fn rank_descending(keys: &Vec<u64>) -> (order: Vec<usize>)
    ensures
        indices(order@) == ranking(keys@, keys@.len() as int),
        order@.len() == keys@.len(),
        forall|a: int| 0 <= a < order@.len() ==> #[trigger] order@[a] < keys@.len(),
{
    let mut order: Vec<usize> = Vec::new();
    let mut n: usize = 0;
    proof {
        assert(indices(order@) =~= ranking(keys@, 0));
    }
    while n < keys.len()
        invariant
            n <= keys.len(),
            indices(order@) == ranking(keys@, n as int),
            order@.len() == n,
            forall|a: int| 0 <= a < order@.len() ==> #[trigger] order@[a] < n,
        decreases keys.len() - n,
    {
        let mut k: usize = order.len();
        while k > 0 && keys[order[k - 1]] < keys[n]
            invariant
                k <= order@.len(),
                n < keys.len(),
                order@.len() == n,
                forall|a: int| 0 <= a < order@.len() ==> #[trigger] order@[a] < n,
                forall|a: int|
                    k <= a < order@.len() ==> keys@[#[trigger] indices(order@)[a]] < keys@[n as int],
            decreases k,
        {
            k -= 1;
        }
        proof {
            let before = indices(order@);
            lemma_place_is_insert(before, keys@, n as int, k as int);
            assert(indices(order@.insert(k as int, n)) =~= before.insert(k as int, n as int));
        }
        order.insert(k, n);
        n += 1;
    }
    order
}

} // verus!
