//! The order in which stale items are refreshed: oldest stamp first, and
//! among equal stamps the one that was listed first.

use vstd::prelude::*;

verus! {

/// Whether candidate `i` is refreshed before candidate `j`: it has the older
/// stamp, or the same stamp and the earlier place in the list.
pub open spec fn refreshes_before(frames: Seq<u64>, i: int, j: int) -> bool {
    frames[i] < frames[j] || (frames[i] == frames[j] && i < j)
}

/// Where a new candidate goes into an order: behind the last one whose stamp
/// is not newer than its own.
pub open spec fn insert_position(order: Seq<usize>, frames: Seq<u64>, i: usize) -> int
    decreases order.len(),
{
    if order.len() == 0 {
        0
    } else if frames[order.last() as int] <= frames[i as int] {
        order.len() as int
    } else {
        insert_position(order.drop_last(), frames, i)
    }
}

/// The refresh order of the first `n` candidates, as positions in `frames`.
pub open spec fn order_of_prefix(frames: Seq<u64>, n: nat) -> Seq<usize>
    decreases n,
{
    if n == 0 {
        Seq::empty()
    } else {
        let rest = order_of_prefix(frames, (n - 1) as nat);
        rest.insert(insert_position(rest, frames, (n - 1) as usize), (n - 1) as usize)
    }
}

/// The refresh order of all candidates: a stable sort of their positions by
/// stamp.
pub open spec fn update_order(frames: Seq<u64>) -> Seq<usize> {
    order_of_prefix(frames, frames.len())
}

/// The candidates that a budget admits: the head of the refresh order.
pub open spec fn selection(frames: Seq<u64>, budget: usize) -> Seq<usize> {
    let order = update_order(frames);
    if budget < order.len() {
        order.take(budget as int)
    } else {
        order
    }
}

/// What makes a sequence of positions the refresh order of `n` candidates:
/// it lists positions below `n`, each of them, and each before all that are
/// refreshed after it.
pub open spec fn is_refresh_order(frames: Seq<u64>, n: nat, order: Seq<usize>) -> bool {
    &&& order.len() == n
    &&& forall|k: int| 0 <= k < order.len() ==> (#[trigger] order[k]) < n
    &&& forall|a: int, b: int|
        0 <= a < b < order.len() ==> refreshes_before(
            frames,
            #[trigger] order[a] as int,
            #[trigger] order[b] as int,
        )
    &&& forall|i: usize| i < n ==> #[trigger] order.contains(i)
}

proof fn lemma_insert_position(order: Seq<usize>, frames: Seq<u64>, i: usize)
    ensures
        0 <= insert_position(order, frames, i) <= order.len(),
        forall|q: int|
            insert_position(order, frames, i) <= q < order.len() ==> frames[(
            #[trigger] order[q]) as int] > frames[i as int],
        insert_position(order, frames, i) > 0 ==> frames[order[insert_position(order, frames, i)
            - 1] as int] <= frames[i as int],
    decreases order.len(),
{
    if order.len() > 0 && frames[order.last() as int] > frames[i as int] {
        let head = order.drop_last();
        lemma_insert_position(head, frames, i);
        assert forall|q: int| insert_position(order, frames, i) <= q < order.len() implies frames[(
        #[trigger] order[q]) as int] > frames[i as int] by {
            if q < head.len() {
                assert(order[q] == head[q]);
            }
        }
        if insert_position(order, frames, i) > 0 {
            assert(order[insert_position(order, frames, i) - 1] == head[insert_position(
                head,
                frames,
                i,
            ) - 1]);
        }
    }
}

proof fn lemma_order_of_prefix(frames: Seq<u64>, n: nat)
    requires
        n <= frames.len(),
        n <= usize::MAX,
    ensures
        is_refresh_order(frames, n, order_of_prefix(frames, n)),
    decreases n,
{
    if n > 0 {
        let rest = order_of_prefix(frames, (n - 1) as nat);
        let i = (n - 1) as usize;
        let p = insert_position(rest, frames, i);
        let order = rest.insert(p, i);
        lemma_order_of_prefix(frames, (n - 1) as nat);
        lemma_insert_position(rest, frames, i);
        assert forall|a: int, b: int| 0 <= a < b < order.len() implies refreshes_before(
            frames,
            #[trigger] order[a] as int,
            #[trigger] order[b] as int,
        ) by {
            if b < p {
                assert(order[a] == rest[a] && order[b] == rest[b]);
            } else if b == p {
                // `a` stands before the insertion point: its stamp is not
                // newer than that of `rest[p - 1]`, which is not newer than
                // the newcomer's, and its position is lower.
                assert(order[a] == rest[a]);
                if a < p - 1 {
                    assert(refreshes_before(frames, rest[a] as int, rest[p - 1] as int));
                }
            } else if a < p {
                assert(order[a] == rest[a] && order[b] == rest[b - 1]);
            } else if a == p {
                assert(order[b] == rest[b - 1]);
            } else {
                assert(order[a] == rest[a - 1] && order[b] == rest[b - 1]);
            }
        }
        assert forall|k: int| 0 <= k < order.len() implies (#[trigger] order[k]) < n by {
            if k < p {
                assert(order[k] == rest[k]);
            } else if k > p {
                assert(order[k] == rest[k - 1]);
            }
        }
        assert forall|j: usize| j < n implies #[trigger] order.contains(j) by {
            if j == i {
                assert(order[p] == j);
            } else {
                assert(rest.contains(j));
                let k = choose|k: int| 0 <= k < rest.len() && rest[k] == j;
                if k < p {
                    assert(order[k] == j);
                } else {
                    assert(order[k + 1] == j);
                }
            }
        }
    }
}

/// The refresh order lists every candidate once, oldest stamp first, and
/// keeps candidates with equal stamps in the order in which they were given.
pub proof fn lemma_update_order_is_stable_sort(frames: Seq<u64>)
    requires
        frames.len() <= usize::MAX,
    ensures
        is_refresh_order(frames, frames.len(), update_order(frames)),
        forall|a: int, b: int|
            0 <= a < b < frames.len() ==> #[trigger] update_order(frames)[a]
                != #[trigger] update_order(frames)[b],
{
    lemma_order_of_prefix(frames, frames.len());
}

proof fn lemma_refresh_orders_agree(
    frames: Seq<u64>,
    n: nat,
    first: Seq<usize>,
    second: Seq<usize>,
    k: int,
)
    requires
        is_refresh_order(frames, n, first),
        is_refresh_order(frames, n, second),
        0 <= k <= n,
    ensures
        forall|j: int| 0 <= j < k ==> first[j] == second[j],
    decreases k,
{
    if k > 0 {
        lemma_refresh_orders_agree(frames, n, first, second, k - 1);
        let a = first[k - 1];
        let b = second[k - 1];
        if a != b {
            // Each of the two stands in the other order, and behind place
            // `k - 1`: the places before hold the same candidates in both.
            assert(second.contains(a));
            let at = choose|at: int| 0 <= at < second.len() && second[at] == a;
            if at < k - 1 {
                assert(refreshes_before(frames, first[at] as int, first[k - 1] as int));
            }
            assert(refreshes_before(frames, second[k - 1] as int, second[at] as int));
            assert(first.contains(b));
            let to = choose|to: int| 0 <= to < first.len() && first[to] == b;
            if to < k - 1 {
                assert(refreshes_before(frames, second[to] as int, second[k - 1] as int));
            }
            assert(refreshes_before(frames, first[k - 1] as int, first[to] as int));
        }
    }
}

/// There is one refresh order only: the stamps and the places of the
/// candidates decide it.
pub proof fn lemma_refresh_order_is_unique(frames: Seq<u64>, order: Seq<usize>)
    requires
        frames.len() <= usize::MAX,
        is_refresh_order(frames, frames.len(), order),
    ensures
        order == update_order(frames),
{
    lemma_order_of_prefix(frames, frames.len());
    lemma_refresh_orders_agree(
        frames,
        frames.len(),
        order,
        update_order(frames),
        frames.len() as int,
    );
    assert(order =~= update_order(frames));
}

/// A budget admits at most `budget` candidates, no candidate twice, and
/// exactly those that are refreshed before every candidate it leaves out.
pub proof fn lemma_selection_takes_the_stalest(frames: Seq<u64>, budget: usize)
    requires
        frames.len() <= usize::MAX,
    ensures
        selection(frames, budget).len() == if budget < frames.len() {
            budget as nat
        } else {
            frames.len()
        },
        forall|k: int|
            0 <= k < selection(frames, budget).len() ==> (#[trigger] selection(frames, budget)[k])
                < frames.len(),
        forall|a: int, b: int|
            0 <= a < b < selection(frames, budget).len() ==> refreshes_before(
                frames,
                #[trigger] selection(frames, budget)[a] as int,
                #[trigger] selection(frames, budget)[b] as int,
            ),
        forall|k: int, c: usize|
            #![trigger selection(frames, budget)[k], selection(frames, budget).contains(c)]
            0 <= k < selection(frames, budget).len() && c < frames.len() && !selection(
                frames,
                budget,
            ).contains(c) ==> refreshes_before(
                frames,
                selection(frames, budget)[k] as int,
                c as int,
            ),
{
    let order = update_order(frames);
    let chosen = selection(frames, budget);
    lemma_order_of_prefix(frames, frames.len());
    assert forall|k: int, c: usize|
        #![trigger chosen[k], chosen.contains(c)]
        0 <= k < chosen.len() && c < frames.len() && !chosen.contains(c) implies refreshes_before(
        frames,
        chosen[k] as int,
        c as int,
    ) by {
        assert(order.contains(c));
        let j = choose|j: int| 0 <= j < order.len() && order[j] == c;
        if j < chosen.len() {
            assert(chosen[j] == c);
        }
        assert(chosen[k] == order[k]);
    }
}

/// Computes the refresh order of `frames`.
pub fn refresh_order(frames: &Vec<u64>) -> (order: Vec<usize>)
    ensures
        order@ == update_order(frames@),
        is_refresh_order(frames@, frames@.len(), order@),
{
    let mut order: Vec<usize> = Vec::new();
    let mut i: usize = 0;
    while i < frames.len()
        invariant
            i <= frames.len(),
            order@ == order_of_prefix(frames@, i as nat),
        decreases frames.len() - i,
    {
        proof {
            lemma_order_of_prefix(frames@, i as nat);
            lemma_insert_position(order@, frames@, i);
        }
        let stamp: u64 = frames[i];
        let mut p: usize = order.len();
        assert(order@.take(p as int) =~= order@);
        while p > 0 && frames[order[p - 1]] > stamp
            invariant
                p <= order.len(),
                i < frames.len(),
                stamp == frames@[i as int],
                is_refresh_order(frames@, i as nat, order@),
                insert_position(order@.take(p as int), frames@, i) == insert_position(
                    order@,
                    frames@,
                    i,
                ),
            decreases p,
        {
            proof {
                assert(order@.take(p as int).drop_last() =~= order@.take(p - 1));
            }
            p = p - 1;
        }
        proof {
            assert(order@.take(order@.len() as int) =~= order@);
            if p > 0 {
                assert(order@.take(p as int).last() == order@[p - 1]);
            }
        }
        order.insert(p, i);
        i = i + 1;
    }
    proof {
        lemma_order_of_prefix(frames@, frames@.len());
    }
    order
}

/// Computes the candidates that `budget` admits, in refresh order.
pub fn select(frames: &Vec<u64>, budget: usize) -> (chosen: Vec<usize>)
    ensures
        chosen@ == selection(frames@, budget),
{
    let mut order = refresh_order(frames);
    if budget < order.len() {
        order.truncate(budget);
    }
    order
}

} // verus!
