use vstd::prelude::*;
use crate::broadcast::{is_gossip, BroadcastNode, BroadcastPayload};
use crate::known::merge;
use crate::message::Message;

verus! {

/// The known sets of a cluster after node `to` has merged the set of node
/// `from`, as handling one gossip message does.
pub open spec fn deliver(sets: Seq<Set<usize>>, from: int, to: int) -> Seq<Set<usize>> {
    sets.update(to, merge(sets[to], sets[from]))
}

/// The known sets of a cluster after the gossip deliveries of `schedule`, in
/// order; each delivery is a pair (sender, receiver), and a schedule may hold
/// any delivery any number of times.
pub open spec fn run(sets: Seq<Set<usize>>, schedule: Seq<(int, int)>) -> Seq<Set<usize>>
    decreases schedule.len(),
{
    if schedule.len() == 0 {
        sets
    } else {
        deliver(run(sets, schedule.drop_last()), schedule.last().0, schedule.last().1)
    }
}

/// The nodes that the values first held by node `i` have reached, directly or
/// through other nodes, by the deliveries of `schedule`.
pub open spec fn informed(schedule: Seq<(int, int)>, i: int) -> Set<int>
    decreases schedule.len(),
{
    if schedule.len() == 0 {
        set![i]
    } else {
        let before = informed(schedule.drop_last(), i);
        if before.contains(schedule.last().0) {
            before.insert(schedule.last().1)
        } else {
            before
        }
    }
}

/// Every value held by some node of the cluster.
pub open spec fn union_all(sets: Seq<Set<usize>>) -> Set<usize> {
    Set::new(|v: usize| exists|i: int| 0 <= i < sets.len() && #[trigger] sets[i].contains(v))
}

/// The deliveries of `schedule` are between nodes of a cluster of `n` nodes.
pub open spec fn within(schedule: Seq<(int, int)>, n: int) -> bool {
    forall|k: int|
        0 <= k < schedule.len() ==> 0 <= #[trigger] schedule[k].0 < n && 0 <= schedule[k].1 < n
}

/// A node that handles a gossip message carrying the set `sent` ends with the
/// merge of its own set and `sent`.
pub proof fn lemma_gossip_merges(
    pre: BroadcastNode,
    post: BroadcastNode,
    m: Message<BroadcastPayload>,
    r: Result<Seq<Message<BroadcastPayload>>, crate::broadcast::Violation>,
    from: String,
    sent: Set<usize>,
)
    requires
        is_gossip(m, from, pre.metadata.node_id, sent),
        BroadcastNode::handled(pre, post, m, r),
    ensures
        post.known@ == merge(pre.known@, sent),
        r == Ok::<Seq<Message<BroadcastPayload>>, crate::broadcast::Violation>(Seq::empty()),
{
    assert(r->Ok_0 =~= Seq::empty());
}

/// Under any schedule of deliveries, no node loses a value, no node learns a
/// value that no node held, and every node that the values of node `i` have
/// reached holds them.
pub proof fn lemma_run_bounds(sets: Seq<Set<usize>>, schedule: Seq<(int, int)>)
    requires
        within(schedule, sets.len() as int),
    ensures
        run(sets, schedule).len() == sets.len(),
        forall|j: int| 0 <= j < sets.len() ==> sets[j].subset_of(#[trigger] run(sets, schedule)[j]),
        forall|j: int| 0 <= j < sets.len() ==> (#[trigger] run(sets, schedule)[j]).subset_of(union_all(sets)),
        forall|i: int, j: int|
            0 <= i < sets.len() && #[trigger] informed(schedule, i).contains(j) ==> 0 <= j < sets.len()
                && sets[i].subset_of(run(sets, schedule)[j]),
    decreases schedule.len(),
{
    if schedule.len() > 0 {
        let prev = schedule.drop_last();
        assert(within(prev, sets.len() as int)) by {
            assert forall|k: int| 0 <= k < prev.len() implies 0 <= #[trigger] prev[k].0 < sets.len() && 0 <= prev[k].1 < sets.len() by {
                assert(prev[k] == schedule[k]);
            }
        }
        lemma_run_bounds(sets, prev);
        let (a, b) = schedule.last();
        assert(schedule.last() == schedule[schedule.len() - 1]);
        let before = run(sets, prev);
        let after = run(sets, schedule);
        assert(after == deliver(before, a, b));
        assert forall|j: int| 0 <= j < sets.len() implies (#[trigger] run(sets, schedule)[j]).subset_of(union_all(sets)) by {
            if j == b {
                assert(before[a].subset_of(union_all(sets)));
                assert(before[b].subset_of(union_all(sets)));
            } else {
                assert(before[j].subset_of(union_all(sets)));
            }
        }
        assert forall|j: int| 0 <= j < sets.len() implies sets[j].subset_of(#[trigger] run(sets, schedule)[j]) by {
            assert(sets[j].subset_of(before[j]));
        }
        assert forall|i: int, j: int|
            0 <= i < sets.len() && #[trigger] informed(schedule, i).contains(j) implies 0 <= j < sets.len()
                && sets[i].subset_of(run(sets, schedule)[j]) by {
            if informed(prev, i).contains(j) {
                assert(sets[i].subset_of(before[j]));
            } else {
                assert(j == b && informed(prev, i).contains(a));
                assert(sets[i].subset_of(before[a]));
            }
        }
    } else {
        assert forall|i: int, j: int|
            0 <= i < sets.len() && #[trigger] informed(schedule, i).contains(j) implies 0 <= j < sets.len()
                && sets[i].subset_of(run(sets, schedule)[j]) by {
            assert(informed(schedule, i) == set![i]);
        }
    }
}

/// Convergence: whatever the order of the deliveries and however often each is
/// repeated, once the values of every node have reached every other node, all
/// nodes hold the same set, the union of what the nodes held at the start.
pub proof fn lemma_convergence(sets: Seq<Set<usize>>, schedule: Seq<(int, int)>)
    requires
        within(schedule, sets.len() as int),
        forall|i: int, j: int|
            0 <= i < sets.len() && 0 <= j < sets.len() ==> #[trigger] informed(schedule, i).contains(j),
    ensures
        forall|j: int| 0 <= j < sets.len() ==> #[trigger] run(sets, schedule)[j] == union_all(sets),
{
    lemma_run_bounds(sets, schedule);
    assert forall|j: int| 0 <= j < sets.len() implies #[trigger] run(sets, schedule)[j] == union_all(sets) by {
        assert forall|v: usize| union_all(sets).contains(v) implies run(sets, schedule)[j].contains(v) by {
            let i = choose|i: int| 0 <= i < sets.len() && #[trigger] sets[i].contains(v);
            assert(informed(schedule, i).contains(j));
        }
        assert(run(sets, schedule)[j] =~= union_all(sets));
    }
}

/// The nodes that node `i` reaches in at most `d` hops along the neighbour
/// lists `adj` (node `x` gossips to the nodes `adj[x]`).
pub open spec fn reach_within(adj: Seq<Seq<int>>, i: int, d: nat) -> Set<int>
    decreases d,
{
    if d == 0 {
        set![i]
    } else {
        let near = reach_within(adj, i, (d - 1) as nat);
        near.union(
            Set::new(
                |y: int|
                    exists|x: int, k: int|
                        near.contains(x) && 0 <= x < adj.len() && 0 <= k < adj[x].len() && #[trigger] adj[x][k] == y,
            ),
        )
    }
}

/// The deliveries of the first `r` rounds of `rounds`, one round after another.
pub open spec fn concat_rounds(rounds: Seq<Seq<(int, int)>>, r: nat) -> Seq<(int, int)>
    decreases r,
{
    if r == 0 || r > rounds.len() {
        Seq::empty()
    } else {
        concat_rounds(rounds, (r - 1) as nat) + rounds[r - 1]
    }
}

/// `round` delivers, at least once and in any order, the gossip of every node
/// to each of its neighbours.
pub open spec fn is_full_round(adj: Seq<Seq<int>>, round: Seq<(int, int)>) -> bool {
    forall|x: int, k: int| 0 <= x < adj.len() && 0 <= k < adj[x].len() ==> round.contains((x, #[trigger] adj[x][k]))
}

proof fn lemma_informed_append(s1: Seq<(int, int)>, s2: Seq<(int, int)>, i: int)
    ensures
        informed(s1, i).subset_of(informed(s1 + s2, i)),
        forall|e: (int, int)| s2.contains(e) && informed(s1, i).contains(e.0) ==> #[trigger] informed(s1 + s2, i).contains(e.1),
    decreases s2.len(),
{
    if s2.len() == 0 {
        assert(s1 + s2 =~= s1);
    } else {
        let t = s2.drop_last();
        lemma_informed_append(s1, t, i);
        assert((s1 + s2).drop_last() =~= s1 + t);
        assert((s1 + s2).last() == s2.last());
        assert forall|e: (int, int)| s2.contains(e) && informed(s1, i).contains(e.0) implies #[trigger] informed(s1 + s2, i).contains(e.1) by {
            let k = choose|k: int| 0 <= k < s2.len() && s2[k] == e;
            if k < t.len() {
                assert(t[k] == e);
                assert(t.contains(e));
            }
        }
    }
}

proof fn lemma_rounds_within(rounds: Seq<Seq<(int, int)>>, r: nat, n: int)
    requires
        forall|q: int| 0 <= q < rounds.len() ==> within(#[trigger] rounds[q], n),
    ensures
        within(concat_rounds(rounds, r), n),
    decreases r,
{
    if r > 0 && r <= rounds.len() {
        lemma_rounds_within(rounds, (r - 1) as nat, n);
        let a = concat_rounds(rounds, (r - 1) as nat);
        let b = rounds[r - 1];
        assert(within(b, n));
        assert forall|k: int| 0 <= k < (a + b).len() implies 0 <= #[trigger] (a + b)[k].0 < n && 0 <= (a + b)[k].1 < n by {
            if k < a.len() {
                assert((a + b)[k] == a[k]);
            } else {
                assert((a + b)[k] == b[k - a.len()]);
            }
        }
    }
}

proof fn lemma_rounds_inform(adj: Seq<Seq<int>>, rounds: Seq<Seq<(int, int)>>, r: nat, i: int)
    requires
        r <= rounds.len(),
        forall|q: int| 0 <= q < rounds.len() ==> is_full_round(adj, #[trigger] rounds[q]),
    ensures
        reach_within(adj, i, r).subset_of(informed(concat_rounds(rounds, r), i)),
    decreases r,
{
    if r == 0 {
        assert(informed(concat_rounds(rounds, 0), i) == set![i]);
    } else {
        let prev = concat_rounds(rounds, (r - 1) as nat);
        let round = rounds[r - 1];
        lemma_rounds_inform(adj, rounds, (r - 1) as nat, i);
        lemma_informed_append(prev, round, i);
        assert(concat_rounds(rounds, r) == prev + round);
        assert(is_full_round(adj, round));
        let near = reach_within(adj, i, (r - 1) as nat);
        assert forall|y: int| reach_within(adj, i, r).contains(y) implies informed(concat_rounds(rounds, r), i).contains(y) by {
            if !near.contains(y) {
                let (x, k) = choose|x: int, k: int|
                    near.contains(x) && 0 <= x < adj.len() && 0 <= k < adj[x].len() && #[trigger] adj[x][k] == y;
                assert(round.contains((x, adj[x][k])));
                assert(informed(prev + round, i).contains((x, adj[x][k]).1));
            }
        }
    }
}

/// Convergence over a topology: when every node reaches every other within
/// as many hops as there are gossip rounds, and each round delivers every
/// node's gossip to each of its neighbours at least once, in any order and
/// with any repetition, all nodes end with the same set, the union of what the
/// nodes held at the start.
pub proof fn lemma_convergence_in_rounds(sets: Seq<Set<usize>>, adj: Seq<Seq<int>>, rounds: Seq<Seq<(int, int)>>)
    requires
        adj.len() == sets.len(),
        forall|q: int| 0 <= q < rounds.len() ==> within(#[trigger] rounds[q], sets.len() as int),
        forall|q: int| 0 <= q < rounds.len() ==> is_full_round(adj, #[trigger] rounds[q]),
        forall|i: int, j: int|
            0 <= i < sets.len() && 0 <= j < sets.len() ==> #[trigger] reach_within(adj, i, rounds.len()).contains(j),
    ensures
        forall|j: int|
            0 <= j < sets.len() ==> #[trigger] run(sets, concat_rounds(rounds, rounds.len()))[j] == union_all(sets),
{
    let schedule = concat_rounds(rounds, rounds.len());
    lemma_rounds_within(rounds, rounds.len(), sets.len() as int);
    assert forall|i: int, j: int| 0 <= i < sets.len() && 0 <= j < sets.len() implies #[trigger] informed(schedule, i).contains(j) by {
        lemma_rounds_inform(adj, rounds, rounds.len(), i);
        assert(reach_within(adj, i, rounds.len()).contains(j));
    }
    lemma_convergence(sets, schedule);
}

} // verus!
