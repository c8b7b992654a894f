use vstd::prelude::*;

use crate::registry::{ProposalId, ProposalRegistry};

verus! {

/// The maximum vote count among `counts`, with 0 as the running start of
/// the scan. Counts are never negative, so the start only matters for an
/// empty registry.
pub open spec fn max_count(counts: Seq<int>) -> int
    decreases counts.len(),
{
    if counts.len() == 0 {
        0
    } else {
        let m = max_count(counts.drop_last());
        if counts.last() > m {
            counts.last()
        } else {
            m
        }
    }
}

/// The winner list after scanning the first `n` proposals in ascending id
/// order: a count strictly above the running maximum resets the list to
/// that proposal alone, a count equal to it joins the list, so ties
/// accumulate and are never broken.
pub open spec fn winners_upto(counts: Seq<int>, n: int) -> Seq<ProposalId>
    decreases n,
{
    if n <= 0 {
        Seq::empty()
    } else {
        let prev = winners_upto(counts, n - 1);
        let m = max_count(counts.take(n - 1));
        if counts[n - 1] > m {
            seq![(n - 1) as ProposalId]
        } else if counts[n - 1] == m {
            prev.push((n - 1) as ProposalId)
        } else {
            prev
        }
    }
}

/// The winning proposal ids of a full scan: every proposal whose vote count
/// equals the maximum, in ascending id order. With every count zero, every
/// proposal wins (an all-zero tie).
pub open spec fn winners_of(counts: Seq<int>) -> Seq<ProposalId> {
    winners_upto(counts, counts.len() as int)
}

/// Scanning one proposal more keeps the running maximum unless the new
/// count exceeds it.
proof fn lemma_max_count_take_step(counts: Seq<int>, n: int)
    requires
        1 <= n <= counts.len(),
    ensures
        max_count(counts.take(n)) == if counts[n - 1] > max_count(counts.take(n - 1)) {
            counts[n - 1]
        } else {
            max_count(counts.take(n - 1))
        },
{
    assert(counts.take(n).drop_last() =~= counts.take(n - 1));
    assert(counts.take(n).last() == counts[n - 1]);
}

/// No count exceeds the maximum of its sequence.
proof fn lemma_max_count_is_bound(counts: Seq<int>)
    ensures
        forall|j: int| 0 <= j < counts.len() ==> counts[j] <= max_count(counts),
    decreases counts.len(),
{
    if counts.len() > 0 {
        lemma_max_count_is_bound(counts.drop_last());
        assert(forall|j: int|
            0 <= j < counts.len() - 1 ==> counts[j] == counts.drop_last()[j]);
    }
}

/// A pushed sequence holds exactly the old elements and the new one.
proof fn lemma_push_contains<A>(s: Seq<A>, x: A, y: A)
    ensures
        s.push(x).contains(y) <==> (s.contains(y) || y == x),
{
    assert(s.push(x)[s.len() as int] == x);
    if s.contains(y) {
        let i = choose|i: int| 0 <= i < s.len() && s[i] == y;
        assert(s.push(x)[i] == y);
    }
    if s.push(x).contains(y) {
        let i = choose|i: int| 0 <= i < s.push(x).len() && s.push(x)[i] == y;
        if i < s.len() {
            assert(s[i] == y);
        }
    }
}

proof fn lemma_winners_upto_props(counts: Seq<int>, n: int)
    requires
        0 <= n <= counts.len() <= 256,
    ensures
        forall|id: ProposalId| #[trigger]
            winners_upto(counts, n).contains(id) <==> (id < n && counts[id as int] == max_count(
                counts.take(n),
            )),
        forall|k1: int, k2: int|
            0 <= k1 < k2 < winners_upto(counts, n).len() ==> winners_upto(counts, n)[k1]
                < winners_upto(counts, n)[k2],
    decreases n,
{
    if n > 0 {
        lemma_winners_upto_props(counts, n - 1);
        lemma_max_count_take_step(counts, n);
        lemma_max_count_is_bound(counts.take(n - 1));
        assert(forall|j: int| 0 <= j < n - 1 ==> counts.take(n - 1)[j] == counts[j]);
        let prev = winners_upto(counts, n - 1);
        let m = max_count(counts.take(n - 1));
        let w = winners_upto(counts, n);
        let last = (n - 1) as ProposalId;
        if counts[n - 1] > m {
            assert(w == seq![last]);
            assert(w[0] == last);
            assert(forall|id: ProposalId| w.contains(id) ==> id == last);
        } else if counts[n - 1] == m {
            assert(w == prev.push(last));
            assert(forall|id: ProposalId| #[trigger]
                w.contains(id) <==> (prev.contains(id) || id == last)) by {
                assert(forall|id: ProposalId| #[trigger]
                    prev.push(last).contains(id) <==> (prev.contains(id) || id == last)) by {
                    assert forall|id: ProposalId|
                        #[trigger] prev.push(last).contains(id) <==> (prev.contains(id) || id
                            == last) by {
                        lemma_push_contains(prev, last, id);
                    }
                }
            }
            assert(forall|k: int| 0 <= k < prev.len() ==> prev.contains(#[trigger] prev[k]));
            assert(forall|k: int| 0 <= k < prev.len() ==> prev[k] < last);
        } else {
            assert(w == prev);
        }
    }
}

/// What the tally reports, stated declaratively: a proposal id is among the
/// winners exactly when its vote count equals the maximum count, and the
/// winner list ascends strictly by id.
pub proof fn lemma_winners_of_characterization(counts: Seq<int>)
    requires
        counts.len() <= 256,
    ensures
        forall|id: ProposalId| #[trigger]
            winners_of(counts).contains(id) <==> (id < counts.len() && counts[id as int]
                == max_count(counts)),
        forall|k1: int, k2: int|
            0 <= k1 < k2 < winners_of(counts).len() ==> winners_of(counts)[k1] < winners_of(
                counts,
            )[k2],
{
    assert(counts.take(counts.len() as int) =~= counts);
    lemma_winners_upto_props(counts, counts.len() as int);
}

/// Computes the set of winning proposal ids from the registry's current
/// vote counts. Pure: the registry is only read.
pub fn compute_winners(registry: &ProposalRegistry) -> (w: Vec<ProposalId>)
    requires
        registry.wf(),
    ensures
        w@ == winners_of(registry.counts()),
{
    proof {
        registry.lemma_wf_bound();
    }
    let ghost counts = registry.counts();
    let n = registry.len();
    let mut winning_vote_count: u32 = 0;
    let mut winners: Vec<ProposalId> = Vec::new();
    let mut i: usize = 0;
    proof {
        assert(counts.take(0) =~= Seq::<int>::empty());
    }
    while i < n
        invariant
            registry.wf(),
            counts == registry.counts(),
            n == counts.len(),
            n <= 256,
            i <= n,
            winning_vote_count as int == max_count(counts.take(i as int)),
            winners@ == winners_upto(counts, i as int),
        decreases n - i,
    {
        let c = registry.count_at(i);
        proof {
            lemma_max_count_take_step(counts, i as int + 1);
        }
        if c > winning_vote_count {
            winning_vote_count = c;
            let mut reset: Vec<ProposalId> = Vec::new();
            reset.push(i as u8);
            winners = reset;
            proof {
                assert(winners@ =~= seq![i as ProposalId]);
            }
        } else if c == winning_vote_count {
            winners.push(i as u8);
        }
        i = i + 1;
    }
    proof {
        assert(counts.take(n as int) =~= counts);
    }
    winners
}

} // verus!
