//! Cycles in the dependency graph.
//!
//! A task chain can only come to its end if no activity waits, directly or
//! through others, for itself.
use vstd::prelude::*;
use crate::configuration::dependencies::{list_contains, ActivityDependencies};

verus! {

/// Whether the `i`-th activity of the graph depends on the `j`-th.
pub open spec fn spec_depends(deps: ActivityDependencies, i: int, j: int) -> bool {
    0 <= i < deps.entries@.len() && 0 <= j < deps.entries@.len() && deps.deps(i).contains(deps.id(j))
}

/// Whether `rank` puts every activity above all that it depends on.
pub open spec fn spec_ranked(deps: ActivityDependencies, rank: spec_fn(int) -> nat) -> bool {
    forall|i: int, j: int| #[trigger] spec_depends(deps, i, j) ==> rank(j) < rank(i)
}

/// Whether the graph has no cycle: its activities can be ranked so that each
/// one stands above all that it depends on.
pub open spec fn spec_acyclic(deps: ActivityDependencies) -> bool {
    exists|rank: spec_fn(int) -> nat| spec_ranked(deps, rank)
}

/// Whether the `i`-th activity waits for nothing that is not settled.
pub open spec fn spec_free(deps: ActivityDependencies, settled: Seq<bool>, i: int) -> bool {
    forall|j: int| #[trigger] spec_depends(deps, i, j) ==> settled[j]
}

/// Whether every activity that is not settled waits for another one that is
/// not settled.
pub open spec fn spec_stuck(deps: ActivityDependencies, settled: Seq<bool>) -> bool {
    forall|i: int|
        0 <= i < deps.entries@.len() && !settled[i] ==> !#[trigger] spec_free(deps, settled, i)
}

/// Where every unsettled activity waits for another unsettled one and one
/// is unsettled, no ranking exists: from that one the ranks would fall
/// without end.
proof fn lemma_stuck_has_no_rank(
    deps: ActivityDependencies,
    settled: Seq<bool>,
    rank: spec_fn(int) -> nat,
    i: int,
)
    requires
        settled.len() == deps.entries@.len(),
        spec_stuck(deps, settled),
        0 <= i < deps.entries@.len(),
        !settled[i],
    ensures
        !spec_ranked(deps, rank),
    decreases rank(i),
{
    if spec_ranked(deps, rank) {
        assert(!spec_free(deps, settled, i));
        let j = choose|j: int| #[trigger] spec_depends(deps, i, j) && !settled[j];
        assert(rank(j) < rank(i));
        lemma_stuck_has_no_rank(deps, settled, rank, j);
    }
}

/// Checks whether the `i`-th activity waits for nothing that is not settled.
fn is_free(deps: &ActivityDependencies, settled: &Vec<bool>, i: usize) -> (b: bool)
    requires
        settled@.len() == deps.entries@.len(),
        i < deps.entries@.len(),
    ensures
        b == spec_free(*deps, settled@, i as int),
{
    let mut j: usize = 0;
    while j < deps.entries.len()
        invariant
            settled@.len() == deps.entries@.len(),
            i < deps.entries@.len(),
            j <= deps.entries@.len(),
            forall|k: int| 0 <= k < j && #[trigger] spec_depends(*deps, i as int, k) ==> settled@[k],
        decreases deps.entries@.len() - j,
    {
        if !settled[j] && list_contains(&deps.entries[i].1, deps.entries[j].0) {
            assert(spec_depends(*deps, i as int, j as int));
            return false;
        }
        j += 1;
    }
    true
}

/// Finds an unsettled activity that waits for nothing unsettled.
fn find_free(deps: &ActivityDependencies, settled: &Vec<bool>) -> (r: Option<usize>)
    requires
        settled@.len() == deps.entries@.len(),
    ensures
        r is Some ==> r->Some_0 < deps.entries@.len() && !settled@[r->Some_0 as int] && spec_free(
            *deps,
            settled@,
            r->Some_0 as int,
        ),
        r is None ==> spec_stuck(*deps, settled@),
{
    let mut i: usize = 0;
    while i < deps.entries.len()
        invariant
            settled@.len() == deps.entries@.len(),
            i <= deps.entries@.len(),
            forall|k: int| 0 <= k < i && !settled@[k] ==> !#[trigger] spec_free(*deps, settled@, k),
        decreases deps.entries@.len() - i,
    {
        if !settled[i] && is_free(deps, settled, i) {
            return Some(i);
        }
        i += 1;
    }
    None
}

/// The number of flags set among the first `upto`.
pub open spec fn spec_count(settled: Seq<bool>, upto: int) -> int
    decreases upto,
{
    if upto <= 0 {
        0
    } else if settled[upto - 1] {
        spec_count(settled, upto - 1) + 1
    } else {
        spec_count(settled, upto - 1)
    }
}

/// No more flags are set than there are; where fewer are set, one is not
/// set; where as many are set, all are set.
proof fn lemma_count(settled: Seq<bool>, upto: int)
    requires
        0 <= upto <= settled.len(),
    ensures
        0 <= spec_count(settled, upto) <= upto,
        spec_count(settled, upto) < upto ==> exists|k: int| 0 <= k < upto && !settled[k],
        spec_count(settled, upto) == upto ==> forall|k: int| 0 <= k < upto ==> settled[k],
    decreases upto,
{
    if upto > 0 {
        lemma_count(settled, upto - 1);
        if spec_count(settled, upto) < upto && settled[upto - 1] {
            let k = choose|k: int| 0 <= k < upto - 1 && !settled[k];
            assert(0 <= k < upto && !settled[k]);
        }
    }
}

/// Setting a flag that was not set makes one more flag set.
proof fn lemma_count_set(settled: Seq<bool>, i: int, upto: int)
    requires
        0 <= i < settled.len(),
        0 <= upto <= settled.len(),
        !settled[i],
    ensures
        spec_count(settled.update(i, true), upto) == spec_count(settled, upto) + if i < upto {
            1int
        } else {
            0int
        },
    decreases upto,
{
    if upto > 0 {
        lemma_count_set(settled, i, upto - 1);
    }
}

/// Checks whether the dependency graph has no cycle. One activity after the
/// other is settled, each once everything it waits for is settled; the graph
/// has a cycle exactly if that comes to a halt before all are settled.
/// Dependencies that are no activities of the graph are not looked at.
pub fn is_acyclic(deps: &ActivityDependencies) -> (b: bool)
    ensures
        b == spec_acyclic(*deps),
{
    let n = deps.entries.len();
    let mut settled: Vec<bool> = Vec::new();
    let mut i: usize = 0;
    while i < n
        invariant
            i <= n,
            settled@.len() == i,
            forall|k: int| 0 <= k < i ==> !settled@[k],
            spec_count(settled@, i as int) == 0,
        decreases n - i,
    {
        let ghost before = settled@;
        settled.push(false);
        i += 1;
        proof {
            lemma_count_same(before, settled@, i - 1);
        }
    }
    let ghost mut rank: Seq<nat> = Seq::new(n as nat, |k: int| 0nat);
    let mut round: usize = 0;
    while round < n
        invariant
            n == deps.entries@.len(),
            round <= n,
            settled@.len() == n,
            rank.len() == n,
            spec_count(settled@, n as int) == round,
            forall|k: int| 0 <= k < n && settled@[k] ==> rank[k] < round,
            forall|a: int, b: int|
                #[trigger] spec_depends(*deps, a, b) && settled@[a] ==> settled@[b] && rank[b]
                    < rank[a],
        decreases n - round,
    {
        match find_free(deps, &settled) {
            Some(i) => {
                let ghost before = settled@;
                settled.set(i, true);
                proof {
                    assert(settled@ =~= before.update(i as int, true));
                    lemma_count_set(before, i as int, n as int);
                    rank = rank.update(i as int, round as nat);
                    assert forall|a: int, b: int|
                        #[trigger] spec_depends(*deps, a, b) && settled@[a] implies settled@[b]
                        && rank[b] < rank[a] by {
                        if a == i {
                            assert(before[b]);
                        } else {
                            assert(before[a]);
                            assert(before[b]);
                        }
                    }
                }
            },
            None => {
                proof {
                    lemma_count(settled@, n as int);
                    let k = choose|k: int| 0 <= k < n && !settled@[k];
                    assert forall|rank2: spec_fn(int) -> nat| !spec_ranked(*deps, rank2) by {
                        lemma_stuck_has_no_rank(*deps, settled@, rank2, k);
                    }
                }
                return false;
            },
        }
        round += 1;
    }
    proof {
        lemma_count(settled@, n as int);
        let witness = |k: int| if 0 <= k < n { rank[k] } else { 0nat };
        assert(spec_ranked(*deps, witness)) by {
            assert forall|a: int, b: int| #[trigger] spec_depends(*deps, a, b) implies witness(b)
                < witness(a) by {
                assert(settled@[a]);
            }
        }
    }
    true
}

/// Flags that agree on the first `upto` places have as many set there.
proof fn lemma_count_same(a: Seq<bool>, b: Seq<bool>, upto: int)
    requires
        0 <= upto <= a.len(),
        upto <= b.len(),
        forall|k: int| 0 <= k < upto ==> a[k] == b[k],
    ensures
        spec_count(a, upto) == spec_count(b, upto),
    decreases upto,
{
    if upto > 0 {
        lemma_count_same(a, b, upto - 1);
    }
}

} // verus!
