//! The search as a whole: which cores take part, and which of the workers'
//! solutions is the result.

use vstd::prelude::*;
use crate::hash::leading_zero_bits;
use crate::nonce::nonce_space;
use crate::solution::{empty_solution, Solution, SolutionView};
use crate::worker::{
    hash_at, lemma_local_best_dominates, lemma_local_best_is_first_maximum, local_best,
};

verus! {

/// `core_affinity::get_core_ids` asks the system on which cores the current
/// thread may run. The answer depends on the machine; where the system gives
/// none, neither does this.
#[verifier::external_body]
pub(crate) fn available_cores() -> (cores: Option<Vec<usize>>)
{
    core_affinity::get_core_ids().map(|ids| ids.into_iter().map(|core| core.id).collect())
}

/// The number of workers of a search: as many as were asked for, but no more
/// than there are cores.
pub open spec fn worker_count(requested: u64, available: nat) -> nat {
    if requested <= available {
        requested as nat
    } else {
        available
    }
}

/// The cores that take part in a search: the first `cores` of those
/// available, or all of them where there are fewer.
pub fn select_cores(core_ids: &Vec<usize>, cores: u64) -> (selected: Vec<usize>)
    ensures
        selected@ == core_ids@.take(worker_count(cores, core_ids@.len()) as int),
{
    let mut selected: Vec<usize> = Vec::new();
    let mut i: usize = 0;
    while i < core_ids.len() && (i as u64) < cores
        invariant
            i <= core_ids.len(),
            i <= cores,
            selected@ == core_ids@.take(i as int),
        decreases core_ids.len() - i,
    {
        selected.push(core_ids[i]);
        i += 1;
        assert(selected@ =~= core_ids@.take(i as int));
    }
    selected
}

/// The cores of this machine that take part in a search with `cores`
/// workers, or `None` where the system does not tell its cores.
pub fn worker_cores(cores: u64) -> (selected: Option<Vec<usize>>)
    ensures
        selected matches Some(ids) ==> ids@.len() <= cores,
{
    plan_cores(available_cores(), cores)
}

/// The cores that take part in a search, given what the system told of its
/// cores: the first `cores` of them, or all of them where there are fewer,
/// and `None` where the system told nothing.
pub fn plan_cores(available: Option<Vec<usize>>, cores: u64) -> (selected: Option<Vec<usize>>)
    ensures
        match available {
            Some(all) => selected matches Some(ids) && ids@ == all@.take(
                worker_count(cores, all@.len()) as int,
            ),
            None => selected is None,
        },
{
    match available {
        Some(all) => Some(select_cores(&all, cores)),
        None => None,
    }
}

/// The solutions of the workers as mathematical values, in the order of the
/// workers.
pub open spec fn views(results: Seq<Solution>) -> Seq<SolutionView> {
    results.map_values(|solution: Solution| solution@)
}

/// The result of a search: the workers' solutions are gone through in
/// order, from the solution of difficulty zero at nonce zero, and one
/// replaces the best so far only if its difficulty is strictly higher.
pub open spec fn best_of(results: Seq<SolutionView>) -> SolutionView
    decreases results.len(),
{
    if results.len() == 0 {
        empty_solution(0)
    } else {
        let best = best_of(results.drop_last());
        if results.last().difficulty > best.difficulty {
            results.last()
        } else {
            best
        }
    }
}

/// Chooses the result of a search among the solutions of its workers: the
/// one of highest difficulty, and among equals the one of the earliest
/// worker. Where no worker found a hash, the result is the solution of
/// difficulty zero.
pub fn aggregate(results: &Vec<Solution>) -> (best: Solution)
    ensures
        best@ == best_of(views(results@)),
{
    let mut best = Solution::default();
    let mut i: usize = 0;
    while i < results.len()
        invariant
            i <= results.len(),
            best@ == best_of(views(results@).take(i as int)),
        decreases results.len() - i,
    {
        let candidate = results[i];
        if candidate.difficulty > best.difficulty {
            best = candidate;
        }
        assert(views(results@).take(i + 1).drop_last() =~= views(results@).take(i as int));
        i += 1;
    }
    assert(views(results@).take(results.len() as int) =~= views(results@));
    best
}

/// The result of a search is at least as difficult as the solution of each
/// worker.
pub proof fn lemma_best_of_dominates(results: Seq<SolutionView>, i: int)
    requires
        0 <= i < results.len(),
    ensures
        best_of(results).difficulty >= results[i].difficulty,
    decreases results.len(),
{
    if i < results.len() - 1 {
        lemma_best_of_dominates(results.drop_last(), i);
    }
}

/// The difficulty of the result is the highest among the workers: some
/// worker's solution has it.
pub proof fn lemma_best_of_is_attained(results: Seq<SolutionView>) -> (i: int)
    requires
        results.len() > 0,
    ensures
        0 <= i < results.len(),
        best_of(results).difficulty == results[i].difficulty,
        forall|j: int| 0 <= j < results.len() ==> results[j].difficulty <= results[i].difficulty,
    decreases results.len(),
{
    let i = if results.len() == 1 {
        assert(best_of(results.drop_last()) == empty_solution(0));
        0
    } else {
        let before = lemma_best_of_is_attained(results.drop_last());
        if results.last().difficulty > best_of(results.drop_last()).difficulty {
            results.len() - 1
        } else {
            before
        }
    };
    assert forall|j: int| 0 <= j < results.len() implies results[j].difficulty
        <= results[i].difficulty by {
        lemma_best_of_dominates(results, j);
    }
    i
}

/// Among workers of equal difficulty the earliest wins: the result is the
/// solution of the first worker whose difficulty is the highest, where that
/// difficulty is above zero.
pub proof fn lemma_first_maximum_wins(results: Seq<SolutionView>, i: int)
    requires
        0 <= i < results.len(),
        results[i].difficulty > 0,
        forall|j: int| 0 <= j < results.len() ==> results[j].difficulty <= results[i].difficulty,
        forall|j: int| 0 <= j < i ==> results[j].difficulty < results[i].difficulty,
    ensures
        best_of(results) == results[i],
    decreases results.len(),
{
    let before = results.drop_last();
    if i < results.len() - 1 {
        lemma_first_maximum_wins(before, i);
        assert(before[i] == results[i]);
    } else if before.len() > 0 {
        let k = lemma_best_of_is_attained(before);
        assert(before[k] == results[k]);
    } else {
        assert(best_of(before) == empty_solution(0));
    }
}

/// Where no worker found a hash of difficulty above zero, the result is the
/// solution of difficulty zero at nonce zero.
pub proof fn lemma_nothing_found(results: Seq<SolutionView>)
    requires
        forall|j: int| 0 <= j < results.len() ==> results[j].difficulty == 0,
    ensures
        best_of(results) == empty_solution(0),
    decreases results.len(),
{
    if results.len() > 0 {
        lemma_nothing_found(results.drop_last());
    }
}

/// What the workers of a search report: worker `i` has hashed `counts[i]`
/// nonces from `starts[i]` on.
pub open spec fn worker_bests(challenge: Seq<u8>, starts: Seq<u64>, counts: Seq<nat>) -> Seq<
    SolutionView,
> {
    Seq::new(starts.len(), |i: int| local_best(challenge, starts[i], counts[i]))
}

/// No nonce that any worker hashed gives a hash of higher difficulty than
/// the result of the search.
pub proof fn lemma_search_dominates(
    challenge: Seq<u8>,
    starts: Seq<u64>,
    counts: Seq<nat>,
    worker: int,
    nonce: u64,
)
    requires
        starts.len() == counts.len(),
        0 <= worker < starts.len(),
        starts[worker] <= nonce < starts[worker] + counts[worker] <= nonce_space(),
    ensures
        hash_at(challenge, nonce) matches Some(hx) ==> leading_zero_bits(hx.h) <= best_of(
            worker_bests(challenge, starts, counts),
        ).difficulty,
{
    lemma_local_best_dominates(challenge, starts[worker], counts[worker], nonce);
    lemma_best_of_dominates(worker_bests(challenge, starts, counts), worker);
}

/// The result of a search with a single worker, which starts at nonce zero,
/// is that worker's best, and no nonce below `count`, the number the worker
/// reached before its deadline, gives a hash of higher difficulty.
pub proof fn lemma_single_worker(challenge: Seq<u8>, count: nat, nonce: u64)
    requires
        nonce < count <= nonce_space(),
    ensures
        best_of(seq![local_best(challenge, 0, count)]) == local_best(challenge, 0, count),
        hash_at(challenge, nonce) matches Some(hx) ==> leading_zero_bits(hx.h) <= best_of(
            seq![local_best(challenge, 0, count)],
        ).difficulty,
{
    let results = seq![local_best(challenge, 0, count)];
    lemma_local_best_is_first_maximum(challenge, 0, count);
    lemma_local_best_dominates(challenge, 0, count, nonce);
    assert(results.drop_last().len() == 0);
    assert(best_of(results.drop_last()) == empty_solution(0));
    assert(results.last() == local_best(challenge, 0, count));
}

} // verus!
