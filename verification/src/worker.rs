//! One worker of a search: a scan of consecutive nonces that ends at a
//! deadline.

use vstd::prelude::*;
use crate::hash::{drillx_hash, hash_with_memory, leading_zero_bits, HashView};
use crate::nonce::{block_start, le_bytes, nonce_bytes, nonce_space, start_nonce};
use crate::solution::{consider, empty_solution, Solution, SolutionView};
use core::sync::atomic::AtomicU32;
use std::time::Instant;

verus! {

/// A reading of the monotonic clock, `std::time::Instant`.
#[verifier::external_type_specification]
#[verifier::external_body]
pub struct ExInstant(Instant);

/// `Instant::now` reads the clock.
pub assume_specification[ Instant::now ]() -> (now: Instant)
;

/// `Instant::elapsed` gives the time that has passed since the reading.
pub assume_specification[ Instant::elapsed ](timer: &Instant) -> (elapsed: core::time::Duration)
;

/// `Duration::as_secs` gives the whole seconds of a duration.
pub assume_specification[ core::time::Duration::as_secs ](duration: &core::time::Duration) -> (secs: u64)
;

/// The number of cores that the affinity mask of a thread can name.
pub const AFFINITY_MASK_BITS: usize = 1024;

/// `core_affinity::set_for_current` asks the system to run the current
/// thread on one core only, and says whether the system agreed. It marks the
/// core in a mask of `AFFINITY_MASK_BITS` bits, so the core's number has to
/// be below that.
#[verifier::external_body]
pub(crate) fn pin_to_core(core: usize) -> (pinned: bool)
    requires
        core < AFFINITY_MASK_BITS,
{
    core_affinity::set_for_current(core_affinity::CoreId { id: core })
}

/// The state of the miner's account that a search reads: the challenge of
/// the current round.
#[derive(Clone, Copy, Debug, PartialEq, Eq)]
pub struct Proof {
    pub challenge: [u8; 32],
}

/// What a worker reports when its time is up.
#[derive(Clone, Copy, Debug, PartialEq, Eq)]
pub struct WorkerResult {
    /// The best solution among the nonces that the worker hashed.
    pub best: Solution,
    /// The last nonce that the worker hashed.
    pub last_nonce: u64,
}

/// What hashing the challenge with a nonce comes to.
pub open spec fn hash_at(challenge: Seq<u8>, nonce: u64) -> Option<HashView> {
    drillx_hash(challenge, le_bytes(nonce))
}

/// The best solution of a worker that has hashed `count` consecutive nonces
/// from `start` on. Among hashes of the same difficulty the one of the
/// lowest nonce stays.
pub open spec fn local_best(challenge: Seq<u8>, start: u64, count: nat) -> SolutionView
    decreases count,
{
    if count == 0 {
        empty_solution(start)
    } else {
        let nonce = (start + count - 1) as u64;
        consider(local_best(challenge, start, (count - 1) as nat), nonce, hash_at(challenge, nonce))
    }
}

/// Hashes the challenge with `start`, `start + 1` and so on, and keeps the
/// hash of highest difficulty. The scan ends when more than `cutoff_time`
/// whole seconds have passed since it began, or with the last nonce there
/// is. At least one nonce is hashed, and every difficulty found is published
/// to `progress`.
pub fn scan(
    memory: &mut equix::SolverMemory,
    challenge: &[u8; 32],
    start: u64,
    cutoff_time: u64,
    progress: &AtomicU32,
) -> (result: WorkerResult)
    ensures
        start <= result.last_nonce,
        result.best@ == local_best(
            challenge@,
            start,
            (result.last_nonce - start + 1) as nat,
        ),
{
    let timer = Instant::now();
    let mut nonce = start;
    let mut best = Solution::starting_at(start);
    loop
        invariant_except_break
            best@ == local_best(challenge@, start, (nonce - start) as nat),
        invariant
            start <= nonce,
        ensures
            best@ == local_best(challenge@, start, (nonce - start + 1) as nat),
        decreases u64::MAX - nonce,
    {
        let bytes = nonce_bytes(nonce);
        let outcome = hash_with_memory(memory, challenge, &bytes);
        best.observe(nonce, outcome, progress);
        if nonce == u64::MAX || timer.elapsed().as_secs() > cutoff_time {
            break ;
        }
        nonce += 1;
    }
    WorkerResult { best, last_nonce: nonce }
}

/// The work of worker `core` out of `cores`: it asks for its thread to stay
/// on its core, which may be refused without harm, and scans from the start
/// of its block of nonces until the deadline.
pub fn run_worker(
    proof: &Proof,
    cores: u64,
    core: usize,
    cutoff_time: u64,
    progress: &AtomicU32,
) -> (result: WorkerResult)
    requires
        cores >= 1,
        block_start(cores, core as u64) <= u64::MAX,
    ensures
        block_start(cores, core as u64) <= result.last_nonce,
        result.best@ == local_best(
            proof.challenge@,
            block_start(cores, core as u64) as u64,
            (result.last_nonce - block_start(cores, core as u64) + 1) as nat,
        ),
{
    if core < AFFINITY_MASK_BITS {
        let _ = pin_to_core(core);
    }
    let mut memory = equix::SolverMemory::new();
    let start = start_nonce(cores, core as u64);
    scan(&mut memory, &proof.challenge, start, cutoff_time, progress)
}

/// A worker whose hashes all fail ends with the solution of difficulty zero
/// that it began with.
pub proof fn lemma_failed_hashes_find_nothing(challenge: Seq<u8>, start: u64, count: nat)
    requires
        start + count <= nonce_space(),
        forall|nonce: u64| start <= nonce < start + count ==> hash_at(challenge, nonce) is None,
    ensures
        local_best(challenge, start, count) == empty_solution(start),
    decreases count,
{
    if count > 0 {
        lemma_failed_hashes_find_nothing(challenge, start, (count - 1) as nat);
    }
}

/// No nonce that a worker hashed gives a hash of higher difficulty than the
/// worker's best.
pub proof fn lemma_local_best_dominates(challenge: Seq<u8>, start: u64, count: nat, nonce: u64)
    requires
        start <= nonce < start + count <= nonce_space(),
    ensures
        hash_at(challenge, nonce) matches Some(hx) ==> leading_zero_bits(hx.h) <= local_best(
            challenge,
            start,
            count,
        ).difficulty,
    decreases count,
{
    if nonce < start + count - 1 {
        lemma_local_best_dominates(challenge, start, (count - 1) as nat, nonce);
    }
}

/// A worker's best is what it began with, as long as it found no hash of
/// difficulty above zero. After that it is the hash of one of the nonces that
/// the worker hashed, with that hash's difficulty, and every earlier nonce
/// gave a hash of lower difficulty or none.
pub proof fn lemma_local_best_is_first_maximum(challenge: Seq<u8>, start: u64, count: nat)
    requires
        start + count <= nonce_space(),
    ensures
        ({
            let best = local_best(challenge, start, count);
            if best.difficulty == 0 {
                best == empty_solution(start)
            } else {
                &&& start <= best.nonce < start + count
                &&& hash_at(challenge, best.nonce) == Some(best.hash)
                &&& best.difficulty == leading_zero_bits(best.hash.h)
                &&& forall|earlier: u64|
                    start <= earlier < best.nonce ==> (#[trigger] hash_at(challenge, earlier)
                        matches Some(hx) ==> leading_zero_bits(hx.h) < best.difficulty)
            }
        }),
    decreases count,
{
    if count > 0 {
        let before = local_best(challenge, start, (count - 1) as nat);
        let best = local_best(challenge, start, count);
        lemma_local_best_is_first_maximum(challenge, start, (count - 1) as nat);
        if best != before {
            assert forall|earlier: u64| start <= earlier < best.nonce implies (#[trigger] hash_at(
                challenge,
                earlier,
            ) matches Some(hx) ==> leading_zero_bits(hx.h) < best.difficulty) by {
                lemma_local_best_dominates(challenge, start, (count - 1) as nat, earlier);
            }
        }
    }
}

} // verus!
