//! The best proof of work found so far.

use vstd::prelude::*;
use crate::hash::{leading_zero_bits, outcome_view, zero_hash, HashView};
use core::sync::atomic::{AtomicU32, Ordering};

verus! {

/// The best proof of work of a round: a nonce, the hash it gives and the
/// difficulty of that hash.
#[derive(Clone, Copy, Debug, PartialEq, Eq)]
pub struct Solution {
    pub nonce: u64,
    pub difficulty: u32,
    pub hash: crate::hash::Hash,
}

/// A solution as mathematical values.
pub struct SolutionView {
    pub nonce: u64,
    pub difficulty: nat,
    pub hash: HashView,
}

impl View for Solution {
    type V = SolutionView;

    open spec fn view(&self) -> SolutionView {
        SolutionView { nonce: self.nonce, difficulty: self.difficulty as nat, hash: self.hash@ }
    }
}

/// The solution of difficulty zero with which a search that starts at
/// `nonce` begins.
pub open spec fn empty_solution(nonce: u64) -> SolutionView {
    SolutionView { nonce, difficulty: 0, hash: zero_hash() }
}

/// The best solution once the outcome of hashing `nonce` is known: the new
/// hash replaces the best so far only if its difficulty is strictly higher.
pub open spec fn consider(best: SolutionView, nonce: u64, outcome: Option<HashView>) -> SolutionView {
    match outcome {
        Some(hx) => if leading_zero_bits(hx.h) > best.difficulty {
            SolutionView { nonce, difficulty: leading_zero_bits(hx.h), hash: hx }
        } else {
            best
        },
        None => best,
    }
}

impl Default for Solution {
    fn default() -> (solution: Solution)
        ensures
            solution@ == empty_solution(0),
    {
        Solution { nonce: 0, difficulty: 0, hash: crate::hash::Hash::default() }
    }
}

impl Solution {
    /// The solution of difficulty zero with which a worker that starts at
    /// `nonce` begins.
    pub fn starting_at(nonce: u64) -> (solution: Solution)
        ensures
            solution@ == empty_solution(nonce),
    {
        Solution { nonce, difficulty: 0, hash: crate::hash::Hash::default() }
    }

    /// Takes in the outcome of hashing `nonce`. A failed attempt changes
    /// nothing. A hash replaces the solution if its difficulty is strictly
    /// higher, and its difficulty is published to `progress` in any case.
    pub fn observe(&mut self, nonce: u64, outcome: Option<crate::hash::Hash>, progress: &AtomicU32)
        ensures
            final(self)@ == consider(old(self)@, nonce, outcome_view(outcome)),
    {
        match outcome {
            Some(hx) => {
                let difficulty = hx.difficulty();
                if difficulty > self.difficulty {
                    *self = Solution { nonce, difficulty, hash: hx };
                }
                publish(progress, difficulty);
            },
            None => {},
        }
    }
}

/// Raises the published difficulty to `difficulty` if that is higher than
/// what was last read. The cell is shared among the workers and read for
/// display only: writers may overtake each other, and nothing is decided by
/// what it holds.
pub fn publish(progress: &AtomicU32, difficulty: u32) {
    if difficulty > progress.load(Ordering::Relaxed) {
        progress.store(difficulty, Ordering::Relaxed);
    }
}

} // verus!
