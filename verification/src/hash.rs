//! Hashes of the proof of work, and their difficulty.

use vstd::prelude::*;
use vstd::std_specs::bits::u8_leading_zeros;

verus! {

/// The scratch memory of the solver behind `drillx`, `equix::SolverMemory`.
/// A worker owns one and hands it to every hash it computes; nothing is
/// stated of what it holds.
#[verifier::external_type_specification]
#[verifier::external_body]
pub struct ExSolverMemory(equix::SolverMemory);

/// `equix::SolverMemory::new` allocates a fresh scratch memory.
pub assume_specification[ equix::SolverMemory::new ]() -> (memory: equix::SolverMemory)
;

/// The result of hashing a challenge with a nonce.
#[derive(Clone, Copy, Debug, PartialEq, Eq)]
pub struct Hash {
    /// The digest: the solution that is submitted as proof of work.
    pub d: [u8; 16],
    /// The hash of the digest and the nonce, whose leading zeros count.
    pub h: [u8; 32],
}

/// A hash as two sequences of bytes.
pub struct HashView {
    pub d: Seq<u8>,
    pub h: Seq<u8>,
}

impl View for Hash {
    type V = HashView;

    open spec fn view(&self) -> HashView {
        HashView { d: self.d@, h: self.h@ }
    }
}

/// The hash whose bytes are all zero.
pub open spec fn zero_hash() -> HashView {
    HashView { d: Seq::new(16, |i: int| 0u8), h: Seq::new(32, |i: int| 0u8) }
}

/// What an attempt to hash came to, as a view.
pub open spec fn outcome_view(outcome: Option<Hash>) -> Option<HashView> {
    match outcome {
        Some(hx) => Some(hx@),
        None => None,
    }
}

impl Default for Hash {
    fn default() -> (hash: Hash)
        ensures
            hash@ == zero_hash(),
    {
        let hash = Hash { d: [0u8; 16], h: [0u8; 32] };
        assert(hash.d@ =~= zero_hash().d);
        assert(hash.h@ =~= zero_hash().h);
        hash
    }
}

/// The number of zero bits at the front of a sequence of bytes: the leading
/// zeros of each byte are counted up to and including the first byte that is
/// not zero.
pub open spec fn leading_zero_bits(bytes: Seq<u8>) -> nat
    decreases bytes.len(),
{
    if bytes.len() == 0 {
        0
    } else {
        let zeros = u8_leading_zeros(bytes[0]) as nat;
        if zeros < 8 {
            zeros
        } else {
            zeros + leading_zero_bits(bytes.skip(1))
        }
    }
}

/// `drillx::difficulty` walks the 32 bytes from the front, adds up the
/// leading zeros of each byte and stops after the first byte that has fewer
/// than eight of them.
pub assume_specification[ drillx::difficulty ](hash: [u8; 32]) -> (count: u32)
    ensures
        count == leading_zero_bits(hash@),
;

impl Hash {
    /// The difficulty of the hash: the number of its leading zero bits.
    pub fn difficulty(&self) -> (count: u32)
        ensures
            count == leading_zero_bits(self.h@),
    {
        drillx::difficulty(self.h)
    }
}

/// The hash that `drillx::hash_with_memory` computes for a challenge of 32
/// bytes and a nonce of 8 bytes, or `None` where it reports an error.
pub uninterp spec fn drillx_hash(challenge: Seq<u8>, nonce: Seq<u8>) -> Option<HashView>;

/// `drillx::hash_with_memory` solves the puzzle that the challenge and the
/// nonce seed, and hashes the first solution with the nonce. The outcome
/// depends on the challenge and the nonce alone; for some seeds there is no
/// solution, and the call reports an error, which is handed on as `None`.
#[verifier::external_body]
pub(crate) fn hash_with_memory(
    memory: &mut equix::SolverMemory,
    challenge: &[u8; 32],
    nonce: &[u8; 8],
) -> (outcome: Option<Hash>)
    ensures
        outcome_view(outcome) == drillx_hash(challenge@, nonce@),
{
    match drillx::hash_with_memory(memory, challenge, nonce) {
        Ok(hx) => Some(Hash { d: hx.d, h: hx.h }),
        Err(_) => None,
    }
}

} // verus!
