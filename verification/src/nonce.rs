//! The nonce space: how a nonce is written as bytes, and how the space is
//! divided among the workers of a search.

use vstd::prelude::*;
use vstd::arithmetic::div_mod::lemma_fundamental_div_mod_converse;

verus! {

/// The number of nonces: one more than the largest 64-bit value.
pub open spec fn nonce_space() -> int {
    0x1_0000_0000_0000_0000
}

/// The eight bytes of a nonce, least significant byte first.
pub open spec fn le_bytes(nonce: u64) -> Seq<u8> {
    seq![
        (nonce % 0x100) as u8,
        (nonce / 0x100 % 0x100) as u8,
        (nonce / 0x1_0000 % 0x100) as u8,
        (nonce / 0x100_0000 % 0x100) as u8,
        (nonce / 0x1_0000_0000 % 0x100) as u8,
        (nonce / 0x100_0000_0000 % 0x100) as u8,
        (nonce / 0x1_0000_0000_0000 % 0x100) as u8,
        (nonce / 0x100_0000_0000_0000 % 0x100) as u8,
    ]
}

/// Writes a nonce as the eight bytes that are hashed and submitted.
pub fn nonce_bytes(nonce: u64) -> (bytes: [u8; 8])
    ensures
        bytes@ == le_bytes(nonce),
{
    let bytes: [u8; 8] = [
        (nonce % 0x100) as u8,
        (nonce / 0x100 % 0x100) as u8,
        (nonce / 0x1_0000 % 0x100) as u8,
        (nonce / 0x100_0000 % 0x100) as u8,
        (nonce / 0x1_0000_0000 % 0x100) as u8,
        (nonce / 0x100_0000_0000 % 0x100) as u8,
        (nonce / 0x1_0000_0000_0000 % 0x100) as u8,
        (nonce / 0x100_0000_0000_0000 % 0x100) as u8,
    ];
    assert(bytes@ =~= le_bytes(nonce));
    bytes
}

/// The distance between the first nonces of two neighbouring workers.
pub open spec fn stride(cores: u64) -> int {
    u64::MAX as int / cores as int
}

/// The first nonce of the block of worker `index`, out of `cores` workers.
pub open spec fn block_start(cores: u64, index: u64) -> int {
    stride(cores) * index
}

/// One past the last nonce of the block of worker `index`: the next
/// worker's first nonce, or the end of the nonce space for the last worker.
pub open spec fn block_end(cores: u64, index: u64) -> int {
    if index + 1 < cores {
        block_start(cores, (index + 1) as u64)
    } else {
        nonce_space()
    }
}

/// Whether a nonce lies in the block of worker `index`.
pub open spec fn in_block(cores: u64, index: u64, nonce: u64) -> bool {
    block_start(cores, index) <= nonce < block_end(cores, index)
}

/// The worker in whose block a nonce lies.
pub open spec fn block_owner(cores: u64, nonce: u64) -> int {
    if nonce as int / stride(cores) >= cores {
        cores - 1
    } else {
        nonce as int / stride(cores)
    }
}

/// The nonce at which worker `index` out of `cores` starts to scan.
pub fn start_nonce(cores: u64, index: u64) -> (nonce: u64)
    requires
        cores >= 1,
        block_start(cores, index) <= u64::MAX,
    ensures
        nonce == block_start(cores, index),
{
    u64::MAX / cores * index
}

/// The start of every worker's block, and of a block just past the last
/// worker's, fits in a nonce.
pub proof fn lemma_block_start_fits(cores: u64, index: u64)
    requires
        cores >= 1,
        index <= cores,
    ensures
        0 <= block_start(cores, index) <= u64::MAX,
{
    let s = stride(cores);
    assert(0 <= s && s * cores <= u64::MAX) by (nonlinear_arith)
        requires
            s == u64::MAX as int / cores as int,
            cores >= 1,
    ;
    assert(0 <= s * index <= s * cores) by (nonlinear_arith)
        requires
            0 <= s,
            0 <= index <= cores,
    ;
}

/// The blocks of the workers follow one another without gap or overlap:
/// the first starts at nonce zero, each is non-empty and ends where the next
/// starts, and the last ends with the nonce space.
pub proof fn lemma_blocks_are_contiguous(cores: u64, index: u64)
    requires
        cores >= 1,
        index < cores,
    ensures
        block_start(cores, 0) == 0,
        0 <= block_start(cores, index) < block_end(cores, index) <= nonce_space(),
        index + 1 < cores ==> block_end(cores, index) == block_start(cores, (index + 1) as u64),
        index + 1 == cores ==> block_end(cores, index) == nonce_space(),
{
    let s = stride(cores);
    assert(1 <= s) by (nonlinear_arith)
        requires
            s == u64::MAX as int / cores as int,
            1 <= cores <= u64::MAX,
    ;
    lemma_block_start_fits(cores, index);
    if index + 1 < cores {
        lemma_block_start_fits(cores, (index + 1) as u64);
        assert(s * index < s * (index + 1)) by (nonlinear_arith)
            requires
                1 <= s,
        ;
    }
}

/// The blocks tile the nonce space: every nonce lies in the block of exactly
/// one worker.
pub proof fn lemma_blocks_tile(cores: u64, nonce: u64, index: u64)
    requires
        cores >= 1,
        index < cores,
    ensures
        0 <= block_owner(cores, nonce) < cores,
        in_block(cores, block_owner(cores, nonce) as u64, nonce),
        in_block(cores, index, nonce) ==> index == block_owner(cores, nonce),
{
    let s = stride(cores);
    let n = nonce as int;
    let q = n / s;
    assert(1 <= s) by (nonlinear_arith)
        requires
            s == u64::MAX as int / cores as int,
            1 <= cores <= u64::MAX,
    ;
    assert(0 <= q && s * q <= n < s * (q + 1)) by (nonlinear_arith)
        requires
            q == n / s,
            1 <= s,
            0 <= n,
    ;
    let owner = block_owner(cores, nonce);
    assert(s * owner <= n) by (nonlinear_arith)
        requires
            0 <= owner <= q,
            s * q <= n,
            1 <= s,
    ;
    if owner + 1 < cores {
        assert(owner == q);
    }
    if in_block(cores, index, nonce) {
        assert(index <= q) by (nonlinear_arith)
            requires
                s * index <= n < s * (q + 1),
                1 <= s,
        ;
        if index + 1 < cores {
            assert(q < index + 1) by (nonlinear_arith)
                requires
                    s * q <= n < s * (index + 1),
                    1 <= s,
            ;
        }
    }
}

/// Unless the number of workers divides the size of the nonce space, worker
/// `index` starts at that size divided by the number of workers, rounded
/// down, times `index`. The first worker starts at nonce zero in any case.
pub proof fn lemma_block_start_formula(cores: u64, index: u64)
    requires
        cores >= 1,
        index == 0 || nonce_space() % (cores as int) != 0,
    ensures
        block_start(cores, index) == (nonce_space() / (cores as int)) * index,
{
    if index != 0 {
        let c = cores as int;
        let q = nonce_space() / c;
        let r = nonce_space() % c;
        assert(nonce_space() == q * c + r && 0 <= r < c) by (nonlinear_arith)
            requires
                q == nonce_space() / c,
                r == nonce_space() % c,
                c >= 1,
        ;
        assert(u64::MAX as int == q * c + (r - 1));
        lemma_fundamental_div_mod_converse(u64::MAX as int, c, q, r - 1);
    }
}

} // verus!
