use ore_miner::solution::{publish, Solution};
use std::sync::atomic::{AtomicU32, Ordering};

fn hash_with(h: [u8; 32]) -> ore_miner::hash::Hash {
    ore_miner::hash::Hash { d: [7u8; 16], h }
}

#[test]
fn default_hash_is_zero() {
    let hash = ore_miner::hash::Hash::default();
    assert_eq!(hash.d, [0u8; 16]);
    assert_eq!(hash.h, [0u8; 32]);
}

#[test]
fn difficulty_counts_leading_zero_bits() {
    let mut h = [0xffu8; 32];
    assert_eq!(hash_with(h).difficulty(), 0);
    h[0] = 0x7f;
    assert_eq!(hash_with(h).difficulty(), 1);
    h[0] = 0x01;
    assert_eq!(hash_with(h).difficulty(), 7);
    h[0] = 0x00;
    h[1] = 0x10;
    assert_eq!(hash_with(h).difficulty(), 11);
    h[1] = 0x00;
    h[2] = 0x00;
    h[3] = 0x80;
    assert_eq!(hash_with(h).difficulty(), 24);
}

#[test]
fn difficulty_stops_at_first_nonzero_byte() {
    let mut h = [0u8; 32];
    h[0] = 0x20;
    h[1] = 0x00;
    assert_eq!(hash_with(h).difficulty(), 2);
}

#[test]
fn difficulty_of_all_zero_hash() {
    assert_eq!(hash_with([0u8; 32]).difficulty(), 256);
}

#[test]
fn default_solution_has_difficulty_zero() {
    let solution = Solution::default();
    assert_eq!(solution.nonce, 0);
    assert_eq!(solution.difficulty, 0);
    assert_eq!(solution.hash, ore_miner::hash::Hash::default());
}

#[test]
fn starting_solution_keeps_its_nonce() {
    let solution = Solution::starting_at(42);
    assert_eq!(solution.nonce, 42);
    assert_eq!(solution.difficulty, 0);
    assert_eq!(solution.hash, ore_miner::hash::Hash::default());
}

#[test]
fn observe_takes_a_more_difficult_hash() {
    let progress = AtomicU32::new(0);
    let mut best = Solution::starting_at(10);
    let mut h = [0xffu8; 32];
    h[0] = 0x0f;
    best.observe(12, Some(hash_with(h)), &progress);
    assert_eq!(best, Solution { nonce: 12, difficulty: 4, hash: hash_with(h) });
    assert_eq!(progress.load(Ordering::Relaxed), 4);
}

#[test]
fn observe_keeps_the_first_of_equal_difficulty() {
    let progress = AtomicU32::new(0);
    let mut best = Solution::starting_at(0);
    let mut first = [0xffu8; 32];
    first[0] = 0x1f;
    let mut second = [0x00u8; 32];
    second[0] = 0x10;
    best.observe(3, Some(hash_with(first)), &progress);
    best.observe(4, Some(hash_with(second)), &progress);
    assert_eq!(best, Solution { nonce: 3, difficulty: 3, hash: hash_with(first) });
}

#[test]
fn observe_ignores_a_hash_of_difficulty_zero() {
    let progress = AtomicU32::new(0);
    let mut best = Solution::starting_at(5);
    best.observe(5, Some(hash_with([0xffu8; 32])), &progress);
    assert_eq!(best, Solution::starting_at(5));
    assert_eq!(progress.load(Ordering::Relaxed), 0);
}

#[test]
fn failed_hashes_never_update_the_best() {
    let progress = AtomicU32::new(0);
    let start: u64 = 1_000;
    let mut best = Solution::starting_at(start);
    for nonce in start..start + 500 {
        best.observe(nonce, None, &progress);
    }
    assert_eq!(best, Solution::starting_at(start));
    assert_eq!(best.difficulty, 0);
    assert_eq!(progress.load(Ordering::Relaxed), 0);
}

#[test]
fn observe_publishes_even_without_improvement() {
    let progress = AtomicU32::new(0);
    let mut best = Solution::starting_at(0);
    let mut high = [0u8; 32];
    high[1] = 0x01;
    let mut low = [0xffu8; 32];
    low[0] = 0x3f;
    best.observe(0, Some(hash_with(high)), &progress);
    assert_eq!(progress.load(Ordering::Relaxed), 15);
    progress.store(1, Ordering::Relaxed);
    best.observe(1, Some(hash_with(low)), &progress);
    assert_eq!(best.nonce, 0);
    assert_eq!(best.difficulty, 15);
    assert_eq!(progress.load(Ordering::Relaxed), 2);
}

#[test]
fn publish_only_raises() {
    let progress = AtomicU32::new(9);
    publish(&progress, 3);
    assert_eq!(progress.load(Ordering::Relaxed), 9);
    publish(&progress, 9);
    assert_eq!(progress.load(Ordering::Relaxed), 9);
    publish(&progress, 17);
    assert_eq!(progress.load(Ordering::Relaxed), 17);
}
