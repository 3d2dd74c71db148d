//! Verification over a 32-byte base seed: the seed is split into 256
//! partitions, each partition seeds a reproducible generator that draws one
//! value, and the outcome holds iff every draw is non-zero.

use rand::rngs::StdRng;
use rand::Rng;
use rand::RngCore;
use rand::SeedableRng;
use rayon::iter::IndexedParallelIterator;
use rayon::iter::IntoParallelIterator;
use rayon::iter::ParallelIterator;
use vstd::prelude::*;

verus! {

/// The number of partitions a base seed is split into.
pub const PARTITIONS: usize = 256;

/// The length of a seed in bytes.
pub const SEED_LEN: usize = 32;

/// Where and how verification runs.
#[derive(Clone, Copy, Debug, PartialEq, Eq, Structural)]
pub enum VerifyPlacement {
    /// Partitions in parallel, in the calling task.
    DirectSync,
    /// Partitions in parallel, in a task of its own on the blocking pool.
    SpawnedBlocking,
    /// Partitions one at a time, in the calling task.
    SequentialDirect,
    /// Partitions one at a time, in a task of its own on the blocking pool.
    SequentialSpawned,
}

impl VerifyPlacement {
    /// Whether the partitions are evaluated in parallel.
    pub fn is_parallel(&self) -> (r: bool)
        ensures
            r == (*self is DirectSync || *self is SpawnedBlocking),
    {
        matches!(self, VerifyPlacement::DirectSync | VerifyPlacement::SpawnedBlocking)
    }

    /// Whether verification runs in a task of its own.
    pub fn is_spawned(&self) -> (r: bool)
        ensures
            r == (*self is SpawnedBlocking || *self is SequentialSpawned),
    {
        matches!(self, VerifyPlacement::SpawnedBlocking | VerifyPlacement::SequentialSpawned)
    }

    /// Verifies a fresh base seed as this placement evaluates partitions.
    pub fn run(&self) -> (r: bool)
        ensures
            exists|base: Seq<u8>| base.len() == SEED_LEN && r == verify_outcome(base),
    {
        if self.is_parallel() {
            verify_parallel()
        } else {
            verify_sequential()
        }
    }

    /// Verifies a given base seed as this placement evaluates partitions.
    pub fn run_with_seed(&self, base: &[u8; 32]) -> (r: bool)
        ensures
            r == verify_outcome(base@),
    {
        if self.is_parallel() {
            verify_seed_parallel(base)
        } else {
            verify_seed_sequential(base)
        }
    }
}

/// The first value that a reproducible generator (`StdRng`) seeded with
/// `seed` draws.
pub uninterp spec fn first_draw_of(seed: Seq<u8>) -> u64;

/// The seed of partition `index`: the base seed with its last byte advanced
/// by `index`, wrapping at 256.
pub open spec fn sub_seed_of(base: Seq<u8>, index: u8) -> Seq<u8> {
    base.update(31, ((base[31] + index) % 256) as u8)
}

/// The draws of all partitions, in partition order.
pub open spec fn partition_draws_of(base: Seq<u8>) -> Seq<u64> {
    Seq::new(256, |i: int| first_draw_of(sub_seed_of(base, i as u8)))
}

/// Whether every draw is strictly positive.
pub open spec fn all_positive(draws: Seq<u64>) -> bool {
    forall|i: int| 0 <= i < draws.len() ==> draws[i] > 0
}

/// The outcome of verifying a base seed.
pub open spec fn verify_outcome(base: Seq<u8>) -> bool {
    all_positive(partition_draws_of(base))
}

/// Relies on `StdRng::from_seed` followed by `RngCore::next_u64`: the
/// generator is deterministic, so the value depends on the seed alone.
#[verifier::external_body]
fn seeded_first_draw(seed: [u8; 32]) -> (r: u64)
    ensures
        r == first_draw_of(seed@),
{
    let mut rng = StdRng::from_seed(seed);
    rng.next_u64()
}

/// Relies on `rand::thread_rng` and `Rng::gen` for 32 random bytes; nothing
/// is known of them.
#[verifier::external_body]
fn random_base_seed() -> (r: [u8; 32]) {
    rand::thread_rng().gen::<[u8; 32]>()
}

/// The seed of partition `index`.
pub fn sub_seed(base: &[u8; 32], index: u8) -> (r: [u8; 32])
    ensures
        r@ == sub_seed_of(base@, index),
{
    let mut seed = *base;
    seed[31] = base[31].wrapping_add(index);
    assert(seed@ =~= sub_seed_of(base@, index));
    seed
}


/// The draw of partition `index`.
pub fn partition_draw(base: &[u8; 32], index: u8) -> (r: u64)
    ensures
        r == first_draw_of(sub_seed_of(base@, index)),
{
    seeded_first_draw(sub_seed(base, index))
}

/// Relies on rayon's indexed parallel iterator over `0..=255u8`, whose
/// `map` and `collect_into_vec` keep the order of the indices: the result
/// holds the closure's value for each index, in index order. The closure
/// calls `partition_draw` alone.
#[verifier::external_body]
fn parallel_partition_draws(base: [u8; 32]) -> (r: Vec<u64>)
    ensures
        r@ == partition_draws_of(base@),
{
    let mut draws = Vec::new();
    (0..=u8::MAX).into_par_iter().map(|c| partition_draw(&base, c)).collect_into_vec(&mut draws);
    draws
}

/// The draws of all partitions, evaluated one at a time in partition order.
pub fn sequential_draws(base: &[u8; 32]) -> (r: Vec<u64>)
    ensures
        r@ == partition_draws_of(base@),
{
    let mut draws: Vec<u64> = Vec::new();
    let mut i: usize = 0;
    while i < PARTITIONS
        invariant
            i <= PARTITIONS,
            draws@.len() == i,
            forall|j: int| 0 <= j < i ==> draws@[j] == partition_draws_of(base@)[j],
        decreases PARTITIONS - i,
    {
        let d = partition_draw(base, i as u8);
        draws.push(d);
        i = i + 1;
    }
    assert(draws@ =~= partition_draws_of(base@));
    draws
}

/// The draws of all partitions, evaluated in parallel on the worker pool.
pub fn parallel_draws(base: &[u8; 32]) -> (r: Vec<u64>)
    ensures
        r@ == partition_draws_of(base@),
{
    parallel_partition_draws(*base)
}

/// Whether every draw is strictly positive. Every draw is examined: the scan
/// does not stop at the first zero.
pub fn verdict_of(draws: &Vec<u64>) -> (r: bool)
    ensures
        r == all_positive(draws@),
{
    let mut verdict = true;
    let mut i: usize = 0;
    while i < draws.len()
        invariant
            i <= draws@.len(),
            verdict == (forall|j: int| 0 <= j < i ==> draws@[j] > 0),
        decreases draws@.len() - i,
    {
        if draws[i] == 0 {
            verdict = false;
        }
        i = i + 1;
    }
    verdict
}

/// Verifies a given base seed, one partition at a time.
pub fn verify_seed_sequential(base: &[u8; 32]) -> (r: bool)
    ensures
        r == verify_outcome(base@),
{
    let draws = sequential_draws(base);
    verdict_of(&draws)
}

/// Verifies a given base seed, the partitions in parallel.
pub fn verify_seed_parallel(base: &[u8; 32]) -> (r: bool)
    ensures
        r == verify_outcome(base@),
{
    let draws = parallel_draws(base);
    verdict_of(&draws)
}

/// Draws a fresh base seed and verifies it one partition at a time.
pub fn verify_sequential() -> (r: bool)
    ensures
        exists|base: Seq<u8>| base.len() == SEED_LEN && r == verify_outcome(base),
{
    let base = random_base_seed();
    verify_seed_sequential(&base)
}

/// Draws a fresh base seed and verifies it with the partitions in parallel.
pub fn verify_parallel() -> (r: bool)
    ensures
        exists|base: Seq<u8>| base.len() == SEED_LEN && r == verify_outcome(base),
{
    let base = random_base_seed();
    verify_seed_parallel(&base)
}

/// A partition seed differs from its base seed in the last byte alone, which
/// is the base's last byte advanced by the partition index, modulo 256.
pub proof fn lemma_sub_seed_layout(base: Seq<u8>, index: u8)
    requires
        base.len() == SEED_LEN,
    ensures
        sub_seed_of(base, index).len() == SEED_LEN,
        sub_seed_of(base, index)[31] as int == (base[31] as int + index as int) % 256,
        forall|j: int| 0 <= j < 31 ==> #[trigger] sub_seed_of(base, index)[j] == base[j],
{
}

/// Verification is a function of the base seed: equal base seeds give equal
/// partition draws and equal outcomes.
pub proof fn lemma_verify_deterministic(a: Seq<u8>, b: Seq<u8>)
    requires
        a.len() == SEED_LEN,
        a == b,
    ensures
        partition_draws_of(a) == partition_draws_of(b),
        verify_outcome(a) == verify_outcome(b),
        partition_draws_of(a).len() == PARTITIONS,
{
}

/// The sequential and the parallel evaluation of one base seed give the
/// same draws, partition by partition, and the same outcome.
pub proof fn lemma_sequential_parallel_agree(base: Seq<u8>, seq_draws: Seq<u64>, par_draws: Seq<u64>)
    requires
        base.len() == SEED_LEN,
        seq_draws == partition_draws_of(base),
        par_draws == partition_draws_of(base),
    ensures
        seq_draws.len() == PARTITIONS,
        forall|i: int| 0 <= i < PARTITIONS ==> #[trigger] seq_draws[i] == par_draws[i],
        all_positive(seq_draws) == all_positive(par_draws),
{
}

} // verus!
