use powrace::verify::parallel_draws;
use powrace::verify::partition_draw;
use powrace::verify::sequential_draws;
use powrace::verify::sub_seed;
use powrace::verify::verdict_of;
use powrace::verify::verify_parallel;
use powrace::verify::verify_seed_parallel;
use powrace::verify::verify_seed_sequential;
use powrace::verify::verify_sequential;
use powrace::verify::VerifyPlacement;
use rand::rngs::StdRng;
use rand::Rng;
use rand::RngCore;
use rand::SeedableRng;

fn sample_seed() -> [u8; 32] {
    let mut s = [0u8; 32];
    for (i, b) in s.iter_mut().enumerate() {
        *b = (i as u8).wrapping_mul(37).wrapping_add(11);
    }
    s[31] = 250;
    s
}

#[test]
fn sub_seed_advances_last_byte_with_wrap() {
    let base = sample_seed();
    for i in 0u8..=255 {
        let s = sub_seed(&base, i);
        assert_eq!(s[31], ((250u32 + i as u32) % 256) as u8);
        assert_eq!(&s[..31], &base[..31]);
    }
    assert_eq!(sub_seed(&base, 0), base);
    assert_eq!(sub_seed(&base, 10)[31], 4);
    assert_eq!(sub_seed(&base, 6)[31], 0);
}

#[test]
fn partition_draw_is_first_draw_of_sub_seed() {
    let base = sample_seed();
    for i in [0u8, 1, 5, 6, 200, 255] {
        let mut rng = StdRng::from_seed(sub_seed(&base, i));
        assert_eq!(partition_draw(&base, i), rng.next_u64());
    }
    assert_ne!(partition_draw(&base, 0), partition_draw(&base, 1));
}

#[test]
fn draws_are_deterministic_given_seed() {
    let base = sample_seed();
    let a = sequential_draws(&base);
    let b = sequential_draws(&base);
    assert_eq!(a.len(), 256);
    assert_eq!(a, b);
    assert_eq!(verify_seed_sequential(&base), verify_seed_sequential(&base));
    assert_eq!(parallel_draws(&base), parallel_draws(&base));
}

#[test]
fn sequential_and_parallel_draws_agree() {
    let mut rng = rand::thread_rng();
    for _ in 0..20 {
        let base: [u8; 32] = rng.gen();
        let s = sequential_draws(&base);
        let p = parallel_draws(&base);
        assert_eq!(s, p);
        assert_eq!(verify_seed_sequential(&base), verify_seed_parallel(&base));
    }
    let base = sample_seed();
    let p = parallel_draws(&base);
    for i in 0..256usize {
        assert_eq!(p[i], partition_draw(&base, i as u8));
    }
}

#[test]
fn verdict_requires_every_draw_positive() {
    assert!(verdict_of(&vec![]));
    assert!(verdict_of(&vec![1, 2, u64::MAX]));
    assert!(!verdict_of(&vec![0]));
    assert!(!verdict_of(&vec![5, 0, 7]));
    assert!(!verdict_of(&vec![5, 7, 0]));
}

#[test]
fn verdict_holds_for_many_random_seeds() {
    let mut rng = rand::thread_rng();
    let mut checked = 0u32;
    for _ in 0..10_000 {
        let base: [u8; 32] = rng.gen();
        assert!(verify_seed_parallel(&base));
        checked += 1;
    }
    assert_eq!(checked, 10_000);
}

#[test]
fn fresh_verification_succeeds() {
    assert!(verify_sequential());
    assert!(verify_parallel());
}

#[test]
fn placements_select_evaluation() {
    assert!(VerifyPlacement::DirectSync.is_parallel());
    assert!(!VerifyPlacement::DirectSync.is_spawned());
    assert!(VerifyPlacement::SpawnedBlocking.is_parallel());
    assert!(VerifyPlacement::SpawnedBlocking.is_spawned());
    assert!(!VerifyPlacement::SequentialDirect.is_parallel());
    assert!(!VerifyPlacement::SequentialDirect.is_spawned());
    assert!(!VerifyPlacement::SequentialSpawned.is_parallel());
    assert!(VerifyPlacement::SequentialSpawned.is_spawned());
    let base = sample_seed();
    let expected = verify_seed_sequential(&base);
    for p in [
        VerifyPlacement::DirectSync,
        VerifyPlacement::SpawnedBlocking,
        VerifyPlacement::SequentialDirect,
        VerifyPlacement::SequentialSpawned,
    ] {
        assert_eq!(p.run_with_seed(&base), expected);
        assert!(p.run());
    }
}
