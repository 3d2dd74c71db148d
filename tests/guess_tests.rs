use powrace::guess::target_for;
use powrace::guess::wins;
use powrace::guess::GuessStep;
use powrace::guess::GuessStrategy;
use powrace::guess::Guesser;

#[test]
fn target_matches_shift_for_every_difficulty() {
    for d in 0u32..=63 {
        assert_eq!(target_for(d), u64::MAX >> d);
    }
    assert_eq!(target_for(0), u64::MAX);
    assert_eq!(target_for(8), 0x00ff_ffff_ffff_ffff);
    assert_eq!(target_for(63), 1);
}

#[test]
fn wins_is_strictly_below_target() {
    let t = target_for(8);
    assert!(wins(t - 1, t));
    assert!(!wins(t, t));
    assert!(!wins(t + 1, t));
    assert!(wins(0, 1));
    assert!(!wins(0, 0));
}

#[test]
fn first_value_below_target_wins_and_later_values_are_ignored() {
    let target = target_for(8);
    let mut g = Guesser::new(8);
    assert_eq!(g.target(), target);
    assert_eq!(g.offer(target + 5), GuessStep::Continue);
    assert_eq!(g.offer(target + 1), GuessStep::Continue);
    assert_eq!(g.winner(), None);
    assert_eq!(g.offer(target - 3), GuessStep::Found(target - 3));
    assert_eq!(g.offer(0), GuessStep::Found(target - 3));
    assert_eq!(g.offer(target + 7), GuessStep::Found(target - 3));
    assert_eq!(g.winner(), Some(target - 3));
}

#[test]
fn zero_source_at_difficulty_zero_wins_at_once() {
    let mut g = Guesser::new(0);
    assert_eq!(g.target(), u64::MAX);
    assert!(g.wins(0));
    assert_eq!(g.offer(0), GuessStep::Found(0));
    assert_eq!(g.winner(), Some(0));
}

#[test]
fn target_itself_does_not_win() {
    let mut g = Guesser::with_target(100);
    assert_eq!(g.offer(100), GuessStep::Continue);
    assert_eq!(g.offer(u64::MAX), GuessStep::Continue);
    assert_eq!(g.offer(99), GuessStep::Found(99));
    assert!(g.wins(0));
    assert!(!g.wins(100));
}

#[test]
fn every_winner_lies_below_target() {
    for d in [1u32, 8, 32, 63] {
        let mut g = Guesser::new(d);
        let candidates = [u64::MAX, target_for(d), target_for(d) / 2, 0];
        for c in candidates {
            if let GuessStep::Found(w) = g.offer(c) {
                assert!(w < target_for(d));
            }
        }
        assert_eq!(g.winner(), Some(target_for(d) / 2));
    }
}

#[test]
fn draw_delays_keep_throughput_comparable() {
    assert_eq!(GuessStrategy::Sequential.draw_delay_nanos(4), 250_000_000);
    assert_eq!(GuessStrategy::Sequential.draw_delay_nanos(3), 333_333_333);
    assert_eq!(GuessStrategy::Sequential.draw_delay_nanos(1), 1_000_000_000);
    assert_eq!(GuessStrategy::ParallelShared.draw_delay_nanos(4), 1_000_000_000);
    assert_eq!(GuessStrategy::ParallelSegregated.draw_delay_nanos(16), 1_000_000_000);
    assert!(!GuessStrategy::Sequential.is_parallel());
    assert!(GuessStrategy::ParallelShared.is_parallel());
    assert!(GuessStrategy::ParallelSegregated.is_parallel());
}

#[test]
fn batch_of_candidates_keeps_first_winner() {
    let target = target_for(8);
    let mut g = Guesser::new(8);
    assert_eq!(g.offer_each(&vec![target + 5, target + 1]), GuessStep::Continue);
    assert_eq!(g.winner(), None);
    assert_eq!(g.offer_each(&vec![target - 3, 0, 1]), GuessStep::Found(target - 3));
    assert_eq!(g.winner(), Some(target - 3));
    assert_eq!(g.offer_each(&vec![]), GuessStep::Found(target - 3));
    let mut fresh = Guesser::new(8);
    assert_eq!(fresh.offer_each(&vec![]), GuessStep::Continue);
    assert_eq!(
        fresh.offer_each(&vec![target + 5, target + 1, target - 3, 2]),
        GuessStep::Found(target - 3)
    );
}
