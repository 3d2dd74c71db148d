//! The guess phase: candidates are drawn until one falls below a target that
//! the difficulty fixes, and the first such candidate wins.

use vstd::prelude::*;

verus! {

/// The largest difficulty: the number of high-order bits that must be zero.
pub const MAX_DIFFICULTY: u32 = 63;

/// The target for a difficulty: `u64::MAX` shifted right by it.
pub open spec fn target_of(difficulty: u32) -> u64 {
    (u64::MAX >> difficulty) as u64
}

/// The target for a difficulty: a candidate wins iff it lies below it.
pub fn target_for(difficulty: u32) -> (r: u64)
    requires
        difficulty <= MAX_DIFFICULTY,
    ensures
        r == target_of(difficulty),
{
    u64::MAX >> difficulty
}

/// Whether `candidate` wins against `target`.
pub fn wins(candidate: u64, target: u64) -> (r: bool)
    ensures
        r == (candidate < target),
{
    candidate < target
}

/// The number of nanoseconds in a second.
pub const NANOS_PER_SEC: u64 = 1_000_000_000;

/// How candidates are drawn.
#[derive(Clone, Copy, Debug, PartialEq, Eq, Structural)]
pub enum GuessStrategy {
    /// One worker draws candidates one after another.
    Sequential,
    /// Workers of the shared pool draw candidates in parallel.
    ParallelShared,
    /// Workers of a pool of their own, as large as the shared one, draw
    /// candidates in parallel.
    ParallelSegregated,
}

/// The pause before each draw, in nanoseconds.
pub open spec fn draw_delay_of(strategy: GuessStrategy, pool_size: u64) -> u64
    recommends
        pool_size > 0,
{
    match strategy {
        GuessStrategy::Sequential => (NANOS_PER_SEC / pool_size) as u64,
        _ => NANOS_PER_SEC,
    }
}

impl GuessStrategy {
    /// The pause before each draw, in nanoseconds: a second for each worker
    /// of a parallel strategy, and a second divided by the pool size for
    /// the sequential one, so that all strategies draw at about one rate.
    pub fn draw_delay_nanos(&self, pool_size: u64) -> (r: u64)
        requires
            pool_size > 0,
        ensures
            r == draw_delay_of(*self, pool_size),
    {
        match self {
            GuessStrategy::Sequential => NANOS_PER_SEC / pool_size,
            _ => NANOS_PER_SEC,
        }
    }

    /// Whether the strategy runs its workers in parallel.
    pub fn is_parallel(&self) -> (r: bool)
        ensures
            r == !(*self is Sequential),
    {
        !matches!(self, GuessStrategy::Sequential)
    }
}

/// What a guesser answers to a candidate.
#[derive(Clone, Copy, Debug, PartialEq, Eq, Structural)]
pub enum GuessStep {
    /// No winner yet: draw again.
    Continue,
    /// The winning guess.
    Found(u64),
}

/// The abstract state of a guesser.
pub struct GuessView {
    pub target: u64,
    pub winner: Option<u64>,
}

/// The decisions of one guess search: it holds the target and, once one has
/// been seen, the first winning candidate.
#[derive(Clone, Copy, Debug)]
pub struct Guesser {
    target: u64,
    winner: Option<u64>,
}

impl View for Guesser {
    type V = GuessView;

    closed spec fn view(&self) -> GuessView {
        GuessView { target: self.target, winner: self.winner }
    }
}

/// The answer to `candidate` in the state `g`.
pub open spec fn step_of(g: GuessView, candidate: u64) -> GuessStep {
    match g.winner {
        Some(w) => GuessStep::Found(w),
        None => if candidate < g.target {
            GuessStep::Found(candidate)
        } else {
            GuessStep::Continue
        },
    }
}

/// The winner after `candidate` in the state `g`.
pub open spec fn winner_after(g: GuessView, candidate: u64) -> Option<u64> {
    match g.winner {
        Some(w) => Some(w),
        None => if candidate < g.target {
            Some(candidate)
        } else {
            None
        },
    }
}

/// The first winning candidate of a sequence, if any.
pub open spec fn first_winner(candidates: Seq<u64>, target: u64) -> Option<u64>
    decreases candidates.len(),
{
    if candidates.len() == 0 {
        None
    } else if candidates[0] < target {
        Some(candidates[0])
    } else {
        first_winner(candidates.drop_first(), target)
    }
}

/// The state after offering each candidate of a sequence in turn.
pub open spec fn offer_all(g: GuessView, candidates: Seq<u64>) -> GuessView
    decreases candidates.len(),
{
    if candidates.len() == 0 {
        g
    } else {
        offer_all(
            GuessView { target: g.target, winner: winner_after(g, candidates[0]) },
            candidates.drop_first(),
        )
    }
}

impl Guesser {
    /// A winner, once there is one, lies below the target.
    pub open spec fn wf(&self) -> bool {
        match self@.winner {
            Some(w) => w < self@.target,
            None => true,
        }
    }

    /// A guesser for a difficulty, with no winner yet.
    pub fn new(difficulty: u32) -> (r: Guesser)
        requires
            difficulty <= MAX_DIFFICULTY,
        ensures
            r.wf(),
            r@.target == target_of(difficulty),
            r@.winner is None,
    {
        Guesser { target: target_for(difficulty), winner: None }
    }

    /// A guesser for a target given directly, with no winner yet.
    pub fn with_target(target: u64) -> (r: Guesser)
        ensures
            r.wf(),
            r@.target == target,
            r@.winner is None,
    {
        Guesser { target, winner: None }
    }

    pub fn target(&self) -> (r: u64)
        ensures
            r == self@.target,
    {
        self.target
    }

    /// The first winning candidate seen, if any.
    pub fn winner(&self) -> (r: Option<u64>)
        ensures
            r == self@.winner,
    {
        self.winner
    }

    /// Whether `candidate` wins against this guesser's target.
    pub fn wins(&self, candidate: u64) -> (r: bool)
        ensures
            r == (candidate < self@.target),
    {
        wins(candidate, self.target)
    }

    /// Offers a drawn candidate. The first winning candidate is kept and
    /// returned; candidates offered after it are ignored.
    pub fn offer(&mut self, candidate: u64) -> (r: GuessStep)
        requires
            old(self).wf(),
        ensures
            final(self).wf(),
            r == step_of(old(self)@, candidate),
            final(self)@ == (GuessView { target: old(self)@.target, winner: winner_after(old(self)@, candidate) }),
            r matches GuessStep::Found(w) ==> w < old(self)@.target && final(self)@.winner == Some(w),
    {
        match self.winner {
            Some(w) => GuessStep::Found(w),
            None => {
                if wins(candidate, self.target) {
                    self.winner = Some(candidate);
                    GuessStep::Found(candidate)
                } else {
                    GuessStep::Continue
                }
            },
        }
    }
}

impl Guesser {
    /// Offers candidates in order, as `offer` would one by one, and returns
    /// `Found` with the winner if there is one by then, else `Continue`.
    pub fn offer_each(&mut self, candidates: &Vec<u64>) -> (r: GuessStep)
        requires
            old(self).wf(),
        ensures
            final(self).wf(),
            final(self)@ == offer_all(old(self)@, candidates@),
            r == match final(self)@.winner {
                Some(w) => GuessStep::Found(w),
                None => GuessStep::Continue,
            },
    {
        let mut step = match self.winner {
            Some(w) => GuessStep::Found(w),
            None => GuessStep::Continue,
        };
        let mut i: usize = 0;
        assert(candidates@.subrange(0, candidates@.len() as int) =~= candidates@);
        while i < candidates.len()
            invariant
                self.wf(),
                i <= candidates@.len(),
                offer_all(self@, candidates@.subrange(i as int, candidates@.len() as int))
                    == offer_all(old(self)@, candidates@),
                step == match self@.winner {
                    Some(w) => GuessStep::Found(w),
                    None => GuessStep::Continue,
                },
            decreases candidates@.len() - i,
        {
            let ghost rest = candidates@.subrange(i as int, candidates@.len() as int);
            assert(rest.drop_first() =~= candidates@.subrange(i + 1, candidates@.len() as int));
            step = self.offer(candidates[i]);
            i = i + 1;
        }
        assert(candidates@.subrange(i as int, candidates@.len() as int) =~= Seq::<u64>::empty());
        step
    }
}

/// Offering candidates one by one to a fresh guesser leaves as winner the
/// first candidate below the target, whatever follows it; and a winner always
/// lies below the target.
pub proof fn lemma_offer_all_first_winner(target: u64, candidates: Seq<u64>)
    ensures
        offer_all(GuessView { target, winner: None }, candidates).winner == first_winner(candidates, target),
        offer_all(GuessView { target, winner: None }, candidates).target == target,
        first_winner(candidates, target) matches Some(w) ==> w < target,
    decreases candidates.len(),
{
    if candidates.len() > 0 {
        if candidates[0] < target {
            lemma_offer_all_keeps_winner(target, candidates[0], candidates.drop_first());
        } else {
            lemma_offer_all_first_winner(target, candidates.drop_first());
        }
    }
}

/// Once a guesser holds a winner, no later candidate changes it.
pub proof fn lemma_offer_all_keeps_winner(target: u64, w: u64, candidates: Seq<u64>)
    ensures
        offer_all(GuessView { target, winner: Some(w) }, candidates).winner == Some(w),
        offer_all(GuessView { target, winner: Some(w) }, candidates).target == target,
    decreases candidates.len(),
{
    if candidates.len() > 0 {
        lemma_offer_all_keeps_winner(target, w, candidates.drop_first());
    }
}

} // verus!
