//! The externally supplied randomness source: a deterministic generator,
//! seeded explicitly and passed into every sampling call, so that sampling
//! is reproducible under a fixed seed and controllers hold no hidden
//! global random state.

use vstd::prelude::*;

verus! {

#[verifier::external_type_specification]
#[verifier::external_body]
pub struct ExStdRng(rand::rngs::StdRng);

/// The mathematical model of a [`Rand`] generator: the seed it was built
/// from and the bounds of the draws made so far.  Because the underlying
/// generator is a deterministic algorithm, this pair determines every
/// future draw.
pub ghost struct RandView {
    /// The seed the generator was constructed from.
    pub seed: u64,
    /// The bound passed to each draw made so far, oldest first.
    pub draws: Seq<usize>,
}

/// The value returned by a bounded draw from a generator whose seed and
/// draw history are given.  The generator is a deterministic algorithm,
/// so the result is a function of these arguments alone.
pub uninterp spec fn draw(seed: u64, draws: Seq<usize>, bound: usize) -> usize;

/// A deterministic random number generator with an explicit seed.
pub struct Rand {
    rng: rand::rngs::StdRng,
    seed: Ghost<u64>,
    draws: Ghost<Seq<usize>>,
}

impl View for Rand {
    type V = RandView;

    closed spec fn view(&self) -> RandView {
        RandView { seed: self.seed@, draws: self.draws@ }
    }
}

impl Rand {
    /// Relies on rand's `SeedableRng::seed_from_u64` for `StdRng`: the
    /// generator state is a deterministic function of the seed.
    #[verifier::external_body]
    pub fn from_seed(seed: u64) -> (r: Rand)
        ensures
            r@.seed == seed,
            r@.draws == Seq::<usize>::empty(),
    {
        Rand {
            rng: <rand::rngs::StdRng as rand::SeedableRng>::seed_from_u64(seed),
            seed: Ghost(seed),
            draws: Ghost(Seq::empty()),
        }
    }

    /// Relies on rand's `Rng::gen_range` over `0..bound`: the result is
    /// below `bound`, and it is a deterministic function of the generator
    /// state, which the seed and the history of draws determine.
    /// `gen_range` panics only on an empty range, which the precondition
    /// rules out.
    #[verifier::external_body]
    pub fn gen_below(&mut self, bound: usize) -> (r: usize)
        requires
            bound > 0,
        ensures
            r < bound,
            r == draw(old(self)@.seed, old(self)@.draws, bound),
            final(self)@.seed == old(self)@.seed,
            final(self)@.draws == old(self)@.draws.push(bound),
    {
        rand::Rng::gen_range(&mut self.rng, 0..bound)
    }
}

} // verus!
