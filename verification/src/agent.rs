//! The agent-side contracts: learners that consume transitions, policies
//! that sample actions, and the adapter that lifts a stateless policy into
//! a stateful one.

use vstd::prelude::*;

use crate::domains::Transition;
use crate::memory::Shared;
use crate::random::Rand;
use crate::random::RandView;

verus! {

/// Consumes transitions one at a time to update internal agent state.
///
/// The contract works over an abstract model of the learner's state:
/// `model` abstracts the learner, `transitioned` says how one transition
/// updates the model, and `terminated` says what end-of-episode
/// housekeeping does to it.  `handle_transition` and `handle_terminal`
/// must realise exactly those updates.
pub trait OnlineLearner<S, A>: Sized {
    /// The mathematical model of the learner's state.
    type Model;

    /// The model of the current learner state.
    spec fn model(&self) -> Self::Model;

    /// How handling one transition updates the model.
    spec fn transitioned(m: Self::Model, transition: Transition<S, A>) -> Self::Model;

    /// How end-of-episode housekeeping updates the model.
    spec fn terminated(m: Self::Model) -> Self::Model;

    /// Updates internal state from exactly one transition.  Callable after
    /// every step, including the final, terminal one.
    fn handle_transition(&mut self, transition: &Transition<S, A>)
        ensures
            final(self).model() == Self::transitioned(old(self).model(), *transition),
    ;

    /// Performs housekeeping after a terminal observation, once per
    /// episode, after the terminal transition has been handled.
    fn handle_terminal(&mut self)
        ensures
            final(self).model() == Self::terminated(old(self).model()),
    ;
}

/// Consumes an ordered batch of transitions processed together.  Ordering
/// within the batch is caller-defined; the learner must not assume
/// chronological contiguity unless it documents otherwise.
pub trait BatchLearner<S, A>: Sized {
    /// The mathematical model of the learner's state.
    type Model;

    /// The model of the current learner state.
    spec fn model(&self) -> Self::Model;

    /// How handling a batch updates the model.
    spec fn batched(m: Self::Model, batch: Seq<Transition<S, A>>) -> Self::Model;

    /// Updates internal state from a batch of transitions.
    fn handle_batch(&mut self, batch: &[Transition<S, A>])
        ensures
            final(self).model() == Self::batched(old(self).model(), batch@),
    ;
}

/// A stateless (immutable-self) policy: samples a target-policy action and
/// a behaviour-policy action for a given state.  Both draws take the
/// randomness source explicitly, so sampling is reproducible under a fixed
/// seed.
///
/// The contract works over an abstract model of the policy: `target_choice`
/// and `behaviour_choice` give the sampled action and the generator state
/// after the draw, as functions of the policy, the generator state before
/// the draw, and the state sampled from.  An implementation whose `obeys`
/// is true promises that its sampling realises those functions; a wrapper
/// whose inner policy the verifier cannot see, such as [`Shared`], sets
/// `obeys` to false.
pub trait Controller<S, A>: Sized {
    /// Whether the sampling methods realise the model below.
    spec fn obeys(&self) -> bool;

    /// The action drawn from the target policy and the generator state
    /// after the draw.
    spec fn target_choice(&self, r: RandView, s: S) -> (A, RandView);

    /// The action drawn from the behaviour policy and the generator state
    /// after the draw.
    spec fn behaviour_choice(&self, r: RandView, s: S) -> (A, RandView);

    /// Samples the target policy (the policy being evaluated or improved)
    /// for the state `s`.
    fn sample_target(&self, rng: &mut Rand, s: &S) -> (a: A)
        ensures
            self.obeys() ==> (a, final(rng)@) == self.target_choice(old(rng)@, *s),
    ;

    /// Samples the behaviour policy (the policy actually executed to
    /// generate experience) for the state `s`.
    fn sample_behaviour(&self, rng: &mut Rand, s: &S) -> (a: A)
        ensures
            self.obeys() ==> (a, final(rng)@) == self.behaviour_choice(old(rng)@, *s),
    ;
}

/// A stateful policy: the same two sampling operations as [`Controller`],
/// now taking `&mut self`, plus end-of-episode housekeeping.
pub trait OnlineController<S, A>: Sized {
    /// Whether the sampling methods realise the model below.
    spec fn obeys(&self) -> bool;

    /// The action drawn from the target policy and the generator state
    /// after the draw.
    spec fn target_choice(&self, r: RandView, s: S) -> (A, RandView);

    /// The action drawn from the behaviour policy and the generator state
    /// after the draw.
    spec fn behaviour_choice(&self, r: RandView, s: S) -> (A, RandView);

    /// Samples the target policy for the state `s`.
    fn sample_target(&mut self, rng: &mut Rand, s: &S) -> (a: A)
        ensures
            old(self).obeys() ==> (a, final(rng)@) == old(self).target_choice(old(rng)@, *s),
    ;

    /// Samples the behaviour policy for the state `s`.
    fn sample_behaviour(&mut self, rng: &mut Rand, s: &S) -> (a: A)
        ensures
            old(self).obeys() ==> (a, final(rng)@) == old(self).behaviour_choice(
                old(rng)@,
                *s,
            ),
    ;

    /// Performs end-of-episode housekeeping, such as resetting exploration
    /// schedules.
    fn handle_terminal(&mut self);
}

/// Lifts a stateless [`Controller`] into a stateful [`OnlineController`]:
/// the sampling operations forward unchanged and `handle_terminal` is a
/// no-op, so simple stateless policies can be used anywhere a stateful
/// controller is expected.
pub struct Stateless<C> {
    /// The stateless policy being lifted.
    pub controller: C,
}

impl<C> Stateless<C> {
    /// Wraps a stateless policy.
    pub fn new(controller: C) -> (r: Stateless<C>)
        ensures
            r.controller == controller,
    {
        Stateless { controller }
    }
}

impl<S, A, C: Controller<S, A>> OnlineController<S, A> for Stateless<C> {
    open spec fn obeys(&self) -> bool {
        self.controller.obeys()
    }

    open spec fn target_choice(&self, r: RandView, s: S) -> (A, RandView) {
        self.controller.target_choice(r, s)
    }

    open spec fn behaviour_choice(&self, r: RandView, s: S) -> (A, RandView) {
        self.controller.behaviour_choice(r, s)
    }

    fn sample_target(&mut self, rng: &mut Rand, s: &S) -> (a: A)
        ensures
            *final(self) == *old(self),
    {
        self.controller.sample_target(rng, s)
    }

    fn sample_behaviour(&mut self, rng: &mut Rand, s: &S) -> (a: A)
        ensures
            *final(self) == *old(self),
    {
        self.controller.sample_behaviour(rng, s)
    }

    fn handle_terminal(&mut self)
        ensures
            *final(self) == *old(self),
    {
    }
}

/// Law: lifting a stateless controller changes neither of its sampling
/// choices.  For any controller, any generator state (in particular, any
/// seed), and any state sampled from, the lifted controller's target and
/// behaviour choices equal the direct controller's.
pub proof fn lemma_stateless_samples_as_controller<S, A, C: Controller<S, A>>(
    c: C,
    r: RandView,
    s: S,
)
    ensures
        (Stateless { controller: c }).target_choice(r, s) == c.target_choice(r, s),
        (Stateless { controller: c }).behaviour_choice(r, s) == c.behaviour_choice(r, s),
        (Stateless { controller: c }).obeys() == c.obeys(),
{
}

impl<S, A, T: OnlineLearner<S, A>> OnlineLearner<S, A> for Shared<T> {
    /// A shared handle has no model of its own: the wrapped learner's
    /// state is runtime state behind the shared cell, outside what the
    /// verifier can see of the handle.
    type Model = ();

    open spec fn model(&self) -> () {
        ()
    }

    open spec fn transitioned(m: (), transition: Transition<S, A>) -> () {
        ()
    }

    open spec fn terminated(m: ()) -> () {
        ()
    }

    /// Forwards to the wrapped learner under exclusive access.  If another
    /// holder has the value out (a re-entrant use, a programming error),
    /// the update is not applied; [`shared_handle_transition`] surfaces
    /// that failure instead of discarding it.  The handle itself is left
    /// as it was: only the cell's runtime contents change.
    fn handle_transition(&mut self, transition: &Transition<S, A>)
        ensures
            *final(self) == *old(self),
    {
        match self.take() {
            Ok(mut learner) => {
                learner.handle_transition(transition);
                self.put(learner);
            },
            Err(_) => {},
        }
    }

    /// Forwards to the wrapped learner under exclusive access; see
    /// [`shared_handle_terminal`] for the failure-surfacing form.  The
    /// handle itself is left as it was.
    fn handle_terminal(&mut self)
        ensures
            *final(self) == *old(self),
    {
        match self.take() {
            Ok(mut learner) => {
                learner.handle_terminal();
                self.put(learner);
            },
            Err(_) => {},
        }
    }
}

impl<S, A, T: BatchLearner<S, A>> BatchLearner<S, A> for Shared<T> {
    /// A shared handle has no model of its own; see the
    /// [`OnlineLearner`] impl for [`Shared`].
    type Model = ();

    open spec fn model(&self) -> () {
        ()
    }

    open spec fn batched(m: (), batch: Seq<Transition<S, A>>) -> () {
        ()
    }

    /// Forwards to the wrapped learner under exclusive access; see
    /// [`shared_handle_batch`] for the failure-surfacing form.  The handle
    /// itself is left as it was.
    fn handle_batch(&mut self, batch: &[Transition<S, A>])
        ensures
            *final(self) == *old(self),
    {
        match self.take() {
            Ok(mut learner) => {
                learner.handle_batch(batch);
                self.put(learner);
            },
            Err(_) => {},
        }
    }
}

/// Forwards one transition to the wrapped learner under exclusive access.
/// Unlike the [`OnlineLearner`] impl for [`Shared`], which must swallow
/// the failure to fit the trait's signature, this form surfaces an
/// [`crate::memory::AliasingViolation`] — on which the update was not
/// applied — so that a caller can fail fast.  Nothing more can be stated:
/// whether the value is available is runtime state of the shared cell.
pub fn shared_handle_transition<S, A, T: OnlineLearner<S, A>>(
    shared: &Shared<T>,
    transition: &Transition<S, A>,
) -> Result<(), crate::memory::AliasingViolation> {
    match shared.take() {
        Ok(mut learner) => {
            learner.handle_transition(transition);
            shared.put(learner);
            Ok(())
        },
        Err(violation) => Err(violation),
    }
}

/// Runs the wrapped learner's end-of-episode housekeeping under exclusive
/// access, surfacing an [`crate::memory::AliasingViolation`] — on which
/// the housekeeping did not run — so that a caller can fail fast.
pub fn shared_handle_terminal<S, A, T: OnlineLearner<S, A>>(shared: &Shared<T>) -> Result<
    (),
    crate::memory::AliasingViolation,
> {
    match shared.take() {
        Ok(mut learner) => {
            <T as OnlineLearner<S, A>>::handle_terminal(&mut learner);
            shared.put(learner);
            Ok(())
        },
        Err(violation) => Err(violation),
    }
}

/// Forwards a batch to the wrapped learner under exclusive access,
/// surfacing an [`crate::memory::AliasingViolation`] — on which the
/// update was not applied — so that a caller can fail fast.
pub fn shared_handle_batch<S, A, T: BatchLearner<S, A>>(
    shared: &Shared<T>,
    batch: &[Transition<S, A>],
) -> Result<(), crate::memory::AliasingViolation> {
    match shared.take() {
        Ok(mut learner) => {
            learner.handle_batch(batch);
            shared.put(learner);
            Ok(())
        },
        Err(violation) => Err(violation),
    }
}

/// Samples the wrapped controller's target policy under exclusive access,
/// surfacing an [`crate::memory::AliasingViolation`] as an explicit
/// failure when another holder has the value out.  On that failure no
/// draw was made, so the generator is untouched; on success the sampled
/// action is the wrapped controller's, whose own contract pins it.
pub fn shared_sample_target<S, A, T: Controller<S, A>>(
    shared: &Shared<T>,
    rng: &mut Rand,
    s: &S,
) -> (r: Result<A, crate::memory::AliasingViolation>)
    ensures
        r is Err ==> final(rng)@ == old(rng)@,
{
    match shared.take() {
        Ok(controller) => {
            let a = controller.sample_target(rng, s);
            shared.put(controller);
            Ok(a)
        },
        Err(violation) => Err(violation),
    }
}

/// Samples the wrapped controller's behaviour policy under exclusive
/// access, surfacing an [`crate::memory::AliasingViolation`] as an
/// explicit failure when another holder has the value out.  On that
/// failure no draw was made, so the generator is untouched.
pub fn shared_sample_behaviour<S, A, T: Controller<S, A>>(
    shared: &Shared<T>,
    rng: &mut Rand,
    s: &S,
) -> (r: Result<A, crate::memory::AliasingViolation>)
    ensures
        r is Err ==> final(rng)@ == old(rng)@,
{
    match shared.take() {
        Ok(controller) => {
            let a = controller.sample_behaviour(rng, s);
            shared.put(controller);
            Ok(a)
        },
        Err(violation) => Err(violation),
    }
}

} // verus!
