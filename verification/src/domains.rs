//! The environment-side data model: observations, transitions, and the
//! `Domain` contract that every concrete environment implements.

use vstd::prelude::*;

verus! {

/// The scalar reward carried by a transition.  Rewards in this crate are
/// integer-valued so that reward arithmetic stays inside verified code.
pub type Reward = i64;

/// What an agent perceives after a step: a fully observed state, a
/// partially observed state, or a terminal state that ends the episode.
#[derive(Clone, Copy, Debug, PartialEq, Eq, Structural)]
pub enum Observation<S> {
    /// A fully observed, non-terminal state.
    Full(S),
    /// A partially observed, non-terminal state.
    Partial(S),
    /// A state that ends the episode; carries the final state value.
    Terminal(S),
}

impl<S> Observation<S> {
    /// Whether this observation ends the episode.
    pub open spec fn is_terminal_spec(&self) -> bool {
        matches!(self, Observation::Terminal(_))
    }

    /// The state value carried by the observation, whichever variant holds it.
    pub open spec fn state_spec(&self) -> S {
        match self {
            Observation::Full(s) => *s,
            Observation::Partial(s) => *s,
            Observation::Terminal(s) => *s,
        }
    }

    /// Returns true exactly when the observation is `Terminal`.
    pub fn is_terminal(&self) -> (r: bool)
        ensures
            r == self.is_terminal_spec(),
    {
        match self {
            Observation::Terminal(_) => true,
            _ => false,
        }
    }

    /// Borrows the state value carried by the observation.
    pub fn state(&self) -> (s: &S)
        ensures
            *s == self.state_spec(),
    {
        match self {
            Observation::Full(s) => s,
            Observation::Partial(s) => s,
            Observation::Terminal(s) => s,
        }
    }
}

/// The complete record of one environment step: the observation before the
/// step, the action taken, the reward produced, and the observation after.
/// Immutable once constructed; `to.is_terminal()` signals episode end.
#[derive(Clone, Copy, Debug, PartialEq, Eq, Structural)]
pub struct Transition<S, A> {
    /// The observation the action was taken from.
    pub from: Observation<S>,
    /// The action taken.
    pub action: A,
    /// The scalar reward produced by the step.
    pub reward: Reward,
    /// The observation after the step.
    pub to: Observation<S>,
}

/// The environment contract.  A domain emits observations, advances by one
/// action per step, and describes its state and action spaces.
///
/// The ghost functions `observation`, `next_state` and `reward` form the
/// mathematical model of the environment: `emit` returns exactly
/// `observation`, and `step` advances the domain to `next_state` while
/// returning the transition those three functions predict.  Since `emit`'s
/// result is a function of `self` alone, two calls without an intervening
/// `step` return equal observations.
pub trait Domain: Sized {
    /// The state value type.
    type State;

    /// The action value type.
    type Action;

    /// The type describing the set of legal states.
    type StateSpace;

    /// The type describing the set of legal actions.
    type ActionSpace;

    /// The observation the domain currently presents, terminal exactly when
    /// the domain logic considers the current state an episode end.
    spec fn observation(&self) -> Observation<Self::State>;

    /// The domain state reached by taking `action` from the current state.
    spec fn next_state(&self, action: Self::Action) -> Self;

    /// The reward produced by taking `action` from the current state.
    spec fn reward(&self, action: Self::Action) -> Reward;

    /// Returns the current observation without mutating environment state.
    fn emit(&self) -> (o: Observation<Self::State>)
        ensures
            o == self.observation(),
    ;

    /// Advances the environment by one action and returns the transition
    /// recording the prior observation, the action, the reward, and the
    /// resulting observation.  Always advances internal state; callers are
    /// responsible for not stepping past terminal states.
    fn step(&mut self, action: Self::Action) -> (t: Transition<Self::State, Self::Action>)
        ensures
            *final(self) == old(self).next_state(action),
            t.from == old(self).observation(),
            t.action == action,
            t.reward == old(self).reward(action),
            t.to == final(self).observation(),
    ;

    /// Describes the legal state values.
    fn state_space(&self) -> Self::StateSpace;

    /// Describes the legal action values.
    fn action_space(&self) -> Self::ActionSpace;
}

/// The state value type of a domain.
pub type State<D> = <D as Domain>::State;

/// The action value type of a domain.
pub type Action<D> = <D as Domain>::Action;

/// Law: `emit` is idempotent.  For any domain, two calls without an
/// intervening `step` return equal observations.
pub fn emit_twice<D: Domain>(domain: &D) -> (pair: (
    Observation<State<D>>,
    Observation<State<D>>,
))
    ensures
        pair.0 == pair.1,
{
    (domain.emit(), domain.emit())
}

/// Law: immediately after a `step`, the domain emits exactly the
/// transition's `to` observation.
pub fn step_then_emit<D: Domain>(domain: &mut D, action: Action<D>) -> (pair: (
    Transition<State<D>, Action<D>>,
    Observation<State<D>>,
))
    ensures
        pair.1 == pair.0.to,
        pair.0.from == old(domain).observation(),
        pair.0.to == final(domain).observation(),
{
    let t = domain.step(action);
    let o = domain.emit();
    (t, o)
}

} // verus!
