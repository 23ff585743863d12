//! A small concrete domain and agents built on the core contracts: a line
//! of five states walked back and forward by two actions, a uniformly
//! random policy, a learner that records what it is handed, and a counter
//! for exercising shared ownership.

use vstd::prelude::*;

use crate::agent::BatchLearner;
use crate::agent::Controller;
use crate::agent::OnlineLearner;
use crate::domains::Domain;
use crate::domains::Observation;
use crate::domains::Reward;
use crate::domains::Transition;
use crate::geometry::interval_bounds;
use crate::geometry::interval_new;
use crate::geometry::range_card;
use crate::random::Rand;
use crate::random::RandView;
use crate::random::draw;

verus! {

/// A simple line of states `0..=4` with two actions, walking back and
/// forward.  Action `0` decrements the state and action `1` (or any other
/// action) increments it, each clamped to the line.  Reaching the end of
/// the line, state `4`, terminates the episode with reward `1`; every
/// other step has reward `0`.
pub struct LineWorld {
    /// The current position on the line.
    pub state: i64,
}

impl LineWorld {
    /// A fresh line world at position `0`; its first observation is
    /// non-terminal.
    pub fn new() -> (r: LineWorld)
        ensures
            r.state == 0,
            !r.observation().is_terminal_spec(),
    {
        LineWorld { state: 0 }
    }

    /// The position reached from `state` by `action`, clamped to the line.
    pub open spec fn next_position(state: i64, action: usize) -> i64 {
        if action == 0 {
            if state <= 0 {
                0
            } else {
                (state - 1) as i64
            }
        } else {
            if state >= 4 {
                4
            } else {
                (state + 1) as i64
            }
        }
    }
}

impl Domain for LineWorld {
    type State = i64;

    type Action = usize;

    type StateSpace = spaces::Interval<i64>;

    type ActionSpace = std::ops::Range<usize>;

    open spec fn observation(&self) -> Observation<i64> {
        if self.state == 4 {
            Observation::Terminal(self.state)
        } else {
            Observation::Full(self.state)
        }
    }

    open spec fn next_state(&self, action: usize) -> LineWorld {
        LineWorld { state: Self::next_position(self.state, action) }
    }

    open spec fn reward(&self, action: usize) -> Reward {
        if Self::next_position(self.state, action) == 4 {
            1
        } else {
            0
        }
    }

    fn emit(&self) -> (o: Observation<i64>) {
        if self.state == 4 {
            Observation::Terminal(self.state)
        } else {
            Observation::Full(self.state)
        }
    }

    fn step(&mut self, action: usize) -> (t: Transition<i64, usize>) {
        let from = self.emit();
        if action == 0 {
            if self.state > 0 {
                self.state = self.state - 1;
            } else {
                self.state = 0;
            }
        } else {
            if self.state < 4 {
                self.state = self.state + 1;
            } else {
                self.state = 4;
            }
        }
        let reward: Reward = if self.state == 4 {
            1
        } else {
            0
        };
        let to = self.emit();
        Transition { from, action, reward, to }
    }

    fn state_space(&self) -> (space: spaces::Interval<i64>)
        ensures
            interval_bounds(space) == (Some(0i64), Some(4i64)),
    {
        interval_new(Some(0), Some(4))
    }

    fn action_space(&self) -> (space: std::ops::Range<usize>)
        ensures
            space.start == 0 && space.end == 2,
    {
        0usize..2usize
    }
}

/// A policy that samples actions uniformly at random from `0..action_count`,
/// identically for the target and the behaviour policy, and learns nothing
/// from transitions.
pub struct RandomAgent {
    /// The number of actions to draw from.
    pub action_count: usize,
}

impl RandomAgent {
    /// A random agent over `action_count` actions.
    pub fn new(action_count: usize) -> (r: RandomAgent)
        ensures
            r.action_count == action_count,
    {
        RandomAgent { action_count }
    }

    /// A random agent sized by the cardinality of a discrete action space.
    pub fn from_space(space: &std::ops::Range<usize>) -> (r: RandomAgent)
        ensures
            r.action_count == if space.start <= space.end {
                space.end - space.start
            } else {
                0
            },
    {
        RandomAgent { action_count: range_card(space) }
    }

    /// The action this agent samples from generator state `r`: a uniform
    /// draw below `action_count`, or `0` when there is no action to draw.
    pub open spec fn choice(&self, r: RandView) -> (usize, RandView) {
        if self.action_count == 0 {
            (0usize, r)
        } else {
            (
                draw(r.seed, r.draws, self.action_count),
                RandView { seed: r.seed, draws: r.draws.push(self.action_count) },
            )
        }
    }
}

impl<S> Controller<S, usize> for RandomAgent {
    open spec fn obeys(&self) -> bool {
        true
    }

    open spec fn target_choice(&self, r: RandView, s: S) -> (usize, RandView) {
        self.choice(r)
    }

    open spec fn behaviour_choice(&self, r: RandView, s: S) -> (usize, RandView) {
        self.choice(r)
    }

    fn sample_target(&self, rng: &mut Rand, s: &S) -> (a: usize)
        ensures
            self.action_count > 0 ==> a < self.action_count,
    {
        if self.action_count == 0 {
            0
        } else {
            rng.gen_below(self.action_count)
        }
    }

    fn sample_behaviour(&self, rng: &mut Rand, s: &S) -> (a: usize)
        ensures
            self.action_count > 0 ==> a < self.action_count,
    {
        if self.action_count == 0 {
            0
        } else {
            rng.gen_below(self.action_count)
        }
    }
}

impl<S, A> OnlineLearner<S, A> for RandomAgent {
    /// A fixed random policy learns nothing, so its model is trivial.
    type Model = ();

    open spec fn model(&self) -> () {
        ()
    }

    open spec fn transitioned(m: (), transition: Transition<S, A>) -> () {
        ()
    }

    open spec fn terminated(m: ()) -> () {
        ()
    }

    fn handle_transition(&mut self, transition: &Transition<S, A>) {
    }

    fn handle_terminal(&mut self) {
    }
}

/// One entry in a [`RecordingLearner`]'s log.
#[derive(Clone, Copy, Debug, PartialEq, Eq, Structural)]
pub enum LearnerEvent {
    /// One transition was handled; carries its reward.
    Step(Reward),
    /// End-of-episode housekeeping ran.
    End,
}

/// A learner that records, in order, the reward of every transition it is
/// handed and each end-of-episode call, so that an interaction protocol
/// can be checked against the log.
pub struct RecordingLearner {
    /// The recorded events, oldest first.
    pub events: Vec<LearnerEvent>,
}

impl RecordingLearner {
    /// A learner with an empty log.
    pub fn new() -> (r: RecordingLearner)
        ensures
            r.events@ == Seq::<LearnerEvent>::empty(),
    {
        RecordingLearner { events: Vec::new() }
    }
}

impl<S, A> OnlineLearner<S, A> for RecordingLearner {
    /// The model is the log itself.
    type Model = Seq<LearnerEvent>;

    open spec fn model(&self) -> Seq<LearnerEvent> {
        self.events@
    }

    open spec fn transitioned(m: Seq<LearnerEvent>, transition: Transition<S, A>) -> Seq<
        LearnerEvent,
    > {
        m.push(LearnerEvent::Step(transition.reward))
    }

    open spec fn terminated(m: Seq<LearnerEvent>) -> Seq<LearnerEvent> {
        m.push(LearnerEvent::End)
    }

    fn handle_transition(&mut self, transition: &Transition<S, A>) {
        self.events.push(LearnerEvent::Step(transition.reward));
    }

    fn handle_terminal(&mut self) {
        self.events.push(LearnerEvent::End);
    }
}

impl<S, A> BatchLearner<S, A> for RecordingLearner {
    /// The model is the log itself.
    type Model = Seq<LearnerEvent>;

    open spec fn model(&self) -> Seq<LearnerEvent> {
        self.events@
    }

    open spec fn batched(m: Seq<LearnerEvent>, batch: Seq<Transition<S, A>>) -> Seq<LearnerEvent> {
        m + batch.map_values(|t: Transition<S, A>| LearnerEvent::Step(t.reward))
    }

    fn handle_batch(&mut self, batch: &[Transition<S, A>]) {
        let ghost m0 = self.events@;
        let mut i: usize = 0;
        while i < batch.len()
            invariant
                i <= batch@.len(),
                self.events@ == m0 + batch@.take(i as int).map_values(
                    |t: Transition<S, A>| LearnerEvent::Step(t.reward),
                ),
            decreases batch@.len() - i,
        {
            let reward = batch[i].reward;
            self.events.push(LearnerEvent::Step(reward));
            proof {
                assert(batch@.take(i + 1).drop_last() =~= batch@.take(i as int));
                assert(batch@.take(i + 1).map_values(
                    |t: Transition<S, A>| LearnerEvent::Step(t.reward),
                ) =~= batch@.take(i as int).map_values(
                    |t: Transition<S, A>| LearnerEvent::Step(t.reward),
                ).push(LearnerEvent::Step(batch@[i as int].reward)));
            }
            i = i + 1;
        }
        proof {
            assert(batch@.take(batch@.len() as int) =~= batch@);
        }
    }
}

/// Law: handling a sequence of transitions in order appends exactly their
/// rewards, in order, to a recording learner's log.
pub proof fn lemma_recording_learner_log<S, A>(m: Seq<LearnerEvent>, ts: Seq<Transition<S, A>>)
    ensures
        crate::driver::learned::<S, A, RecordingLearner>(m, ts) == m + ts.map_values(
            |t: Transition<S, A>| LearnerEvent::Step(t.reward),
        ),
    decreases ts.len(),
{
    let f = |t: Transition<S, A>| LearnerEvent::Step(t.reward);
    if ts.len() == 0 {
        assert(m + ts.map_values(f) =~= m);
    } else {
        lemma_recording_learner_log::<S, A>(m, ts.drop_last());
        assert(m + ts.map_values(f) =~= (m + ts.drop_last().map_values(f)).push(
            f(ts.last()),
        ));
    }
}

/// A counter whose holders can observe each other's increments through a
/// shared handle.
pub struct Counter {
    /// The number of increments so far.
    pub count: u64,
}

impl Counter {
    /// A counter at zero.
    pub fn new() -> (r: Counter)
        ensures
            r.count == 0,
    {
        Counter { count: 0 }
    }

    /// Adds one to the count.
    pub fn increment(&mut self)
        requires
            old(self).count < u64::MAX,
        ensures
            final(self).count == old(self).count + 1,
    {
        self.count = self.count + 1;
    }

    /// Reads the count.
    pub fn get(&self) -> (n: u64)
        ensures
            n == self.count,
    {
        self.count
    }
}

} // verus!
