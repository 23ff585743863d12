//! Tests of the interaction protocol: domains, transitions, the episode
//! driver, and policy sampling.

use rsrl_types::Domain;
use rsrl_types::LearnerEvent;
use rsrl_types::LineWorld;
use rsrl_types::Observation;
use rsrl_types::OnlineController;
use rsrl_types::OnlineLearner;
use rsrl_types::BatchLearner;
use rsrl_types::Controller;
use rsrl_types::Rand;
use rsrl_types::RandomAgent;
use rsrl_types::RecordingLearner;
use rsrl_types::Stateless;
use rsrl_types::emit_twice;
use rsrl_types::run_episode;
use rsrl_types::step_then_emit;

#[test]
fn fresh_domain_emits_non_terminal() {
    let d = LineWorld::new();
    let o = d.emit();
    assert!(!o.is_terminal());
    assert_eq!(o, Observation::Full(0));
}

#[test]
fn emit_is_idempotent() {
    let mut d = LineWorld::new();
    let (a, b) = emit_twice(&d);
    assert_eq!(a, b);
    d.step(1);
    let (a, b) = emit_twice(&d);
    assert_eq!(a, b);
    assert_eq!(a, Observation::Full(1));
}

#[test]
fn step_is_consistent_with_emit() {
    let mut d = LineWorld::new();
    for action in [1usize, 0, 1, 1, 1] {
        let (t, o) = step_then_emit(&mut d, action);
        assert_eq!(t.to, o);
        assert_eq!(d.emit(), t.to);
    }
}

#[test]
fn walk_to_the_end_of_the_line() {
    let mut d = LineWorld::new();
    let mut transitions = Vec::new();
    for action in [1usize, 1, 1, 1] {
        transitions.push(d.step(action));
    }
    let from_states: Vec<i64> = transitions.iter().map(|t| *t.from.state()).collect();
    let to_states: Vec<i64> = transitions.iter().map(|t| *t.to.state()).collect();
    let rewards: Vec<i64> = transitions.iter().map(|t| t.reward).collect();
    assert_eq!(from_states, vec![0, 1, 2, 3]);
    assert_eq!(to_states, vec![1, 2, 3, 4]);
    assert_eq!(rewards, vec![0, 0, 0, 1]);
    for t in &transitions[..3] {
        assert!(!t.to.is_terminal());
    }
    assert_eq!(transitions[3].to, Observation::Terminal(4));
    assert!(transitions[3].to.is_terminal());
}

#[test]
fn decrement_clamps_at_zero() {
    let mut d = LineWorld::new();
    let t = d.step(0);
    assert_eq!(t.from, Observation::Full(0));
    assert_eq!(t.to, Observation::Full(0));
    assert_eq!(t.reward, 0);
    assert!(!t.to.is_terminal());
}

#[test]
fn lifted_controller_samples_as_controller() {
    let agent = RandomAgent::new(2);
    let mut lifted = Stateless::new(RandomAgent::new(2));
    let mut rng_direct = Rand::from_seed(99);
    let mut rng_lifted = Rand::from_seed(99);
    let mut direct = Vec::new();
    let mut through_adapter = Vec::new();
    for i in 0..40 {
        let s: i64 = i % 5;
        if i % 2 == 0 {
            direct.push(agent.sample_target(&mut rng_direct, &s));
            through_adapter.push(lifted.sample_target(&mut rng_lifted, &s));
        } else {
            direct.push(agent.sample_behaviour(&mut rng_direct, &s));
            through_adapter.push(lifted.sample_behaviour(&mut rng_lifted, &s));
        }
    }
    assert_eq!(direct, through_adapter);
    assert!(direct.iter().all(|a| *a < 2));
}

#[test]
fn sampling_is_reproducible_under_a_fixed_seed() {
    let mut r1 = Rand::from_seed(42);
    let mut r2 = Rand::from_seed(42);
    for _ in 0..50 {
        assert_eq!(r1.gen_below(10), r2.gen_below(10));
    }
    let mut r3 = Rand::from_seed(42);
    assert_eq!(r3.gen_below(1), 0);
}

#[test]
fn terminal_is_handled_once_after_the_terminal_transition() {
    let mut d = LineWorld::new();
    let mut c = Stateless::new(RandomAgent::new(2));
    let mut l = RecordingLearner::new();
    let mut rng = Rand::from_seed(1);
    let trace = run_episode(&mut d, &mut c, &mut l, &mut rng, 1000);
    let ended = trace.last().map(|t| t.to.is_terminal()).unwrap_or(false);
    let end_count = l.events.iter().filter(|e| **e == LearnerEvent::End).count();
    for (i, t) in trace.iter().enumerate() {
        assert_eq!(l.events[i], LearnerEvent::Step(t.reward));
    }
    if ended {
        assert_eq!(end_count, 1);
        assert_eq!(l.events.len(), trace.len() + 1);
        assert_eq!(*l.events.last().unwrap(), LearnerEvent::End);
    } else {
        assert_eq!(end_count, 0);
        assert_eq!(l.events.len(), trace.len());
    }
}

#[test]
fn episode_without_terminal_runs_the_full_budget() {
    let mut d = LineWorld::new();
    // One action only: the agent always draws 0 and walks into the clamp.
    let mut c = Stateless::new(RandomAgent::new(1));
    let mut l = RecordingLearner::new();
    let mut rng = Rand::from_seed(7);
    let trace = run_episode(&mut d, &mut c, &mut l, &mut rng, 5);
    assert_eq!(trace.len(), 5);
    for t in &trace {
        assert_eq!(t.to, Observation::Full(0));
        assert_eq!(t.reward, 0);
    }
    assert_eq!(l.events.len(), 5);
    assert!(l.events.iter().all(|e| *e == LearnerEvent::Step(0)));
}

#[test]
fn episode_with_zero_budget_is_empty() {
    let mut d = LineWorld::new();
    let mut c = Stateless::new(RandomAgent::new(2));
    let mut l = RecordingLearner::new();
    let mut rng = Rand::from_seed(3);
    let trace = run_episode(&mut d, &mut c, &mut l, &mut rng, 0);
    assert!(trace.is_empty());
    assert!(l.events.is_empty());
}

#[test]
fn batch_learner_records_each_item_in_order() {
    let mut d = LineWorld::new();
    let t1 = d.step(1);
    let t2 = d.step(0);
    let mut l = RecordingLearner::new();
    <RecordingLearner as BatchLearner<i64, usize>>::handle_batch(&mut l, &[t1, t2]);
    assert_eq!(
        l.events,
        vec![LearnerEvent::Step(t1.reward), LearnerEvent::Step(t2.reward)]
    );
}

#[test]
fn action_space_cardinality_sizes_the_agent() {
    let d = LineWorld::new();
    let agent = RandomAgent::from_space(&d.action_space());
    assert_eq!(agent.action_count, 2);
    let empty = RandomAgent::from_space(&(5usize..5usize));
    assert_eq!(empty.action_count, 0);
}

#[test]
fn random_agent_learns_nothing() {
    let mut agent = RandomAgent::new(2);
    let mut d = LineWorld::new();
    let t = d.step(1);
    <RandomAgent as OnlineLearner<i64, usize>>::handle_transition(&mut agent, &t);
    <RandomAgent as OnlineLearner<i64, usize>>::handle_terminal(&mut agent);
    assert_eq!(agent.action_count, 2);
}
