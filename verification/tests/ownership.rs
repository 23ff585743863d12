//! Tests of the shared ownership wrapper: visibility of updates across
//! holders, the aliasing-violation failure, and trait forwarding through
//! a shared handle.

use rsrl_types::Counter;
use rsrl_types::Domain;
use rsrl_types::LearnerEvent;
use rsrl_types::LineWorld;
use rsrl_types::OnlineLearner;
use rsrl_types::Rand;
use rsrl_types::RandomAgent;
use rsrl_types::RecordingLearner;
use rsrl_types::Shared;
use rsrl_types::shared_handle_batch;
use rsrl_types::shared_handle_terminal;
use rsrl_types::shared_handle_transition;
use rsrl_types::shared_sample_behaviour;
use rsrl_types::shared_sample_target;

#[test]
fn holders_observe_each_others_updates() {
    let holder_a: Shared<Counter> = Shared::new(Counter::new());
    let holder_b = holder_a.clone();

    let mut counter = holder_a.take().unwrap();
    counter.increment();
    holder_a.put(counter);

    let counter = holder_b.take().unwrap();
    assert_eq!(counter.get(), 1);
    holder_b.put(counter);
}

#[test]
fn overlapping_exclusive_access_is_an_aliasing_violation() {
    let holder_a: Shared<Counter> = Shared::new(Counter::new());
    let holder_b = holder_a.clone();

    let held = holder_a.take().unwrap();
    assert!(holder_b.take().is_err());
    holder_a.put(held);

    let counter = holder_b.take().unwrap();
    assert_eq!(counter.get(), 0);
    holder_b.put(counter);
}

#[test]
fn shared_learner_forwards_to_the_wrapped_learner() {
    let mut shared: Shared<RecordingLearner> = Shared::new(RecordingLearner::new());
    let mut d = LineWorld::new();
    let t = d.step(1);
    <Shared<RecordingLearner> as OnlineLearner<i64, usize>>::handle_transition(&mut shared, &t);
    <Shared<RecordingLearner> as OnlineLearner<i64, usize>>::handle_terminal(&mut shared);
    let learner = shared.take().unwrap();
    assert_eq!(learner.events, vec![LearnerEvent::Step(0), LearnerEvent::End]);
    shared.put(learner);
}

#[test]
fn shared_controller_samples_and_surfaces_violations() {
    let shared: Shared<RandomAgent> = Shared::new(RandomAgent::new(2));
    let mut rng = Rand::from_seed(5);
    let a = shared_sample_target(&shared, &mut rng, &0i64).unwrap();
    assert!(a < 2);
    let b = shared_sample_behaviour(&shared, &mut rng, &0i64).unwrap();
    assert!(b < 2);

    let held = shared.take().unwrap();
    assert!(shared_sample_target(&shared, &mut rng, &0i64).is_err());
    assert!(shared_sample_behaviour(&shared, &mut rng, &0i64).is_err());
    shared.put(held);
}

#[test]
fn learner_forwarders_surface_violations() {
    let shared: Shared<RecordingLearner> = Shared::new(RecordingLearner::new());
    let mut d = LineWorld::new();
    let t = d.step(1);

    assert!(shared_handle_transition(&shared, &t).is_ok());
    assert!(shared_handle_terminal::<i64, usize, RecordingLearner>(&shared).is_ok());

    let held = shared.take().unwrap();
    assert!(shared_handle_transition(&shared, &t).is_err());
    assert!(shared_handle_terminal::<i64, usize, RecordingLearner>(&shared).is_err());
    assert!(shared_handle_batch(&shared, &[t]).is_err());
    shared.put(held);

    assert!(shared_handle_batch(&shared, &[t]).is_ok());
    let learner = shared.take().unwrap();
    assert_eq!(
        learner.events,
        vec![
            LearnerEvent::Step(0),
            LearnerEvent::End,
            LearnerEvent::Step(0)
        ]
    );
    shared.put(learner);
}
