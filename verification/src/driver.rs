//! A verified episode driver: steps a domain, forwards every transition to
//! the learner, and performs end-of-episode housekeeping exactly once,
//! after the terminal transition has been handled.

use vstd::prelude::*;

use crate::agent::OnlineController;
use crate::agent::OnlineLearner;
use crate::domains::Action;
use crate::domains::Domain;
use crate::domains::Observation;
use crate::domains::State;
use crate::domains::Transition;
use crate::random::Rand;

verus! {

/// The learner model reached by handling the given transitions in order,
/// starting from model `m`.
pub open spec fn learned<S, A, L: OnlineLearner<S, A>>(
    m: L::Model,
    transitions: Seq<Transition<S, A>>,
) -> L::Model
    decreases transitions.len(),
{
    if transitions.len() == 0 {
        m
    } else {
        L::transitioned(learned::<S, A, L>(m, transitions.drop_last()), transitions.last())
    }
}

/// Whether a trace ends the episode: its last transition reached a
/// terminal observation.
pub open spec fn ended<S, A>(trace: Seq<Transition<S, A>>) -> bool {
    trace.len() > 0 && trace.last().to.is_terminal_spec()
}

/// Runs one episode of at most `max_steps` steps: samples an initial
/// action from the target policy, then repeatedly steps the domain,
/// forwards the transition to the learner, and samples the next action
/// from the behaviour policy, until a terminal observation or the step
/// budget ends the episode.  Returns the trace of transitions, oldest
/// first.
///
/// The contract ties the learner's final model to the trace: the
/// transitions are handled in order, and end-of-episode housekeeping runs
/// exactly once — after the terminal transition has been handled — and
/// only when the episode actually ended in a terminal observation.  For a
/// controller that obeys its sampling model, the episode's first action is
/// the target-policy choice for the observation the domain presented
/// before any step — the one a freshly constructed domain promises to be
/// non-terminal.
pub fn run_episode<
    D: Domain,
    C: OnlineController<Observation<State<D>>, Action<D>>,
    L: OnlineLearner<State<D>, Action<D>>,
>(
    domain: &mut D,
    controller: &mut C,
    learner: &mut L,
    rng: &mut Rand,
    max_steps: usize,
) -> (trace: Vec<Transition<State<D>, Action<D>>>)
    ensures
        trace@.len() <= max_steps,
        forall|j: int| 0 <= j < trace@.len() - 1 ==> !trace@[j].to.is_terminal_spec(),
        trace@.len() > 0 ==> trace@[0].from == old(domain).observation(),
        forall|j: int| 1 <= j < trace@.len() ==> trace@[j].from == trace@[j - 1].to,
        trace@.len() > 0 ==> trace@.last().to == final(domain).observation(),
        trace@.len() == 0 ==> *final(domain) == *old(domain),
        ended(trace@) ==> final(learner).model() == L::terminated(
            learned::<State<D>, Action<D>, L>(old(learner).model(), trace@),
        ),
        !ended(trace@) ==> final(learner).model() == learned::<State<D>, Action<D>, L>(
            old(learner).model(),
            trace@,
        ) && trace@.len() == max_steps,
        max_steps > 0 ==> trace@.len() > 0,
        max_steps > 0 && old(controller).obeys() ==> trace@[0].action == old(
            controller,
        ).target_choice(old(rng)@, old(domain).observation()).0,
{
    let mut trace: Vec<Transition<State<D>, Action<D>>> = Vec::new();
    if max_steps == 0 {
        return trace;
    }
    let first_obs = domain.emit();
    let mut action = controller.sample_target(rng, &first_obs);
    let ghost first_action = action;
    let mut i: usize = 0;
    while i < max_steps
        invariant_except_break
            forall|j: int| 0 <= j < trace@.len() ==> !trace@[j].to.is_terminal_spec(),
            (*learner).model() == learned::<State<D>, Action<D>, L>(
                old(learner).model(),
                trace@,
            ),
        invariant
            i <= max_steps,
            trace@.len() == i as int,
            trace@.len() == 0 ==> action == first_action,
            trace@.len() > 0 ==> trace@[0].action == first_action,
            old(controller).obeys() ==> first_action == old(controller).target_choice(
                old(rng)@,
                old(domain).observation(),
            ).0,
            trace@.len() > 0 ==> trace@[0].from == old(domain).observation(),
            forall|j: int| 1 <= j < trace@.len() ==> trace@[j].from == trace@[j - 1].to,
            trace@.len() > 0 ==> trace@.last().to == (*domain).observation(),
            trace@.len() == 0 ==> *domain == *old(domain),
        ensures
            trace@.len() <= max_steps,
            forall|j: int| 0 <= j < trace@.len() - 1 ==> !trace@[j].to.is_terminal_spec(),
            trace@.len() > 0 ==> trace@[0].from == old(domain).observation(),
            forall|j: int| 1 <= j < trace@.len() ==> trace@[j].from == trace@[j - 1].to,
            trace@.len() > 0 ==> trace@.last().to == (*domain).observation(),
            trace@.len() == 0 ==> *domain == *old(domain),
            ended(trace@) ==> (*learner).model() == L::terminated(
                learned::<State<D>, Action<D>, L>(old(learner).model(), trace@),
            ),
            !ended(trace@) ==> (*learner).model() == learned::<State<D>, Action<D>, L>(
                old(learner).model(),
                trace@,
            ) && trace@.len() == max_steps,
            trace@.len() > 0 ==> trace@[0].action == first_action,
            old(controller).obeys() ==> first_action == old(controller).target_choice(
                old(rng)@,
                old(domain).observation(),
            ).0,
        decreases max_steps - i,
    {
        let t = domain.step(action);
        learner.handle_transition(&t);
        proof {
            assert(trace@.push(t).drop_last() =~= trace@);
            assert(learned::<State<D>, Action<D>, L>(old(learner).model(), trace@.push(t))
                == L::transitioned(
                learned::<State<D>, Action<D>, L>(old(learner).model(), trace@),
                t,
            ));
        }
        if t.to.is_terminal() {
            learner.handle_terminal();
            controller.handle_terminal();
            trace.push(t);
            i = i + 1;
            break;
        }
        action = controller.sample_behaviour(rng, &t.to);
        trace.push(t);
        i = i + 1;
    }
    trace
}

} // verus!
