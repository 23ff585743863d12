//! Core contract layer for reinforcement-learning experiments: the
//! `Domain` environment interface, the `Controller` / `OnlineController`
//! policy interfaces, the `OnlineLearner` / `BatchLearner` interfaces, the
//! `Observation` / `Transition` data model, and the `Shared` ownership
//! wrapper that lets one agent object be used from several components.

pub mod agent;
pub mod domains;
pub mod driver;
pub mod geometry;
pub mod line_world;
pub mod memory;
pub mod random;

pub use agent::BatchLearner;
pub use agent::Controller;
pub use agent::OnlineController;
pub use agent::OnlineLearner;
pub use agent::Stateless;
pub use agent::lemma_stateless_samples_as_controller;
pub use agent::shared_handle_batch;
pub use agent::shared_handle_terminal;
pub use agent::shared_handle_transition;
pub use agent::shared_sample_behaviour;
pub use agent::shared_sample_target;

pub use memory::AliasingViolation;
pub use memory::Shared;

pub use geometry::interval_bounds;

pub use line_world::Counter;
pub use line_world::LearnerEvent;
pub use line_world::LineWorld;
pub use line_world::RandomAgent;
pub use line_world::RecordingLearner;
pub use line_world::lemma_recording_learner_log;

pub use random::Rand;
pub use random::RandView;

pub use driver::ended;
pub use driver::learned;
pub use driver::run_episode;

pub use domains::Action;
pub use domains::Domain;
pub use domains::Observation;
pub use domains::Reward;
pub use domains::State;
pub use domains::Transition;
pub use domains::emit_twice;
pub use domains::step_then_emit;
