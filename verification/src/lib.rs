//! Decision core for a two-player frisbee-catching game.
//!
//! Each agent strategy produces one discrete intent (move, dash, throw, or
//! nothing) for its side per decision cycle.  The surrounding game engine
//! (physics, rendering, input capture) is the host's concern: the host hands
//! the core plain observations of the live state and performs the simulation
//! steps that the lookahead strategies schedule.

pub mod agents;
pub mod codec;
pub mod qlearning;
pub mod qtable;
pub mod rng;
pub mod rollout;
pub mod search;
pub mod state;
pub mod types;

pub use agents::{dir_of_draws, random_decision, random_direction, random_throw_direction, throw_dir_of_draw, Agent, HumanPlayerAgent, RandomAgent};
pub use codec::{human_intent_from_index, human_intent_to_index, human_intent_to_intent, HumanIntent};
pub use qlearning::TabularQLearningAgent;
pub use qtable::{get_blank_q_values, max_index, QValueRow, QValues, QVALUES_ACTIONS, QVALUES_STATES};
pub use rollout::{candidate_intents, intents_for_side, BestTracker, RandomRolloutAgent};
pub use search::{expand_step, get_best, heuristic_delta, root_nodes_and_tasks, select_intent, should_expand, DijkstraAgent, DistChange, Expansion, Node, COST_BOUND, SCORE_LIMIT};
pub use state::{GameState, PlayerView, StateSnapshot};
pub use types::{agent_type_from_i8, ActionResult, AgentType, Dir, Intent, PlayerSide, ThrowDirection};
