//! The epsilon-greedy learned policy over the shared value table.

use vstd::prelude::*;

use crate::agents::Agent;
use crate::codec::{
    human_intent_from_index, human_intent_from_index_spec, human_intent_to_intent, resolve_spec,
};
use crate::qtable::{first_max_index, max_index, QVALUES_ACTIONS};
use crate::rng::rand_below;
use crate::state::GameState;
use crate::types::{AgentType, Intent, PlayerSide};

verus! {

broadcast use vstd::std_specs::hash::group_hash_axioms;

/// The epsilon-greedy lookup policy: it consumes the exploration rate and
/// the value table from the live state.
pub struct TabularQLearningAgent {}

/// The action index the exploit path picks: the first maximum of the side's
/// row when the state hash is in the table, and 0 for an unseen state.
pub open spec fn exploit_index_spec(state: GameState, side: PlayerSide) -> int {
    if state.q_values@.contains_key(state.hash) {
        if side == PlayerSide::Left {
            first_max_index(state.q_values@[state.hash].0@)
        } else {
            first_max_index(state.q_values@[state.hash].1@)
        }
    } else {
        0
    }
}

/// One learned-policy decision with chosen action index `i`: the index's
/// flag combination is written into the side's input slot, nothing else of
/// the state changes, and the returned intent is that combination resolved
/// for the side.
pub open spec fn q_decision(
    pre: GameState,
    post: GameState,
    side: PlayerSide,
    i: int,
    r: Intent,
) -> bool {
    &&& 0 <= i < QVALUES_ACTIONS
    &&& post.snapshot == pre.snapshot
    &&& post.explo_rate_ppm == pre.explo_rate_ppm
    &&& post.hash == pre.hash
    &&& post.q_values == pre.q_values
    &&& (if side == PlayerSide::Left {
        post.inputs.0 == human_intent_from_index_spec(i as u8) && post.inputs.1 == pre.inputs.1
    } else {
        post.inputs.1 == human_intent_from_index_spec(i as u8) && post.inputs.0 == pre.inputs.0
    })
    &&& r == resolve_spec(pre.snapshot.holds(side), human_intent_from_index_spec(i as u8), side)
}

impl TabularQLearningAgent {
    /// With probability `explo_rate_ppm` in a million, explores a uniformly
    /// random action index; otherwise exploits the table.  Either way the
    /// chosen combination is recorded in the side's input slot and resolved
    /// into this cycle's intent.
    pub fn decide(&self, side: PlayerSide, state: &mut GameState) -> (r: Intent)
        ensures
            exists|i: int| q_decision(*old(state), *final(state), side, i, r),
            old(state).explo_rate_ppm == 0 ==> q_decision(
                *old(state),
                *final(state),
                side,
                exploit_index_spec(*old(state), side),
                r,
            ),
    {
        let explore = rand_below(1000000) < state.explo_rate_ppm;
        let idx: u8;
        if explore {
            idx = rand_below(QVALUES_ACTIONS as u32) as u8;
        } else {
            match state.q_values.get(&state.hash) {
                Some(entry) => {
                    let row = match side {
                        PlayerSide::Left => &entry.0,
                        PlayerSide::Right => &entry.1,
                    };
                    idx = max_index(row) as u8;
                },
                None => {
                    idx = 0;
                },
            }
        }
        let chosen = human_intent_from_index(idx);
        match side {
            PlayerSide::Left => {
                state.inputs.0 = chosen;
            },
            PlayerSide::Right => {
                state.inputs.1 = chosen;
            },
        }
        let r = human_intent_to_intent(state, chosen, side);
        proof {
            assert(q_decision(*old(state), *state, side, idx as int, r));
        }
        r
    }
}

impl Agent for TabularQLearningAgent {
    fn act(&mut self, side: PlayerSide, state: &mut GameState) -> Intent {
        self.decide(side, state)
    }

    fn get_type(&self) -> AgentType {
        AgentType::TabularQLearning
    }
}

} // verus!
