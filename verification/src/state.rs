//! The core's view of the live game state.
//!
//! The host's engine owns the real state (positions, physics, the match
//! clock); the core only ever reads the plain facts below, so the host hands
//! them over as values.  A snapshot is independently owned: mutating the
//! engine afterwards cannot be observed through it.

use vstd::prelude::*;

use crate::codec::HumanIntent;
use crate::qtable::QValues;
use crate::types::PlayerSide;

verus! {

/// What the core reads of one player.
#[derive(Clone, Copy, PartialEq, Eq, Structural, Debug)]
pub struct PlayerView {
    /// The player's current score.
    pub score: i8,
    /// Whether a dash is still in progress for this player.
    pub sliding: bool,
}

/// A plain snapshot of the facts every strategy reasons about.
#[derive(Clone, Copy, PartialEq, Debug)]
pub struct StateSnapshot {
    /// The left player's view.
    pub left: PlayerView,
    /// The right player's view.
    pub right: PlayerView,
    /// Which side holds the frisbee, if any.
    pub held_by: Option<PlayerSide>,
    /// Whether the match is still in its playing phase.
    pub playing: bool,
}

impl StateSnapshot {
    /// The view of the given side's player.
    pub open spec fn player(self, side: PlayerSide) -> PlayerView {
        if side == PlayerSide::Left {
            self.left
        } else {
            self.right
        }
    }

    /// Whether the given side holds the frisbee.
    pub open spec fn holds(self, side: PlayerSide) -> bool {
        self.held_by == Some(side)
    }

    /// The given side's score.
    pub fn score_of(&self, side: PlayerSide) -> (s: i8)
        ensures
            s == self.player(side).score,
    {
        match side {
            PlayerSide::Left => self.left.score,
            PlayerSide::Right => self.right.score,
        }
    }

    /// Whether the given side is mid-dash.
    pub fn sliding_of(&self, side: PlayerSide) -> (b: bool)
        ensures
            b == self.player(side).sliding,
    {
        match side {
            PlayerSide::Left => self.left.sliding,
            PlayerSide::Right => self.right.sliding,
        }
    }

    /// Whether the given side holds the frisbee.
    pub fn holds_frisbee(&self, side: PlayerSide) -> (b: bool)
        ensures
            b == self.holds(side),
    {
        match self.held_by {
            Some(held_by) => held_by == side,
            _ => false,
        }
    }
}

/// The live state a strategy acts on: the snapshot facts plus the captured
/// inputs, the learned-policy configuration and the value table.
pub struct GameState {
    /// The plain facts of the current state.
    pub snapshot: StateSnapshot,
    /// The captured directional input of each side (left, right).  The
    /// learned policy writes its chosen flags back into its own slot.
    pub inputs: (HumanIntent, HumanIntent),
    /// The exploration probability of the learned policy, in millionths.
    pub explo_rate_ppm: u32,
    /// The engine's stable hash of the current state.
    pub hash: u64,
    /// The shared action-value table; this core only reads it.
    pub q_values: QValues,
}

impl GameState {
    /// The captured input of the given side.
    pub open spec fn input_of(self, side: PlayerSide) -> HumanIntent {
        if side == PlayerSide::Left {
            self.inputs.0
        } else {
            self.inputs.1
        }
    }
}

} // verus!
