//! The discrete action space and the identifiers shared by every strategy.

use vstd::prelude::*;

verus! {

/// Which of the two players an agent acts for.
#[derive(Clone, Copy, PartialEq, Eq, Structural, Debug)]
pub enum PlayerSide {
    Left,
    Right,
}

/// The strategies a host can instantiate; `Unknown` stands for a
/// configuration value that selects none of them.
#[derive(Clone, Copy, PartialEq, Eq, Structural, Debug)]
pub enum AgentType {
    HumanPlayer,
    Random,
    RandomRollout,
    Dijkstra,
    TabularQLearning,
    Unknown,
}

/// One of the five directions a held frisbee can be thrown in.
#[derive(Clone, Copy, PartialEq, Eq, Structural, Debug)]
pub enum ThrowDirection {
    Up,
    LightUp,
    Middle,
    LightDown,
    Down,
}

/// An orientation in the plane, given by integer components.
///
/// Only the orientation matters: the host normalizes the vector to unit
/// length before feeding it to the physics step, and a zero vector stays
/// zero.  Directions derived from directional input keep their components in
/// `{-1, 0, 1}`; randomly drawn directions use the range `[-100, 100]`.
#[derive(Clone, Copy, PartialEq, Eq, Structural, Debug)]
pub struct Dir {
    pub x: i8,
    pub y: i8,
}

/// The single discrete action an agent selects per decision cycle.
#[derive(Clone, Copy, PartialEq, Eq, Structural, Debug)]
pub enum Intent {
    Idle,
    Move(Dir),
    Dash(Dir),
    Throw(ThrowDirection),
}

/// What applying an intent to the game state amounted to; recorded by a
/// trainer outside this core.
#[derive(Clone, Copy, PartialEq, Eq, Structural, Debug)]
pub enum ActionResult {
    Idle,
    Moved,
    Dashed,
    GrabbedFrisbee,
    Threw,
}

/// The strategy selected by a small-integer configuration value.
pub open spec fn agent_type_from_i8_spec(side: i8) -> AgentType {
    if side == 0 {
        AgentType::HumanPlayer
    } else if side == 1 {
        AgentType::Random
    } else if side == 2 {
        AgentType::RandomRollout
    } else if side == 3 {
        AgentType::Dijkstra
    } else if side == 4 {
        AgentType::TabularQLearning
    } else {
        AgentType::Unknown
    }
}

/// Maps a configuration value to the strategy it selects; any value outside
/// the five known ones selects no strategy.
pub fn agent_type_from_i8(side: i8) -> (t: AgentType)
    ensures
        t == agent_type_from_i8_spec(side),
{
    match side {
        0 => AgentType::HumanPlayer,
        1 => AgentType::Random,
        2 => AgentType::RandomRollout,
        3 => AgentType::Dijkstra,
        4 => AgentType::TabularQLearning,
        _ => AgentType::Unknown,
    }
}

} // verus!
