//! The shared strategy capability and the two strategies that decide
//! without lookahead: the random baseline and the human pass-through.

use vstd::prelude::*;

use crate::codec::{human_intent_to_intent, resolve_spec};
use crate::rng::rand_below;
use crate::state::GameState;
use crate::types::{AgentType, Dir, Intent, PlayerSide, ThrowDirection};

verus! {

/// A direction whose components were drawn from the random grid.
pub open spec fn bounded_dir(d: Dir) -> bool {
    -100 <= d.x && d.x <= 100 && -100 <= d.y && d.y <= 100
}

/// Turns two grid draws into a direction: each component is the draw
/// shifted onto `[-100, 100]`.
pub fn dir_of_draws(dx: u32, dy: u32) -> (d: Dir)
    requires
        dx < 201,
        dy < 201,
    ensures
        d == (Dir { x: (dx - 100) as i8, y: (dy - 100) as i8 }),
        bounded_dir(d),
{
    let x = dx as i16 - 100;
    let y = dy as i16 - 100;
    Dir { x: x as i8, y: y as i8 }
}

/// A direction with each component drawn uniformly from `[-100, 100]`; the
/// host normalizes it to unit length, so only the orientation matters.
pub fn random_direction() -> (d: Dir)
    ensures
        bounded_dir(d),
{
    let dx = rand_below(201);
    let dy = rand_below(201);
    dir_of_draws(dx, dy)
}

/// The throw direction a draw selects, in enumeration order.
pub open spec fn throw_dir_of_draw_spec(d: u32) -> ThrowDirection {
    if d == 0 {
        ThrowDirection::Up
    } else if d == 1 {
        ThrowDirection::LightUp
    } else if d == 2 {
        ThrowDirection::Middle
    } else if d == 3 {
        ThrowDirection::LightDown
    } else {
        ThrowDirection::Down
    }
}

/// Turns a draw into a throw direction by the enumeration table.
pub fn throw_dir_of_draw(d: u32) -> (t: ThrowDirection)
    ensures
        t == throw_dir_of_draw_spec(d),
{
    match d {
        0 => ThrowDirection::Up,
        1 => ThrowDirection::LightUp,
        2 => ThrowDirection::Middle,
        3 => ThrowDirection::LightDown,
        _ => ThrowDirection::Down,
    }
}

/// One of the five throw directions, drawn uniformly.
pub fn random_throw_direction() -> ThrowDirection {
    throw_dir_of_draw(rand_below(5))
}

/// What every strategy offers the host's game loop: one intent per decision
/// cycle for its side, and a tag naming the strategy.
pub trait Agent {
    /// Produces this cycle's intent for the given side from the live state.
    fn act(&mut self, side: PlayerSide, state: &mut GameState) -> Intent;

    /// The tag of this strategy.
    fn get_type(&self) -> AgentType;

    /// A uniformly drawn orientation for a random move or dash.
    fn get_random_direction(&self) -> (d: Dir)
        ensures
            bounded_dir(d),
    {
        random_direction()
    }
}

/// The stateless probabilistic baseline.
pub struct RandomAgent {}

/// What can come out of the random baseline for a given possession state: a
/// throw only while holding the frisbee, a move or dash along a drawn
/// direction only while not, and waiting always.
pub open spec fn random_choice_ok(holds: bool, r: Intent) -> bool {
    match r {
        Intent::Idle => true,
        Intent::Throw(_) => holds,
        Intent::Move(d) => !holds && bounded_dir(d),
        Intent::Dash(d) => !holds && bounded_dir(d),
    }
}

/// The baseline's decision table over a draw in millionths: while holding
/// the frisbee, throw below a quarter, else wait; otherwise move below a
/// half, dash below six tenths, else wait.
pub open spec fn random_decision_spec(
    holds: bool,
    draw: u32,
    dir: Dir,
    throw_dir: ThrowDirection,
) -> Intent {
    if holds {
        if draw < 250000 {
            Intent::Throw(throw_dir)
        } else {
            Intent::Idle
        }
    } else {
        if draw < 500000 {
            Intent::Move(dir)
        } else if draw < 600000 {
            Intent::Dash(dir)
        } else {
            Intent::Idle
        }
    }
}

/// Applies the baseline's decision table to one draw and the direction and
/// throw direction that would be used if the draw selects them.
pub fn random_decision(holds: bool, draw: u32, dir: Dir, throw_dir: ThrowDirection) -> (r: Intent)
    ensures
        r == random_decision_spec(holds, draw, dir, throw_dir),
{
    if holds {
        if draw < 250000 {
            Intent::Throw(throw_dir)
        } else {
            Intent::Idle
        }
    } else {
        if draw < 500000 {
            Intent::Move(dir)
        } else if draw < 600000 {
            Intent::Dash(dir)
        } else {
            Intent::Idle
        }
    }
}

impl RandomAgent {
    /// Draws once and applies the decision table: while holding the
    /// frisbee, throw in a uniformly random direction a quarter of the
    /// time, else wait; otherwise move half of the time, dash a tenth of
    /// the time, else wait.
    pub fn decide(&self, side: PlayerSide, state: &GameState) -> (r: Intent)
        ensures
            random_choice_ok(state.snapshot.holds(side), r),
    {
        let holds = state.snapshot.holds_frisbee(side);
        let draw = rand_below(1000000);
        let dir = random_direction();
        let throw_dir = random_throw_direction();
        random_decision(holds, draw, dir, throw_dir)
    }
}

impl Agent for RandomAgent {
    fn act(&mut self, side: PlayerSide, state: &mut GameState) -> Intent {
        self.decide(side, state)
    }

    fn get_type(&self) -> AgentType {
        AgentType::Random
    }
}

/// The pass-through strategy: it only applies the codec to the directional
/// input the host captured for its side.
pub struct HumanPlayerAgent {}

impl HumanPlayerAgent {
    /// Resolves the side's captured input against the live possession flag.
    pub fn decide(&self, side: PlayerSide, state: &GameState) -> (r: Intent)
        ensures
            r == resolve_spec(state.snapshot.holds(side), state.input_of(side), side),
    {
        let input = match side {
            PlayerSide::Left => state.inputs.0,
            PlayerSide::Right => state.inputs.1,
        };
        human_intent_to_intent(state, input, side)
    }
}

impl Agent for HumanPlayerAgent {
    fn act(&mut self, side: PlayerSide, state: &mut GameState) -> Intent {
        self.decide(side, state)
    }

    fn get_type(&self) -> AgentType {
        AgentType::HumanPlayer
    }
}

} // verus!
