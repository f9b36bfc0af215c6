//! The intent and action codec.
//!
//! Seventeen flag combinations are canonical and map to the indices `0..=16`
//! that the value table is shaped around: index 0 is idle, 1-4 the single
//! directions, 5-8 the diagonal pairs, 9-12 throw plus a single direction,
//! 13-16 throw plus a diagonal pair.  Every other combination is
//! non-canonical and maps to idle in both directions.  The mapping is a
//! closed, hand-enumerated table, not a formula.

use vstd::prelude::*;

use crate::state::GameState;
use crate::types::{Dir, Intent, PlayerSide, ThrowDirection};

verus! {

/// The directional input captured for one side during one decision cycle:
/// five independent flags.
#[derive(Clone, Copy, PartialEq, Eq, Structural, Debug)]
pub struct HumanIntent {
    pub up: bool,
    pub down: bool,
    pub left: bool,
    pub right: bool,
    pub throw: bool,
}

/// The flag combination with the given five flags set.
pub open spec fn flags(up: bool, down: bool, left: bool, right: bool, throw: bool) -> HumanIntent {
    HumanIntent { up, down, left, right, throw }
}

/// The combination with no flag set.
pub open spec fn idle_flags() -> HumanIntent {
    flags(false, false, false, false, false)
}

/// The compact index of a flag combination: the hand-enumerated table, with
/// every non-canonical combination falling through to 0.
pub open spec fn human_intent_to_index_spec(v: HumanIntent) -> u8 {
    if v == flags(true, false, false, false, false) {
        1
    } else if v == flags(false, true, false, false, false) {
        2
    } else if v == flags(false, false, true, false, false) {
        3
    } else if v == flags(false, false, false, true, false) {
        4
    } else if v == flags(true, false, true, false, false) {
        5
    } else if v == flags(true, false, false, true, false) {
        6
    } else if v == flags(false, true, true, false, false) {
        7
    } else if v == flags(false, true, false, true, false) {
        8
    } else if v == flags(true, false, false, false, true) {
        9
    } else if v == flags(false, true, false, false, true) {
        10
    } else if v == flags(false, false, true, false, true) {
        11
    } else if v == flags(false, false, false, true, true) {
        12
    } else if v == flags(true, false, true, false, true) {
        13
    } else if v == flags(true, false, false, true, true) {
        14
    } else if v == flags(false, true, true, false, true) {
        15
    } else if v == flags(false, true, false, true, true) {
        16
    } else {
        0
    }
}

/// The flag combination of a compact index; any index outside `1..=16` gives
/// the idle combination.
pub open spec fn human_intent_from_index_spec(idx: u8) -> HumanIntent {
    if idx == 1 {
        flags(true, false, false, false, false)
    } else if idx == 2 {
        flags(false, true, false, false, false)
    } else if idx == 3 {
        flags(false, false, true, false, false)
    } else if idx == 4 {
        flags(false, false, false, true, false)
    } else if idx == 5 {
        flags(true, false, true, false, false)
    } else if idx == 6 {
        flags(true, false, false, true, false)
    } else if idx == 7 {
        flags(false, true, true, false, false)
    } else if idx == 8 {
        flags(false, true, false, true, false)
    } else if idx == 9 {
        flags(true, false, false, false, true)
    } else if idx == 10 {
        flags(false, true, false, false, true)
    } else if idx == 11 {
        flags(false, false, true, false, true)
    } else if idx == 12 {
        flags(false, false, false, true, true)
    } else if idx == 13 {
        flags(true, false, true, false, true)
    } else if idx == 14 {
        flags(true, false, false, true, true)
    } else if idx == 15 {
        flags(false, true, true, false, true)
    } else if idx == 16 {
        flags(false, true, false, true, true)
    } else {
        idle_flags()
    }
}

/// A combination is canonical when some index of the table produces it.
pub open spec fn is_canonical(v: HumanIntent) -> bool {
    exists|i: u8| i < 17 && human_intent_from_index_spec(i) == v
}

/// The compact index of a captured flag combination.
pub fn human_intent_to_index(val: HumanIntent) -> (idx: u8)
    ensures
        idx == human_intent_to_index_spec(val),
        idx < 17,
{
    if val == (HumanIntent { up: true, down: false, left: false, right: false, throw: false }) { return 1; }
    if val == (HumanIntent { up: false, down: true, left: false, right: false, throw: false }) { return 2; }
    if val == (HumanIntent { up: false, down: false, left: true, right: false, throw: false }) { return 3; }
    if val == (HumanIntent { up: false, down: false, left: false, right: true, throw: false }) { return 4; }
    if val == (HumanIntent { up: true, down: false, left: true, right: false, throw: false }) { return 5; }
    if val == (HumanIntent { up: true, down: false, left: false, right: true, throw: false }) { return 6; }
    if val == (HumanIntent { up: false, down: true, left: true, right: false, throw: false }) { return 7; }
    if val == (HumanIntent { up: false, down: true, left: false, right: true, throw: false }) { return 8; }
    if val == (HumanIntent { up: true, down: false, left: false, right: false, throw: true }) { return 9; }
    if val == (HumanIntent { up: false, down: true, left: false, right: false, throw: true }) { return 10; }
    if val == (HumanIntent { up: false, down: false, left: true, right: false, throw: true }) { return 11; }
    if val == (HumanIntent { up: false, down: false, left: false, right: true, throw: true }) { return 12; }
    if val == (HumanIntent { up: true, down: false, left: true, right: false, throw: true }) { return 13; }
    if val == (HumanIntent { up: true, down: false, left: false, right: true, throw: true }) { return 14; }
    if val == (HumanIntent { up: false, down: true, left: true, right: false, throw: true }) { return 15; }
    if val == (HumanIntent { up: false, down: true, left: false, right: true, throw: true }) { return 16; }
    0
}

/// The flag combination selected by a compact index.
pub fn human_intent_from_index(idx: u8) -> (val: HumanIntent)
    ensures
        val == human_intent_from_index_spec(idx),
{
    if idx == 1 { return HumanIntent { up: true, down: false, left: false, right: false, throw: false }; }
    if idx == 2 { return HumanIntent { up: false, down: true, left: false, right: false, throw: false }; }
    if idx == 3 { return HumanIntent { up: false, down: false, left: true, right: false, throw: false }; }
    if idx == 4 { return HumanIntent { up: false, down: false, left: false, right: true, throw: false }; }
    if idx == 5 { return HumanIntent { up: true, down: false, left: true, right: false, throw: false }; }
    if idx == 6 { return HumanIntent { up: true, down: false, left: false, right: true, throw: false }; }
    if idx == 7 { return HumanIntent { up: false, down: true, left: true, right: false, throw: false }; }
    if idx == 8 { return HumanIntent { up: false, down: true, left: false, right: true, throw: false }; }
    if idx == 9 { return HumanIntent { up: true, down: false, left: false, right: false, throw: true }; }
    if idx == 10 { return HumanIntent { up: false, down: true, left: false, right: false, throw: true }; }
    if idx == 11 { return HumanIntent { up: false, down: false, left: true, right: false, throw: true }; }
    if idx == 12 { return HumanIntent { up: false, down: false, left: false, right: true, throw: true }; }
    if idx == 13 { return HumanIntent { up: true, down: false, left: true, right: false, throw: true }; }
    if idx == 14 { return HumanIntent { up: true, down: false, left: false, right: true, throw: true }; }
    if idx == 15 { return HumanIntent { up: false, down: true, left: true, right: false, throw: true }; }
    if idx == 16 { return HumanIntent { up: false, down: true, left: false, right: true, throw: true }; }
    HumanIntent { up: false, down: false, left: false, right: false, throw: false }
}

/// The codec round-trips: every canonical index comes back unchanged from
/// its own flag combination.
pub proof fn lemma_codec_round_trip(i: u8)
    requires
        i < 17,
    ensures
        human_intent_to_index_spec(human_intent_from_index_spec(i)) == i,
{
}

/// The codec is closed: a non-canonical flag combination maps to index 0,
/// the idle action.
pub proof fn lemma_codec_closure(v: HumanIntent)
    ensures
        !is_canonical(v) ==> human_intent_to_index_spec(v) == 0,
{
    let k = human_intent_to_index_spec(v);
    if k != 0 {
        assert(human_intent_from_index_spec(k) == v);
        assert(k < 17);
        assert(is_canonical(v));
    }
}

/// The direction a flag combination points in: the axes are added, so
/// opposite flags of one axis cancel to zero.
pub open spec fn dir_of_flags(v: HumanIntent) -> Dir {
    Dir {
        x: if v.right && !v.left { 1i8 } else if v.left && !v.right { -1i8 } else { 0i8 },
        y: if v.up && !v.down { 1i8 } else if v.down && !v.up { -1i8 } else { 0i8 },
    }
}

/// Whether the combination's horizontal flag points toward the opponent's
/// half: right for the left player, left for the right player.
pub open spec fn toward_opponent(v: HumanIntent, side: PlayerSide) -> bool {
    (v.right && side == PlayerSide::Left) || (v.left && side == PlayerSide::Right)
}

/// The throw direction a combination selects: the vertical flag picks up or
/// down, the light variant when the horizontal flag points toward the
/// opponent, and middle when no vertical flag is set.
pub open spec fn throw_dir_of_flags(v: HumanIntent, side: PlayerSide) -> ThrowDirection {
    if v.up {
        if toward_opponent(v, side) {
            ThrowDirection::LightUp
        } else {
            ThrowDirection::Up
        }
    } else if v.down {
        if toward_opponent(v, side) {
            ThrowDirection::LightDown
        } else {
            ThrowDirection::Down
        }
    } else {
        ThrowDirection::Middle
    }
}

/// The intent a flag combination resolves to, given whether the acting side
/// holds the frisbee: a throw only while holding, a dash when throw is asked
/// for empty-handed, a move along the combined direction, and idle when
/// nothing is asked.
pub open spec fn resolve_spec(has_frisbee: bool, v: HumanIntent, side: PlayerSide) -> Intent {
    if v.throw {
        if has_frisbee {
            Intent::Throw(throw_dir_of_flags(v, side))
        } else {
            Intent::Dash(dir_of_flags(v))
        }
    } else {
        if dir_of_flags(v) == (Dir { x: 0, y: 0 }) {
            Intent::Idle
        } else {
            Intent::Move(dir_of_flags(v))
        }
    }
}

/// A throw request while not holding the frisbee never produces a throw: it
/// degrades to a dash along the combination's direction.
pub proof fn lemma_throw_without_frisbee_dashes(v: HumanIntent, side: PlayerSide)
    requires
        v.throw,
    ensures
        resolve_spec(false, v, side) == Intent::Dash(dir_of_flags(v)),
{
}

/// Resolves a captured flag combination into the intent for the given side,
/// reading the live state's possession flag.
pub fn human_intent_to_intent(state: &GameState, input: HumanIntent, side: PlayerSide) -> (r: Intent)
    ensures
        r == resolve_spec(state.snapshot.holds(side), input, side),
{
    let has_frisbee = state.snapshot.holds_frisbee(side);

    let mut x: i8 = 0;
    let mut y: i8 = 0;
    if input.up {
        y = y + 1;
    }
    if input.down {
        y = y - 1;
    }
    if input.left {
        x = x - 1;
    }
    if input.right {
        x = x + 1;
    }
    let dir = Dir { x, y };

    if input.throw {
        if has_frisbee {
            let mut throw_dir = ThrowDirection::Middle;
            if input.up {
                if (input.right && side == PlayerSide::Left) || (input.left && side == PlayerSide::Right) {
                    throw_dir = ThrowDirection::LightUp;
                } else {
                    throw_dir = ThrowDirection::Up;
                }
            } else if input.down {
                if (input.right && side == PlayerSide::Left) || (input.left && side == PlayerSide::Right) {
                    throw_dir = ThrowDirection::LightDown;
                } else {
                    throw_dir = ThrowDirection::Down;
                }
            }
            Intent::Throw(throw_dir)
        } else {
            Intent::Dash(dir)
        }
    } else {
        if x == 0 && y == 0 {
            Intent::Idle
        } else {
            Intent::Move(dir)
        }
    }
}

} // verus!
