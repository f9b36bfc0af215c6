use frisbee_agents::{
    human_intent_from_index, human_intent_to_index, human_intent_to_intent, Dir, GameState,
    HumanIntent, Intent, PlayerSide, PlayerView, QValues, StateSnapshot, ThrowDirection,
};

fn flags(up: bool, down: bool, left: bool, right: bool, throw: bool) -> HumanIntent {
    HumanIntent { up, down, left, right, throw }
}

fn state_with(held_by: Option<PlayerSide>) -> GameState {
    GameState {
        snapshot: StateSnapshot {
            left: PlayerView { score: 0, sliding: false },
            right: PlayerView { score: 0, sliding: false },
            held_by,
            playing: true,
        },
        inputs: (flags(false, false, false, false, false), flags(false, false, false, false, false)),
        explo_rate_ppm: 0,
        hash: 0,
        q_values: QValues::new(),
    }
}

#[test]
fn round_trip_all_indices() {
    for i in 0..17u8 {
        assert_eq!(human_intent_to_index(human_intent_from_index(i)), i);
    }
}

#[test]
fn index_table_exact() {
    assert_eq!(human_intent_to_index(flags(false, false, false, false, false)), 0);
    assert_eq!(human_intent_to_index(flags(true, false, false, false, false)), 1);
    assert_eq!(human_intent_to_index(flags(false, true, false, false, false)), 2);
    assert_eq!(human_intent_to_index(flags(false, false, true, false, false)), 3);
    assert_eq!(human_intent_to_index(flags(false, false, false, true, false)), 4);
    assert_eq!(human_intent_to_index(flags(true, false, true, false, false)), 5);
    assert_eq!(human_intent_to_index(flags(true, false, false, true, false)), 6);
    assert_eq!(human_intent_to_index(flags(false, true, true, false, false)), 7);
    assert_eq!(human_intent_to_index(flags(false, true, false, true, false)), 8);
    assert_eq!(human_intent_to_index(flags(true, false, false, false, true)), 9);
    assert_eq!(human_intent_to_index(flags(false, true, false, false, true)), 10);
    assert_eq!(human_intent_to_index(flags(false, false, true, false, true)), 11);
    assert_eq!(human_intent_to_index(flags(false, false, false, true, true)), 12);
    assert_eq!(human_intent_to_index(flags(true, false, true, false, true)), 13);
    assert_eq!(human_intent_to_index(flags(true, false, false, true, true)), 14);
    assert_eq!(human_intent_to_index(flags(false, true, true, false, true)), 15);
    assert_eq!(human_intent_to_index(flags(false, true, false, true, true)), 16);
}

#[test]
fn non_canonical_combinations_map_to_idle() {
    // Up and Down set simultaneously, with and without more flags.
    assert_eq!(human_intent_to_index(flags(true, true, false, false, false)), 0);
    assert_eq!(human_intent_to_index(flags(true, true, true, false, false)), 0);
    assert_eq!(human_intent_to_index(flags(true, true, false, false, true)), 0);
    // Left and Right set simultaneously.
    assert_eq!(human_intent_to_index(flags(false, false, true, true, false)), 0);
    assert_eq!(human_intent_to_index(flags(true, false, true, true, true)), 0);
    // Everything at once.
    assert_eq!(human_intent_to_index(flags(true, true, true, true, true)), 0);
    // Throw alone is not in the table either.
    assert_eq!(human_intent_to_index(flags(false, false, false, false, true)), 0);
}

#[test]
fn out_of_range_index_gives_idle_flags() {
    assert_eq!(human_intent_from_index(17), flags(false, false, false, false, false));
    assert_eq!(human_intent_from_index(100), flags(false, false, false, false, false));
    assert_eq!(human_intent_from_index(255), flags(false, false, false, false, false));
    assert_eq!(human_intent_from_index(0), flags(false, false, false, false, false));
}

#[test]
fn throw_without_possession_degrades_to_dash() {
    let state = state_with(None);
    for i in 9..17u8 {
        let input = human_intent_from_index(i);
        let intent = human_intent_to_intent(&state, input, PlayerSide::Left);
        match intent {
            Intent::Dash(_) => {},
            other => panic!("expected a dash, got {:?}", other),
        }
    }
    // Throw alone, empty-handed: a dash with a zero direction.
    let intent = human_intent_to_intent(
        &state,
        flags(false, false, false, false, true),
        PlayerSide::Left,
    );
    assert_eq!(intent, Intent::Dash(Dir { x: 0, y: 0 }));
}

#[test]
fn side_relative_light_throw() {
    let left_holds = state_with(Some(PlayerSide::Left));
    let right_holds = state_with(Some(PlayerSide::Right));
    // Left side, throw+up+right: the horizontal flag points at the opponent.
    let intent = human_intent_to_intent(
        &left_holds,
        flags(true, false, false, true, true),
        PlayerSide::Left,
    );
    assert_eq!(intent, Intent::Throw(ThrowDirection::LightUp));
    // Right side, throw+up+left: same thing mirrored.
    let intent = human_intent_to_intent(
        &right_holds,
        flags(true, false, true, false, true),
        PlayerSide::Right,
    );
    assert_eq!(intent, Intent::Throw(ThrowDirection::LightUp));
    // Left side, throw+up+left: the horizontal flag points backwards.
    let intent = human_intent_to_intent(
        &left_holds,
        flags(true, false, true, false, true),
        PlayerSide::Left,
    );
    assert_eq!(intent, Intent::Throw(ThrowDirection::Up));
}

#[test]
fn throw_direction_table() {
    let left_holds = state_with(Some(PlayerSide::Left));
    let cases = [
        (flags(true, false, false, false, true), ThrowDirection::Up),
        (flags(false, true, false, false, true), ThrowDirection::Down),
        (flags(false, true, false, true, true), ThrowDirection::LightDown),
        (flags(false, true, true, false, true), ThrowDirection::Down),
        (flags(false, false, false, false, true), ThrowDirection::Middle),
        (flags(false, false, true, false, true), ThrowDirection::Middle),
        (flags(false, false, false, true, true), ThrowDirection::Middle),
    ];
    for (input, expected) in cases {
        let intent = human_intent_to_intent(&left_holds, input, PlayerSide::Left);
        assert_eq!(intent, Intent::Throw(expected));
    }
}

#[test]
fn moves_and_idle_without_throw() {
    let state = state_with(None);
    let intent = human_intent_to_intent(
        &state,
        flags(true, false, false, false, false),
        PlayerSide::Left,
    );
    assert_eq!(intent, Intent::Move(Dir { x: 0, y: 1 }));
    let intent = human_intent_to_intent(
        &state,
        flags(false, true, false, true, false),
        PlayerSide::Right,
    );
    assert_eq!(intent, Intent::Move(Dir { x: 1, y: -1 }));
    let intent = human_intent_to_intent(
        &state,
        flags(false, false, false, false, false),
        PlayerSide::Left,
    );
    assert_eq!(intent, Intent::Idle);
}

#[test]
fn opposed_flags_cancel_to_zero() {
    let state = state_with(None);
    // Up and Down together cancel: no direction, no intent.
    let intent = human_intent_to_intent(
        &state,
        flags(true, true, false, false, false),
        PlayerSide::Left,
    );
    assert_eq!(intent, Intent::Idle);
    // All four cancel pairwise.
    let intent = human_intent_to_intent(
        &state,
        flags(true, true, true, true, false),
        PlayerSide::Left,
    );
    assert_eq!(intent, Intent::Idle);
    // One axis cancels, the other survives.
    let intent = human_intent_to_intent(
        &state,
        flags(true, false, true, true, false),
        PlayerSide::Left,
    );
    assert_eq!(intent, Intent::Move(Dir { x: 0, y: 1 }));
    // An empty-handed throw request with cancelling flags still dashes,
    // along the zero direction.
    let intent = human_intent_to_intent(
        &state,
        flags(true, true, false, false, true),
        PlayerSide::Left,
    );
    assert_eq!(intent, Intent::Dash(Dir { x: 0, y: 0 }));
}

#[test]
fn possession_of_the_other_side_does_not_allow_throwing() {
    let state = state_with(Some(PlayerSide::Right));
    let intent = human_intent_to_intent(
        &state,
        flags(true, false, false, false, true),
        PlayerSide::Left,
    );
    assert_eq!(intent, Intent::Dash(Dir { x: 0, y: 1 }));
}
