use frisbee_agents::{
    agent_type_from_i8, dir_of_draws, random_decision, random_direction, throw_dir_of_draw,
    Agent, AgentType, Dir, GameState, HumanIntent, HumanPlayerAgent, Intent, PlayerSide,
    PlayerView, QValues, RandomAgent, StateSnapshot, ThrowDirection,
};

fn idle() -> HumanIntent {
    HumanIntent { up: false, down: false, left: false, right: false, throw: false }
}

fn state_with(held_by: Option<PlayerSide>) -> GameState {
    GameState {
        snapshot: StateSnapshot {
            left: PlayerView { score: 0, sliding: false },
            right: PlayerView { score: 0, sliding: false },
            held_by,
            playing: true,
        },
        inputs: (idle(), idle()),
        explo_rate_ppm: 0,
        hash: 0,
        q_values: QValues::new(),
    }
}

#[test]
fn agent_type_from_i8_table() {
    assert_eq!(agent_type_from_i8(0), AgentType::HumanPlayer);
    assert_eq!(agent_type_from_i8(1), AgentType::Random);
    assert_eq!(agent_type_from_i8(2), AgentType::RandomRollout);
    assert_eq!(agent_type_from_i8(3), AgentType::Dijkstra);
    assert_eq!(agent_type_from_i8(4), AgentType::TabularQLearning);
    assert_eq!(agent_type_from_i8(5), AgentType::Unknown);
    assert_eq!(agent_type_from_i8(-1), AgentType::Unknown);
    assert_eq!(agent_type_from_i8(127), AgentType::Unknown);
}

#[test]
fn random_direction_stays_on_the_grid() {
    for _ in 0..500 {
        let d = random_direction();
        assert!(-100 <= d.x && d.x <= 100);
        assert!(-100 <= d.y && d.y <= 100);
    }
    let d = RandomAgent {}.get_random_direction();
    assert!(-100 <= d.x && d.x <= 100);
    assert!(-100 <= d.y && d.y <= 100);
}

#[test]
fn draws_shift_onto_the_direction_grid() {
    assert_eq!(dir_of_draws(0, 200), Dir { x: -100, y: 100 });
    assert_eq!(dir_of_draws(100, 100), Dir { x: 0, y: 0 });
    assert_eq!(dir_of_draws(200, 0), Dir { x: 100, y: -100 });
    assert_eq!(dir_of_draws(101, 99), Dir { x: 1, y: -1 });
}

#[test]
fn draw_selects_throw_directions_in_enumeration_order() {
    assert_eq!(throw_dir_of_draw(0), ThrowDirection::Up);
    assert_eq!(throw_dir_of_draw(1), ThrowDirection::LightUp);
    assert_eq!(throw_dir_of_draw(2), ThrowDirection::Middle);
    assert_eq!(throw_dir_of_draw(3), ThrowDirection::LightDown);
    assert_eq!(throw_dir_of_draw(4), ThrowDirection::Down);
}

#[test]
fn decision_table_thresholds_are_exact() {
    let dir = Dir { x: 3, y: -4 };
    let td = ThrowDirection::LightDown;
    // Holding: throw below a quarter, wait from there on.
    assert_eq!(random_decision(true, 0, dir, td), Intent::Throw(td));
    assert_eq!(random_decision(true, 249_999, dir, td), Intent::Throw(td));
    assert_eq!(random_decision(true, 250_000, dir, td), Intent::Idle);
    assert_eq!(random_decision(true, 999_999, dir, td), Intent::Idle);
    // Not holding: move below a half, dash below six tenths, else wait.
    assert_eq!(random_decision(false, 0, dir, td), Intent::Move(dir));
    assert_eq!(random_decision(false, 499_999, dir, td), Intent::Move(dir));
    assert_eq!(random_decision(false, 500_000, dir, td), Intent::Dash(dir));
    assert_eq!(random_decision(false, 599_999, dir, td), Intent::Dash(dir));
    assert_eq!(random_decision(false, 600_000, dir, td), Intent::Idle);
    assert_eq!(random_decision(false, 999_999, dir, td), Intent::Idle);
}

#[test]
fn random_agent_never_throws_empty_handed() {
    let mut agent = RandomAgent {};
    let mut state = state_with(None);
    for _ in 0..300 {
        match agent.act(PlayerSide::Left, &mut state) {
            Intent::Throw(_) => panic!("threw without holding the frisbee"),
            Intent::Move(d) | Intent::Dash(d) => {
                assert!(-100 <= d.x && d.x <= 100);
                assert!(-100 <= d.y && d.y <= 100);
            },
            Intent::Idle => {},
        }
    }
}

#[test]
fn random_agent_only_throws_or_waits_while_holding() {
    let mut agent = RandomAgent {};
    let mut state = state_with(Some(PlayerSide::Right));
    let mut threw = false;
    let mut waited = false;
    for _ in 0..300 {
        match agent.act(PlayerSide::Right, &mut state) {
            Intent::Throw(_) => threw = true,
            Intent::Idle => waited = true,
            other => panic!("unexpected intent while holding: {:?}", other),
        }
    }
    // With 300 draws at 25% / 75%, both outcomes all but surely appear.
    assert!(threw && waited);
}

#[test]
fn random_agent_tag() {
    assert_eq!(RandomAgent {}.get_type(), AgentType::Random);
}

#[test]
fn human_agent_resolves_its_own_sides_input() {
    let mut agent = HumanPlayerAgent {};
    let mut state = state_with(None);
    state.inputs.0 = HumanIntent { up: true, down: false, left: false, right: false, throw: false };
    state.inputs.1 = HumanIntent { up: false, down: true, left: false, right: false, throw: false };
    let left = agent.act(PlayerSide::Left, &mut state);
    let right = agent.act(PlayerSide::Right, &mut state);
    assert_eq!(left, Intent::Move(frisbee_agents::Dir { x: 0, y: 1 }));
    assert_eq!(right, Intent::Move(frisbee_agents::Dir { x: 0, y: -1 }));
}

#[test]
fn human_agent_tag() {
    assert_eq!(HumanPlayerAgent {}.get_type(), AgentType::HumanPlayer);
}
