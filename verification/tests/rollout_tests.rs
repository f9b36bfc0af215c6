use frisbee_agents::{
    candidate_intents, intents_for_side, AgentType, BestTracker, Dir, Intent, PlayerSide,
    RandomRolloutAgent, ThrowDirection,
};

#[test]
fn candidates_while_holding_are_the_five_throws() {
    let v = candidate_intents(true, false);
    assert_eq!(
        v,
        vec![
            Intent::Throw(ThrowDirection::Up),
            Intent::Throw(ThrowDirection::LightUp),
            Intent::Throw(ThrowDirection::Middle),
            Intent::Throw(ThrowDirection::LightDown),
            Intent::Throw(ThrowDirection::Down),
        ]
    );
    // Possession wins over the dash flag: still the five throws.
    assert_eq!(candidate_intents(true, true), v);
}

#[test]
fn candidates_while_free_are_eight_moves_then_eight_dashes() {
    let v = candidate_intents(false, false);
    assert_eq!(v.len(), 16);
    let dirs = [
        Dir { x: 0, y: 1 },
        Dir { x: 0, y: -1 },
        Dir { x: -1, y: 0 },
        Dir { x: 1, y: 0 },
        Dir { x: -1, y: -1 },
        Dir { x: -1, y: 1 },
        Dir { x: 1, y: -1 },
        Dir { x: 1, y: 1 },
    ];
    for (i, d) in dirs.iter().enumerate() {
        assert_eq!(v[i], Intent::Move(*d));
        assert_eq!(v[i + 8], Intent::Dash(*d));
    }
}

#[test]
fn no_candidates_mid_dash() {
    assert_eq!(candidate_intents(false, true), vec![]);
}

#[test]
fn intents_pair_puts_the_candidate_on_the_acting_side() {
    let intent = Intent::Throw(ThrowDirection::Middle);
    assert_eq!(intents_for_side(PlayerSide::Left, intent), (intent, Intent::Idle));
    assert_eq!(intents_for_side(PlayerSide::Right, intent), (Intent::Idle, intent));
}

#[test]
fn best_tracker_keeps_strictly_best_and_never_decreases() {
    let up = Intent::Throw(ThrowDirection::Up);
    let middle = Intent::Throw(ThrowDirection::Middle);
    let down = Intent::Throw(ThrowDirection::Down);
    let mut tracker = BestTracker::new();
    assert_eq!(tracker.best_intent(), Intent::Idle);
    let offers: [(i8, Intent); 5] = [(3, up), (1, middle), (5, middle), (5, down), (2, up)];
    let mut prev: i8 = i8::MIN;
    for (score, intent) in offers {
        tracker.offer(score, intent);
        assert!(tracker.score >= prev);
        prev = tracker.score;
    }
    // The first candidate reaching 5 wins; the later tie does not displace it.
    assert_eq!(tracker.score, 5);
    assert_eq!(tracker.best_intent(), middle);
}

#[test]
fn best_tracker_takes_the_first_candidate_even_on_a_low_score() {
    let up = Intent::Throw(ThrowDirection::Up);
    let middle = Intent::Throw(ThrowDirection::Middle);
    let down = Intent::Throw(ThrowDirection::Down);
    let mut tracker = BestTracker::new();
    tracker.offer(-3, up);
    assert_eq!(tracker.score, -3);
    assert_eq!(tracker.best_intent(), up);
    // A tie never displaces the earliest find.
    tracker.offer(-3, middle);
    assert_eq!(tracker.best_intent(), up);
    // A strictly better candidate does.
    tracker.offer(-2, down);
    assert_eq!(tracker.score, -2);
    assert_eq!(tracker.best_intent(), down);
}

#[test]
fn rollout_agent_tag() {
    let agent = RandomRolloutAgent { frames: 10, sim: 3 };
    assert_eq!(agent.get_type(), AgentType::RandomRollout);
}
