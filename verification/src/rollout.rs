//! The rollout strategy's decision pieces.
//!
//! One repetition enumerates candidate intents for the acting side, hands
//! each to the host's simulation driver — which clones the live state,
//! applies the candidate for one step with the opponent idle, then
//! idle-advances up to the frame horizon or until the match stops playing —
//! and offers the resulting score to a tracker that keeps the strictly best
//! outcome seen so far.  The host repeats this `sim` times and returns the
//! tracked intent; the live state is never mutated.

use vstd::prelude::*;

use crate::types::{AgentType, Dir, Intent, PlayerSide, ThrowDirection};

verus! {

/// The five throw candidates, in the order they are tried.
pub open spec fn throw_candidates() -> Seq<Intent> {
    seq![
        Intent::Throw(ThrowDirection::Up),
        Intent::Throw(ThrowDirection::LightUp),
        Intent::Throw(ThrowDirection::Middle),
        Intent::Throw(ThrowDirection::LightDown),
        Intent::Throw(ThrowDirection::Down),
    ]
}

/// The sixteen movement candidates: the four cardinal and four diagonal
/// moves, then the same eight directions as dashes.
pub open spec fn move_dash_candidates() -> Seq<Intent> {
    seq![
        Intent::Move(Dir { x: 0, y: 1 }),
        Intent::Move(Dir { x: 0, y: -1i8 }),
        Intent::Move(Dir { x: -1i8, y: 0 }),
        Intent::Move(Dir { x: 1, y: 0 }),
        Intent::Move(Dir { x: -1i8, y: -1i8 }),
        Intent::Move(Dir { x: -1i8, y: 1 }),
        Intent::Move(Dir { x: 1, y: -1i8 }),
        Intent::Move(Dir { x: 1, y: 1 }),
        Intent::Dash(Dir { x: 0, y: 1 }),
        Intent::Dash(Dir { x: 0, y: -1i8 }),
        Intent::Dash(Dir { x: -1i8, y: 0 }),
        Intent::Dash(Dir { x: 1, y: 0 }),
        Intent::Dash(Dir { x: -1i8, y: -1i8 }),
        Intent::Dash(Dir { x: -1i8, y: 1 }),
        Intent::Dash(Dir { x: 1, y: -1i8 }),
        Intent::Dash(Dir { x: 1, y: 1 }),
    ]
}

/// What one repetition evaluates: the five throws while holding the
/// frisbee, the sixteen movements while free to move, and nothing while
/// mid-dash without possession.
pub open spec fn candidate_intents_spec(holds: bool, sliding: bool) -> Seq<Intent> {
    if holds {
        throw_candidates()
    } else if !sliding {
        move_dash_candidates()
    } else {
        Seq::empty()
    }
}

/// Enumerates the candidate intents one repetition evaluates for a side in
/// the given possession and dash state.
pub fn candidate_intents(holds_frisbee: bool, sliding: bool) -> (v: Vec<Intent>)
    ensures
        v@ == candidate_intents_spec(holds_frisbee, sliding),
{
    let mut v: Vec<Intent> = Vec::new();
    if holds_frisbee {
        v.push(Intent::Throw(ThrowDirection::Up));
        v.push(Intent::Throw(ThrowDirection::LightUp));
        v.push(Intent::Throw(ThrowDirection::Middle));
        v.push(Intent::Throw(ThrowDirection::LightDown));
        v.push(Intent::Throw(ThrowDirection::Down));
        proof {
            assert(v@ =~= throw_candidates());
        }
    } else if !sliding {
        v.push(Intent::Move(Dir { x: 0, y: 1 }));
        v.push(Intent::Move(Dir { x: 0, y: -1i8 }));
        v.push(Intent::Move(Dir { x: -1i8, y: 0 }));
        v.push(Intent::Move(Dir { x: 1, y: 0 }));
        v.push(Intent::Move(Dir { x: -1i8, y: -1i8 }));
        v.push(Intent::Move(Dir { x: -1i8, y: 1 }));
        v.push(Intent::Move(Dir { x: 1, y: -1i8 }));
        v.push(Intent::Move(Dir { x: 1, y: 1 }));
        v.push(Intent::Dash(Dir { x: 0, y: 1 }));
        v.push(Intent::Dash(Dir { x: 0, y: -1i8 }));
        v.push(Intent::Dash(Dir { x: -1i8, y: 0 }));
        v.push(Intent::Dash(Dir { x: 1, y: 0 }));
        v.push(Intent::Dash(Dir { x: -1i8, y: -1i8 }));
        v.push(Intent::Dash(Dir { x: -1i8, y: 1 }));
        v.push(Intent::Dash(Dir { x: 1, y: -1i8 }));
        v.push(Intent::Dash(Dir { x: 1, y: 1 }));
        proof {
            assert(v@ =~= move_dash_candidates());
        }
    } else {
        proof {
            assert(v@ =~= Seq::<Intent>::empty());
        }
    }
    v
}

/// The intents pair the engine steps with when one side tries a candidate:
/// the candidate for the acting side, idle for the opponent.
pub fn intents_for_side(side: PlayerSide, intent: Intent) -> (pair: (Intent, Intent))
    ensures
        side == PlayerSide::Left ==> pair == (intent, Intent::Idle),
        side == PlayerSide::Right ==> pair == (Intent::Idle, intent),
{
    match side {
        PlayerSide::Left => (intent, Intent::Idle),
        PlayerSide::Right => (Intent::Idle, intent),
    }
}

/// The best simulated outcome seen so far across all repetitions and
/// candidates of one decision cycle.
pub struct BestTracker {
    /// Whether any candidate was offered yet.
    pub seen: bool,
    /// The best score seen; meaningful only once a candidate was offered.
    pub score: i8,
    /// The intent that scored best; idle until a candidate was offered.
    pub intent: Intent,
}

impl BestTracker {
    /// The tracker a decision cycle starts from: nothing seen yet.
    pub fn new() -> (t: BestTracker)
        ensures
            t == (BestTracker { seen: false, score: 0, intent: Intent::Idle }),
    {
        BestTracker { seen: false, score: 0, intent: Intent::Idle }
    }

    /// Offers one candidate's simulated score.  The first candidate is
    /// always taken; after that a candidate replaces the best seen only
    /// when strictly greater, so ties keep the earliest find and the best
    /// score never decreases.
    pub fn offer(&mut self, score: i8, intent: Intent)
        ensures
            *final(self) == (if !old(self).seen || score > old(self).score {
                BestTracker { seen: true, score, intent }
            } else {
                *old(self)
            }),
            final(self).seen,
            old(self).seen ==> final(self).score >= old(self).score,
    {
        if !self.seen || score > self.score {
            self.seen = true;
            self.score = score;
            self.intent = intent;
        }
    }

    /// The best intent found, or idle when no candidate was ever offered.
    pub fn best_intent(&self) -> (r: Intent)
        ensures
            r == self.intent,
    {
        self.intent
    }
}

/// The tracker a fresh decision cycle ends with after the given offers, in
/// order: the first offer is taken, every later one replaces the running
/// best only when strictly greater, exactly as `BestTracker::offer`
/// promises.
pub open spec fn best_after_offers(offers: Seq<(i8, Intent)>) -> BestTracker
    decreases offers.len(),
{
    if offers.len() == 0 {
        BestTracker { seen: false, score: 0, intent: Intent::Idle }
    } else {
        let prev = best_after_offers(offers.drop_last());
        if !prev.seen || offers.last().0 > prev.score {
            BestTracker { seen: true, score: offers.last().0, intent: offers.last().1 }
        } else {
            prev
        }
    }
}

/// A tracker has seen a candidate exactly when some offer was made.
pub proof fn lemma_best_seen(offers: Seq<(i8, Intent)>)
    ensures
        best_after_offers(offers).seen == (offers.len() > 0),
    decreases offers.len(),
{
    if offers.len() > 0 {
        lemma_best_seen(offers.drop_last());
    }
}

/// The best-so-far score never decreases across a decision cycle: once a
/// first candidate was evaluated, the final best score is at least what it
/// was after any non-empty prefix of the offers — in particular never
/// below the first candidate evaluated.
pub proof fn lemma_best_score_monotone(offers: Seq<(i8, Intent)>, k: int)
    requires
        1 <= k <= offers.len(),
    ensures
        best_after_offers(offers).score >= best_after_offers(offers.take(k)).score,
    decreases offers.len(),
{
    if k < offers.len() {
        let t = offers.drop_last();
        assert(offers.take(k) =~= t.take(k));
        lemma_best_score_monotone(t, k);
        lemma_best_seen(t);
    } else {
        assert(offers.take(k) =~= offers);
    }
}

/// The rollout strategy's configuration: how many frames each candidate is
/// idle-advanced after its step, and how many repetitions the host runs.
pub struct RandomRolloutAgent {
    /// The rollout horizon per candidate, in frames.
    pub frames: u32,
    /// The number of repetitions per decision cycle.
    pub sim: i8,
}

impl RandomRolloutAgent {
    /// The tag of this strategy.
    pub fn get_type(&self) -> (t: AgentType)
        ensures
            t == AgentType::RandomRollout,
    {
        AgentType::RandomRollout
    }
}

} // verus!
