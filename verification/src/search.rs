//! The cost-bounded best-first expansion and its selection routine.
//!
//! Despite the strategy's name this is not a textbook shortest-path search:
//! candidate action sequences are expanded as an explicit worklist with a
//! hand-tuned heuristic.  The core decides everything about one expansion
//! step — the guard, the heuristic delta, the node to record and the child
//! tasks to schedule — from plain observations of the stepped clone; the
//! host performs the cloning and stepping and keeps the worklist, with a
//! practical ceiling of its own on top of the cost bound.

use vstd::prelude::*;

use crate::rng::rand_below;
use crate::rollout::{candidate_intents, candidate_intents_spec};
use crate::state::StateSnapshot;
use crate::types::{AgentType, Intent, PlayerSide, ThrowDirection};

verus! {

/// The accumulated path cost beyond which a branch stops contributing
/// nodes.
pub const COST_BOUND: i64 = 1000000000000;

/// The magnitude of accumulated score the expansion keeps within; far
/// beyond anything a practically bounded expansion can accumulate, and
/// small enough that one more step cannot overflow.
pub const SCORE_LIMIT: i64 = 1000000000000000;

/// A recorded point of the expansion: a state snapshot, the first intent
/// taken from the root to reach it, the accumulated path cost, and the
/// accumulated heuristic score.
#[derive(Clone, Copy, PartialEq, Debug)]
pub struct Node {
    /// The snapshot of the state at this point, independently owned.
    pub snapshot: StateSnapshot,
    /// The root candidate this point descends from.
    pub first_intent: Intent,
    /// The accumulated path cost; -1 marks a root node.
    pub cost: i64,
    /// The accumulated heuristic score.
    pub score: i64,
}

/// A pending expansion step: the intent to simulate next, the root
/// candidate it descends from, and the accumulated cost and score.
#[derive(Clone, Copy, PartialEq, Debug)]
pub struct Expansion {
    /// The root candidate this step descends from.
    pub first_intent: Intent,
    /// The intent to apply for this step.
    pub intent: Intent,
    /// The accumulated path cost of this step.
    pub cost: i64,
    /// The accumulated heuristic score carried into this step.
    pub score: i64,
}

/// How the acting side's distance to the frisbee changed over a step.
#[derive(Clone, Copy, PartialEq, Eq, Structural, Debug)]
pub enum DistChange {
    Closer,
    Farther,
    Unchanged,
}

/// The heuristic delta of one step: taking possession dominates everything
/// at +100000; otherwise closing in on the frisbee earns +1000, drifting
/// away -100, and standing still -50.
pub open spec fn heuristic_delta_spec(change: DistChange, now_holding: bool) -> int {
    if now_holding {
        100000
    } else {
        match change {
            DistChange::Closer => 1000,
            DistChange::Farther => -100,
            DistChange::Unchanged => -50,
        }
    }
}

/// A step that ends in possession scores exactly the possession override,
/// whatever happened to the distance.
pub proof fn lemma_possession_override(change: DistChange)
    ensures
        heuristic_delta_spec(change, true) == 100000,
{
}

/// Computes the heuristic delta of one simulated step.
pub fn heuristic_delta(change: DistChange, now_holding: bool) -> (d: i64)
    ensures
        d == heuristic_delta_spec(change, now_holding),
{
    if now_holding {
        100000
    } else {
        match change {
            DistChange::Closer => 1000,
            DistChange::Farther => -100,
            DistChange::Unchanged => -50,
        }
    }
}

/// Whether a pending step is expanded at all: only below the cost bound and
/// only while the match is still playing.
pub fn should_expand(cost: i64, playing: bool) -> (b: bool)
    ensures
        b == (cost < COST_BOUND && playing),
{
    cost < COST_BOUND && playing
}

/// The score bonus a throw branch adds below the root.
pub open spec fn throw_bonus(d: ThrowDirection) -> int {
    match d {
        ThrowDirection::Up => 3000,
        ThrowDirection::LightUp => 4000,
        ThrowDirection::Middle => 2000,
        ThrowDirection::LightDown => 4000,
        ThrowDirection::Down => 3000,
    }
}

/// The extra path cost of a branch: a dash costs four times a move or a
/// throw.
pub open spec fn cost_increment(it: Intent) -> int {
    match it {
        Intent::Dash(_) => 4,
        _ => 1,
    }
}

/// The score bonus of a branch below the root: the throw table for throws,
/// +1 for every move or dash.
pub open spec fn branch_bonus(it: Intent) -> int {
    match it {
        Intent::Throw(d) => throw_bonus(d),
        _ => 1,
    }
}

/// The child step a branch schedules: the same root candidate, the branch
/// intent, the branch's extra cost, and the running score plus the branch
/// bonus plus the acting player's current score.
pub open spec fn child_task(
    first: Intent,
    it: Intent,
    running: int,
    player_score: int,
    cost: int,
) -> Expansion {
    Expansion {
        first_intent: first,
        intent: it,
        cost: (cost + cost_increment(it)) as i64,
        score: (running + player_score + branch_bonus(it)) as i64,
    }
}

/// Every child step one expansion schedules, in order: the same candidate
/// enumeration as the rollout strategy, taken from the stepped state.
pub open spec fn child_tasks(
    first: Intent,
    after: StateSnapshot,
    side: PlayerSide,
    running: int,
    cost: int,
) -> Seq<Expansion> {
    candidate_intents_spec(after.holds(side), after.player(side).sliding).map_values(
        |it: Intent| child_task(first, it, running, after.player(side).score as int, cost),
    )
}

/// The accumulated score at a recorded node: the score carried into the
/// step plus the step's heuristic delta.
pub open spec fn step_score(
    task: Expansion,
    after: StateSnapshot,
    side: PlayerSide,
    change: DistChange,
) -> int {
    task.score + heuristic_delta_spec(change, after.holds(side))
}

/// The node one expansion step records: the stepped snapshot, the root
/// candidate, the step's own cost, and the accumulated score.
pub open spec fn step_node(
    task: Expansion,
    after: StateSnapshot,
    side: PlayerSide,
    change: DistChange,
) -> Node {
    Node {
        snapshot: after,
        first_intent: task.first_intent,
        cost: task.cost,
        score: step_score(task, after, side, change) as i64,
    }
}

/// Decides one expansion step from what the host observed applying the
/// pending intent to a clone: the node to record and the child steps to
/// schedule.  `after` is the stepped snapshot and `change` how the acting
/// side's distance to the frisbee compared before and after the step.
pub fn expand_step(
    task: &Expansion,
    after: &StateSnapshot,
    change: DistChange,
    side: PlayerSide,
) -> (r: (Node, Vec<Expansion>))
    requires
        0 <= task.cost < COST_BOUND,
        -SCORE_LIMIT <= task.score && task.score <= SCORE_LIMIT,
    ensures
        r.0 == step_node(*task, *after, side, change),
        r.1@ == child_tasks(
            task.first_intent,
            *after,
            side,
            step_score(*task, *after, side, change),
            task.cost as int,
        ),
{
    let holds = after.holds_frisbee(side);
    let delta = heuristic_delta(change, holds);
    let running = task.score + delta;
    let node = Node {
        snapshot: *after,
        first_intent: task.first_intent,
        cost: task.cost,
        score: running,
    };
    let player_score = after.score_of(side) as i64;
    let sliding = after.sliding_of(side);
    let cands = candidate_intents(holds, sliding);
    let mut children: Vec<Expansion> = Vec::new();
    let mut i: usize = 0;
    while i < cands.len()
        invariant
            i <= cands@.len(),
            cands@ == candidate_intents_spec(after.holds(side), after.player(side).sliding),
            cands@.len() <= 16,
            0 <= task.cost < COST_BOUND,
            -SCORE_LIMIT <= task.score && task.score <= SCORE_LIMIT,
            running == step_score(*task, *after, side, change),
            player_score == after.player(side).score as int,
            children@.len() == i,
            forall|j: int|
                0 <= j < i ==> children@[j] == child_task(
                    task.first_intent,
                    cands@[j],
                    running as int,
                    after.player(side).score as int,
                    task.cost as int,
                ),
        decreases cands@.len() - i,
    {
        let it = cands[i];
        let inc: i64 = match it {
            Intent::Dash(_) => 4,
            _ => 1,
        };
        let bonus: i64 = match it {
            Intent::Throw(d) => match d {
                ThrowDirection::Up => 3000,
                ThrowDirection::LightUp => 4000,
                ThrowDirection::Middle => 2000,
                ThrowDirection::LightDown => 4000,
                ThrowDirection::Down => 3000,
            },
            _ => 1,
        };
        let child = Expansion {
            first_intent: task.first_intent,
            intent: it,
            cost: task.cost + inc,
            score: running + player_score + bonus,
        };
        children.push(child);
        i = i + 1;
    }
    proof {
        assert(children@ =~= child_tasks(
            task.first_intent,
            *after,
            side,
            step_score(*task, *after, side, change),
            task.cost as int,
        ));
    }
    (node, children)
}

/// The score bonus of a root candidate: the root throw table for throws,
/// +1 for every move or dash.
pub open spec fn root_bonus(it: Intent) -> int {
    match it {
        Intent::Throw(d) => match d {
            ThrowDirection::Up => 30,
            ThrowDirection::LightUp => 40,
            ThrowDirection::Middle => 20,
            ThrowDirection::LightDown => 40,
            ThrowDirection::Down => 30,
        },
        _ => 1,
    }
}

/// The starting score of a root candidate: the acting player's current
/// score plus the candidate's root bonus.
pub open spec fn root_score(snapshot: StateSnapshot, side: PlayerSide, it: Intent) -> int {
    snapshot.player(side).score + root_bonus(it)
}

/// The node recorded for a root candidate before its branch is expanded:
/// the live snapshot, the candidate itself, and the root sentinel cost -1.
pub open spec fn root_cand_node(snapshot: StateSnapshot, side: PlayerSide, it: Intent) -> Node {
    Node {
        snapshot,
        first_intent: it,
        cost: -1i64,
        score: root_score(snapshot, side, it) as i64,
    }
}

/// The pending step a root candidate schedules, at cost 0.
pub open spec fn root_cand_task(snapshot: StateSnapshot, side: PlayerSide, it: Intent) -> Expansion {
    Expansion {
        first_intent: it,
        intent: it,
        cost: 0i64,
        score: root_score(snapshot, side, it) as i64,
    }
}

/// The node every expansion starts from: the live snapshot, no intent
/// taken, the sentinel cost -1, and the acting player's current score.
pub open spec fn root_node(snapshot: StateSnapshot, side: PlayerSide) -> Node {
    Node {
        snapshot,
        first_intent: Intent::Idle,
        cost: -1i64,
        score: snapshot.player(side).score as i64,
    }
}

/// Opens one decision cycle of the search: records the root node and one
/// node per immediate candidate, and schedules one pending step per
/// candidate for the host to simulate.
pub fn root_nodes_and_tasks(snapshot: &StateSnapshot, side: PlayerSide) -> (r: (
    Vec<Node>,
    Vec<Expansion>,
))
    ensures
        r.0@ == seq![root_node(*snapshot, side)] + candidate_intents_spec(
            snapshot.holds(side),
            snapshot.player(side).sliding,
        ).map_values(|it: Intent| root_cand_node(*snapshot, side, it)),
        r.1@ == candidate_intents_spec(
            snapshot.holds(side),
            snapshot.player(side).sliding,
        ).map_values(|it: Intent| root_cand_task(*snapshot, side, it)),
{
    let player_score = snapshot.score_of(side) as i64;
    let mut nodes: Vec<Node> = Vec::new();
    nodes.push(Node {
        snapshot: *snapshot,
        first_intent: Intent::Idle,
        cost: -1,
        score: player_score,
    });
    let holds = snapshot.holds_frisbee(side);
    let sliding = snapshot.sliding_of(side);
    let cands = candidate_intents(holds, sliding);
    let mut tasks: Vec<Expansion> = Vec::new();
    let mut i: usize = 0;
    while i < cands.len()
        invariant
            i <= cands@.len(),
            cands@ == candidate_intents_spec(snapshot.holds(side), snapshot.player(side).sliding),
            player_score == snapshot.player(side).score as int,
            nodes@.len() == i + 1,
            nodes@[0] == root_node(*snapshot, side),
            tasks@.len() == i,
            forall|j: int|
                0 <= j < i ==> nodes@[j + 1] == root_cand_node(*snapshot, side, cands@[j]),
            forall|j: int| 0 <= j < i ==> tasks@[j] == root_cand_task(*snapshot, side, cands@[j]),
        decreases cands@.len() - i,
    {
        let it = cands[i];
        let bonus: i64 = match it {
            Intent::Throw(d) => match d {
                ThrowDirection::Up => 30,
                ThrowDirection::LightUp => 40,
                ThrowDirection::Middle => 20,
                ThrowDirection::LightDown => 40,
                ThrowDirection::Down => 30,
            },
            _ => 1,
        };
        let score = player_score + bonus;
        nodes.push(Node { snapshot: *snapshot, first_intent: it, cost: -1, score });
        tasks.push(Expansion { first_intent: it, intent: it, cost: 0, score });
        i = i + 1;
    }
    proof {
        assert(nodes@ =~= seq![root_node(*snapshot, side)] + candidate_intents_spec(
            snapshot.holds(side),
            snapshot.player(side).sliding,
        ).map_values(|it: Intent| root_cand_node(*snapshot, side, it)));
        assert(tasks@ =~= candidate_intents_spec(
            snapshot.holds(side),
            snapshot.player(side).sliding,
        ).map_values(|it: Intent| root_cand_task(*snapshot, side, it)));
    }
    (nodes, tasks)
}

/// The greatest score among a set of nodes; 0 for an empty set.
pub open spec fn max_score(s: Seq<Node>) -> int
    decreases s.len(),
{
    if s.len() == 0 {
        0
    } else if s.len() == 1 {
        s[0].score as int
    } else {
        let m = max_score(s.drop_last());
        if s.last().score > m {
            s.last().score as int
        } else {
            m
        }
    }
}

/// The nodes that tie for the greatest score, in their original order.
pub open spec fn best_nodes(s: Seq<Node>) -> Seq<Node> {
    s.filter(|n: Node| n.score == max_score(s))
}

/// The maximum bounds every score and is attained in any non-empty set.
pub proof fn lemma_max_score(s: Seq<Node>)
    requires
        s.len() > 0,
    ensures
        forall|i: int| 0 <= i < s.len() ==> (#[trigger] s[i]).score <= max_score(s),
        exists|i: int| 0 <= i < s.len() && (#[trigger] s[i]).score == max_score(s),
    decreases s.len(),
{
    if s.len() > 1 {
        let t = s.drop_last();
        lemma_max_score(t);
        assert(forall|j: int| 0 <= j < t.len() ==> #[trigger] s[j] == t[j]);
        if s.last().score > max_score(t) {
            assert(s[s.len() - 1].score == max_score(s));
        } else {
            let v = choose|i: int| 0 <= i < t.len() && (#[trigger] t[i]).score == max_score(t);
            assert(s[v].score == max_score(s));
        }
    } else {
        assert(s[0].score == max_score(s));
    }
}

/// Filters a set of recorded nodes down to those whose score equals the
/// global maximum; the result keeps their original order and is empty only
/// for an empty input.
pub fn get_best(nodes: &Vec<Node>) -> (best: Vec<Node>)
    ensures
        best@ == best_nodes(nodes@),
{
    let ghost pred = |n: Node| n.score == max_score(nodes@);
    if nodes.len() == 0 {
        let best: Vec<Node> = Vec::new();
        proof {
            reveal(Seq::filter);
            assert(best@ =~= best_nodes(nodes@));
        }
        return best;
    }
    let mut ms: i64 = nodes[0].score;
    let mut i: usize = 1;
    while i < nodes.len()
        invariant
            1 <= i <= nodes@.len(),
            ms as int == max_score(nodes@.take(i as int)),
        decreases nodes@.len() - i,
    {
        proof {
            assert(nodes@.take(i + 1).drop_last() =~= nodes@.take(i as int));
        }
        if nodes[i].score > ms {
            ms = nodes[i].score;
        }
        i = i + 1;
    }
    proof {
        assert(nodes@.take(nodes@.len() as int) =~= nodes@);
    }
    let mut best: Vec<Node> = Vec::new();
    let mut k: usize = 0;
    while k < nodes.len()
        invariant
            k <= nodes@.len(),
            ms as int == max_score(nodes@),
            pred == (|n: Node| n.score == max_score(nodes@)),
            best@ == nodes@.take(k as int).filter(pred),
        decreases nodes@.len() - k,
    {
        proof {
            reveal(Seq::filter);
            assert(nodes@.take(k + 1).drop_last() =~= nodes@.take(k as int));
        }
        if nodes[k].score == ms {
            best.push(nodes[k]);
        }
        k = k + 1;
    }
    proof {
        assert(nodes@.take(nodes@.len() as int) =~= nodes@);
    }
    best
}

/// The least accumulated cost among a set of nodes; 0 for an empty set.
pub open spec fn min_cost(s: Seq<Node>) -> int
    decreases s.len(),
{
    if s.len() == 0 {
        0
    } else if s.len() == 1 {
        s[0].cost as int
    } else {
        let m = min_cost(s.drop_last());
        if s.last().cost < m {
            s.last().cost as int
        } else {
            m
        }
    }
}

/// Picks the intent of a minimum-cost node among nodes tying for the best
/// score.  A strictly cheaper node always displaces the pick; a node tying
/// the current cost displaces it on a fresh even-odds draw.  The choice
/// among equals is therefore biased by scan order rather than uniform: a
/// known quirk of the tuned behavior, not to be smoothed out silently.
pub fn select_intent(best: &Vec<Node>) -> (r: Intent)
    requires
        best@.len() > 0,
    ensures
        exists|i: int|
            0 <= i < best@.len() && (#[trigger] best@[i]).cost == min_cost(best@) && r
                == best@[i].first_intent,
{
    let mut cost = best[0].cost;
    let mut intent = best[0].first_intent;
    let mut i: usize = 0;
    while i < best.len()
        invariant
            best@.len() > 0,
            i <= best@.len(),
            cost as int == min_cost(best@.take(if i == 0 { 1int } else { i as int })),
            exists|j: int|
                0 <= j < (if i == 0 { 1int } else { i as int }) && (#[trigger] best@[j]).cost
                    == cost && intent == best@[j].first_intent,
        decreases best@.len() - i,
    {
        proof {
            if i >= 1 {
                assert(best@.take(i + 1).drop_last() =~= best@.take(i as int));
            } else {
                assert(best@.take(1int).drop_last() =~= best@.take(0int));
            }
        }
        if best[i].cost < cost {
            cost = best[i].cost;
            intent = best[i].first_intent;
        }
        if best[i].cost == cost {
            let draw = rand_below(99) + 1;
            if draw > 50 {
                cost = best[i].cost;
                intent = best[i].first_intent;
            }
        }
        i = i + 1;
    }
    proof {
        assert(best@.take(best@.len() as int) =~= best@);
    }
    intent
}

/// The cost-bounded best-first strategy.
pub struct DijkstraAgent {}

impl DijkstraAgent {
    /// The tag of this strategy.
    pub fn get_type(&self) -> (t: AgentType)
        ensures
            t == AgentType::Dijkstra,
    {
        AgentType::Dijkstra
    }

    /// Closes one decision cycle of the search: among all recorded nodes,
    /// keeps those tying for the greatest score and returns the first
    /// intent of a minimum-cost node among them.  Any expansion records at
    /// least its root node, so the input is never empty.
    pub fn choose_intent(&self, nodes: &Vec<Node>) -> (r: Intent)
        requires
            nodes@.len() > 0,
        ensures
            exists|i: int|
                0 <= i < best_nodes(nodes@).len() && (#[trigger] best_nodes(nodes@)[i]).cost
                    == min_cost(best_nodes(nodes@)) && r == best_nodes(nodes@)[i].first_intent,
    {
        let best = get_best(nodes);
        proof {
            lemma_max_score(nodes@);
            let w = choose|i: int|
                0 <= i < nodes@.len() && (#[trigger] nodes@[i]).score == max_score(nodes@);
            nodes@.lemma_filter_contains(|n: Node| n.score == max_score(nodes@), w);
        }
        select_intent(&best)
    }
}

} // verus!
