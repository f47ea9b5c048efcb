//! The bird's rules: when it flaps, when a round is lost, and which gates
//! score.
use vstd::prelude::*;
use crate::world::GameState;

verus! {

/// Whether the one-shot jump mode is on (set by the menu checkbox).
#[derive(Clone, Copy, Debug, PartialEq, Eq, Structural)]
pub struct OneShot(pub bool);

/// Whether the bird flaps this frame: on the space key, or on a touch
/// anywhere but on the mute button. A flap sets its upward speed.
pub fn control(space_just_pressed: bool, touches_off_mute_button: usize) -> (flap: bool)
    ensures
        flap == (space_just_pressed || touches_off_mute_button > 0),
{
    let mut flap = space_just_pressed;
    for t in 0..touches_off_mute_button
        invariant
            flap == (space_just_pressed || t > 0),
    {
        flap = true;
    }
    flap
}

/// Whether some entry of `s` is set.
pub open spec fn any_set(s: Seq<bool>) -> bool {
    exists|i: int| 0 <= i < s.len() && #[trigger] s[i]
}

/// The round is lost when a bird has fallen below the floor of the screen.
/// `below_floor` tells, for each bird, whether it has.
pub fn border_patrol(below_floor: &Vec<bool>) -> (next: Option<GameState>)
    ensures
        next == if any_set(below_floor@) { Some(GameState::GameOver) } else { None::<GameState> },
{
    let mut next: Option<GameState> = None;
    let n = below_floor.len();
    for i in 0..n
        invariant
            n == below_floor.len(),
            next == if any_set(below_floor@.take(i as int)) { Some(GameState::GameOver) } else { None::<GameState> },
    {
        assert(below_floor@.take(i as int + 1) =~= below_floor@.take(i as int).push(below_floor@[i as int]));
        if below_floor[i] {
            next = Some(GameState::GameOver);
            assert(below_floor@.take(i as int + 1)[i as int]);
        }
    }
    assert(below_floor@.take(n as int) =~= below_floor@);
    next
}

/// The positions of the set entries of `s`, in order.
pub open spec fn set_positions(s: Seq<bool>) -> Seq<int>
    decreases s.len(),
{
    if s.len() == 0 {
        Seq::empty()
    } else if s.last() {
        set_positions(s.drop_last()).push(s.len() - 1)
    } else {
        set_positions(s.drop_last())
    }
}

/// The outcome of the collision checks of a frame.
#[derive(Clone, Debug, PartialEq, Eq)]
pub struct CollisionOutcome {
    /// The bird hit a pipe: the round is lost.
    pub game_over: bool,
    /// The gates that the bird is passing through, in the order given; each
    /// scores one point, asks for the chime, and is removed.
    pub scored_gates: Vec<usize>,
}

/// The collision checks of a frame: `pipe_hits` tells for each pipe segment
/// whether the bird touches it, `gate_hits` for each scoring gate.
pub fn check_collisions(pipe_hits: &Vec<bool>, gate_hits: &Vec<bool>) -> (r: CollisionOutcome)
    ensures
        r.game_over == any_set(pipe_hits@),
        r.scored_gates@.len() == set_positions(gate_hits@).len(),
        forall|k: int| 0 <= k < r.scored_gates@.len() ==> #[trigger] r.scored_gates@[k] as int == set_positions(gate_hits@)[k],
{
    let mut game_over = false;
    let n = pipe_hits.len();
    for i in 0..n
        invariant
            n == pipe_hits.len(),
            game_over == any_set(pipe_hits@.take(i as int)),
    {
        assert(pipe_hits@.take(i as int + 1) =~= pipe_hits@.take(i as int).push(pipe_hits@[i as int]));
        if pipe_hits[i] {
            game_over = true;
            assert(pipe_hits@.take(i as int + 1)[i as int]);
        }
    }
    assert(pipe_hits@.take(n as int) =~= pipe_hits@);
    let mut scored_gates: Vec<usize> = Vec::new();
    let m = gate_hits.len();
    for j in 0..m
        invariant
            m == gate_hits.len(),
            scored_gates@.len() == set_positions(gate_hits@.take(j as int)).len(),
            forall|k: int| 0 <= k < scored_gates@.len() ==>
                #[trigger] scored_gates@[k] as int == set_positions(gate_hits@.take(j as int))[k],
    {
        let ghost before = gate_hits@.take(j as int);
        assert(gate_hits@.take(j as int + 1).drop_last() =~= before);
        if gate_hits[j] {
            scored_gates.push(j);
        }
    }
    assert(gate_hits@.take(m as int) =~= gate_hits@);
    CollisionOutcome { game_over, scored_gates }
}

/// How many entries of `s` are set.
pub open spec fn count_set(s: Seq<bool>) -> nat
    decreases s.len(),
{
    if s.len() == 0 {
        0
    } else {
        count_set(s.drop_last()) + if s.last() { 1nat } else { 0nat }
    }
}

/// Each gate that the bird passes through scores exactly once: the gates
/// that `check_collisions` reports are as many as the gates hit, all
/// different, and each of them was hit.
pub proof fn lemma_each_gate_scores_once(gate_hits: Seq<bool>)
    ensures
        set_positions(gate_hits).len() == count_set(gate_hits),
        forall|k: int| 0 <= k < set_positions(gate_hits).len() ==> {
            &&& 0 <= #[trigger] set_positions(gate_hits)[k] < gate_hits.len()
            &&& gate_hits[set_positions(gate_hits)[k]]
        },
        forall|k: int, l: int| 0 <= k < l < set_positions(gate_hits).len()
            ==> #[trigger] set_positions(gate_hits)[k] < #[trigger] set_positions(gate_hits)[l],
    decreases gate_hits.len(),
{
    if gate_hits.len() > 0 {
        let rest = gate_hits.drop_last();
        lemma_each_gate_scores_once(rest);
        assert forall|k: int| 0 <= k < set_positions(rest).len() implies
            gate_hits[#[trigger] set_positions(rest)[k]] by {
            assert(gate_hits[set_positions(rest)[k]] == rest[set_positions(rest)[k]]);
        }
    }
}

} // verus!
