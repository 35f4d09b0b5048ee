use vstd::prelude::*;

use crate::input::InputFrame;
use crate::input::axis_x;
use crate::input::axis_y;
use crate::input::decode_axes;

verus! {

/// Distances are kept in fixed-point milli-units: 1000 per world unit,
/// so every position is a plain integer and the step is bit-reproducible
/// on every machine.
pub const MILLIS_PER_UNIT: i64 = 1000;

/// Where the two players of the demo room start, in milli-units.
pub const START_OFFSET_X: i64 = 2 * MILLIS_PER_UNIT;

/// A 2D position in milli-units: the per-entity simulation state that
/// the deterministic step owns.  The render layer only reads it.
#[derive(Clone, Copy, PartialEq, Eq, Structural, Debug)]
pub struct Position {
    pub x: i64,
    pub y: i64,
}

/// What one input frame does to one entity's position.
///
/// A discrete frame moves the entity additively by its decoded axes times
/// `speed`; a continuous frame places the entity at the decoded offset.
/// An exactly-zero movement short-circuits with no mutation: "no input
/// this tick" means "do not move", not "move to origin".
pub open spec fn apply_frame(p: Position, f: InputFrame, speed: int) -> Position {
    match f {
        InputFrame::Discrete(b) => {
            if axis_x(b) == 0 && axis_y(b) == 0 {
                p
            } else {
                Position { x: (p.x + axis_x(b) * speed) as i64, y: (p.y + axis_y(b) * speed) as i64 }
            }
        },
        InputFrame::Continuous(dx, dy) => {
            if dx == 0 && dy == 0 {
                p
            } else {
                Position { x: dx, y: dy }
            }
        },
    }
}

/// The deterministic step as a mathematical function: every handle's
/// position advanced by that handle's input frame.
pub open spec fn step_positions(ps: Seq<Position>, inputs: Seq<InputFrame>, speed: int) -> Seq<
    Position,
>
    recommends
        ps.len() == inputs.len(),
{
    Seq::new(ps.len(), |i: int| apply_frame(ps[i], inputs[i], speed))
}

/// The additive discrete move stays within the machine integers: with the
/// axes clamped to {-1, 0, 1}, each coordinate moves by at most `speed`.
pub open spec fn step_fits(ps: Seq<Position>, speed: int) -> bool {
    forall|i: int|
        0 <= i < ps.len() ==> i64::MIN <= #[trigger] ps[i].x - speed && ps[i].x + speed
            <= i64::MAX && i64::MIN <= ps[i].y - speed && ps[i].y + speed <= i64::MAX
}

/// The deterministic step: a pure function of the current positions and
/// the full ordered tuple of per-handle input frames.  No clock, no
/// randomness, no state outside the arguments.
pub fn step(positions: &mut Vec<Position>, inputs: &Vec<InputFrame>, speed: i64)
    requires
        old(positions)@.len() == inputs@.len(),
        speed >= 0,
        step_fits(old(positions)@, speed as int),
    ensures
        final(positions)@ == step_positions(old(positions)@, inputs@, speed as int),
{
    let n: usize = positions.len();
    let mut i: usize = 0;
    while i < n
        invariant
            n == old(positions)@.len(),
            inputs@.len() == n,
            positions@.len() == n,
            i <= n,
            speed >= 0,
            step_fits(old(positions)@, speed as int),
            forall|j: int|
                0 <= j < i ==> positions@[j] == apply_frame(
                    old(positions)@[j],
                    inputs@[j],
                    speed as int,
                ),
            forall|j: int| i <= j < n ==> positions@[j] == old(positions)@[j],
        decreases n - i,
    {
        let p: Position = positions[i];
        let f: InputFrame = inputs[i];
        let np: Position = match f {
            InputFrame::Discrete(b) => {
                let (ax, ay): (i64, i64) = decode_axes(b);
                if ax == 0 && ay == 0 {
                    p
                } else {
                    proof {
                        crate::input::lemma_axes_in_range(b);
                        assert(i64::MIN <= old(positions)@[i as int].x - speed && old(
                            positions,
                        )@[i as int].x + speed <= i64::MAX && i64::MIN <= old(
                            positions,
                        )@[i as int].y - speed && old(positions)@[i as int].y + speed <= i64::MAX);
                        assert(ax * speed == -speed || ax * speed == 0 || ax * speed
                            == speed) by (nonlinear_arith)
                            requires
                                -1 <= ax <= 1,
                        ;
                        assert(ay * speed == -speed || ay * speed == 0 || ay * speed
                            == speed) by (nonlinear_arith)
                            requires
                                -1 <= ay <= 1,
                        ;
                    }
                    Position { x: p.x + ax * speed, y: p.y + ay * speed }
                }
            },
            InputFrame::Continuous(dx, dy) => {
                if dx == 0 && dy == 0 {
                    p
                } else {
                    Position { x: dx, y: dy }
                }
            },
        };
        positions[i] = np;
        i = i + 1;
    }
    proof {
        assert(positions@ =~= step_positions(old(positions)@, inputs@, speed as int));
    }
}

/// The positions the demo room starts from: player 0 two world units
/// left of the origin, player 1 two world units right of it.
pub fn initial_positions() -> (r: Vec<Position>)
    ensures
        r@.len() == 2,
        r@[0].x == -START_OFFSET_X && r@[0].y == 0,
        r@[1].x == START_OFFSET_X && r@[1].y == 0,
{
    let mut r: Vec<Position> = Vec::new();
    r.push(Position { x: -START_OFFSET_X, y: 0 });
    r.push(Position { x: START_OFFSET_X, y: 0 });
    r
}

/// The simulation state reached after stepping through a whole history
/// of per-tick input tuples, oldest first.
pub open spec fn run_ticks(ps: Seq<Position>, history: Seq<Seq<InputFrame>>, speed: int) -> Seq<
    Position,
>
    decreases history.len(),
{
    if history.len() == 0 {
        ps
    } else {
        run_ticks(step_positions(ps, history[0], speed), history.drop_first(), speed)
    }
}

/// At any tick the simulation state is a pure function of the starting
/// state and the full ordered sequence of input tuples observed at or
/// before that tick: no hidden state can influence it.
pub proof fn lemma_state_is_function_of_history(
    ps1: Seq<Position>,
    history1: Seq<Seq<InputFrame>>,
    speed1: int,
    ps2: Seq<Position>,
    history2: Seq<Seq<InputFrame>>,
    speed2: int,
)
    requires
        ps1 == ps2,
        history1 == history2,
        speed1 == speed2,
    ensures
        run_ticks(ps1, history1, speed1) == run_ticks(ps2, history2, speed2),
{
}

/// The step is pure and deterministic: the same positions, the same input
/// tuple and the same speed always give the same next positions.
pub proof fn lemma_step_deterministic(
    ps1: Seq<Position>,
    inputs1: Seq<InputFrame>,
    speed1: int,
    ps2: Seq<Position>,
    inputs2: Seq<InputFrame>,
    speed2: int,
)
    requires
        ps1 == ps2,
        inputs1 == inputs2,
        speed1 == speed2,
    ensures
        step_positions(ps1, inputs1, speed1) == step_positions(ps2, inputs2, speed2),
{
}

/// A zero continuous offset never mutates a position: the handle whose
/// frame is the "no input" sentinel keeps exactly the position it had.
pub proof fn lemma_zero_offset_keeps_position(
    ps: Seq<Position>,
    inputs: Seq<InputFrame>,
    speed: int,
    h: int,
)
    requires
        ps.len() == inputs.len(),
        0 <= h < ps.len(),
        inputs[h] == InputFrame::Continuous(0, 0),
    ensures
        step_positions(ps, inputs, speed)[h] == ps[h],
{
}

/// A discrete frame whose axes cancel to zero leaves its handle's
/// position unchanged as well.
pub proof fn lemma_cancelled_axes_keep_position(
    ps: Seq<Position>,
    inputs: Seq<InputFrame>,
    speed: int,
    h: int,
    b: u8,
)
    requires
        ps.len() == inputs.len(),
        0 <= h < ps.len(),
        inputs[h] == InputFrame::Discrete(b),
        axis_x(b) == 0,
        axis_y(b) == 0,
    ensures
        step_positions(ps, inputs, speed)[h] == ps[h],
{
}

} // verus!
