//! The four compass directions an entity can face, and how they are chosen.

use vstd::prelude::*;

verus! {

/// The way an entity faces.
#[derive(Clone, Copy, Debug, PartialEq, Eq, Structural)]
pub enum Direction {
    North,
    East,
    South,
    West,
}

/// The unit step of a direction as `(x, y)`, with y pointing north.
pub open spec fn unit_step(direction: Direction) -> (int, int) {
    match direction {
        Direction::North => (0, 1),
        Direction::East => (1, 0),
        Direction::South => (0, -1),
        Direction::West => (-1, 0),
    }
}

/// How far the displacement `(dx, dy)` reaches along `direction`.
pub open spec fn reach(direction: Direction, dx: int, dy: int) -> int {
    unit_step(direction).0 * dx + unit_step(direction).1 * dy
}

/// The direction chosen from the arrow keys held down: the one key's
/// direction when exactly one of them is held, none otherwise.
pub open spec fn direction_of_keys(up: bool, right: bool, down: bool, left: bool) -> Option<Direction> {
    match (up, right, down, left) {
        (true, false, false, false) => Some(Direction::North),
        (false, true, false, false) => Some(Direction::East),
        (false, false, true, false) => Some(Direction::South),
        (false, false, false, true) => Some(Direction::West),
        _ => None,
    }
}

/// The direction in which to face a target at displacement `(dx, dy)`,
/// told by the two comparisons `dx < dy` and `-dx < dy`.
pub open spec fn facing(dx_below_dy: bool, minus_dx_below_dy: bool) -> Direction {
    match (dx_below_dy, minus_dx_below_dy) {
        (true, true) => Direction::North,
        (true, false) => Direction::West,
        (false, true) => Direction::East,
        (false, false) => Direction::South,
    }
}

impl Direction {
    /// The unit step of this direction as `(x, y)` grid components, y pointing north.
    pub fn as_vec2(&self) -> (step: (i32, i32))
        ensures
            (step.0 as int, step.1 as int) == unit_step(*self),
    {
        match self {
            Direction::North => (0, 1),
            Direction::East => (1, 0),
            Direction::South => (0, -1),
            Direction::West => (-1, 0),
        }
    }

    /// The direction to walk in, from which of the up, right, down and left
    /// keys are held: exactly one of them picks its direction.
    pub fn from_keys(up: bool, right: bool, down: bool, left: bool) -> (direction: Option<Direction>)
        ensures
            direction == direction_of_keys(up, right, down, left),
    {
        match (up, right, down, left) {
            (true, false, false, false) => Some(Direction::North),
            (false, true, false, false) => Some(Direction::East),
            (false, false, true, false) => Some(Direction::South),
            (false, false, false, true) => Some(Direction::West),
            _ => None,
        }
    }

    /// Whether the tile drawn for this direction is mirrored: the West tiles
    /// are the East ("Profile") tiles flipped.
    pub fn flip_x(&self) -> (flip: bool)
        ensures
            flip == (*self == Direction::West),
    {
        match self {
            Direction::West => true,
            _ => false,
        }
    }
}

/// The way the Lancer turns to face the Axe Man, from the displacement
/// `(dx, dy)` from the Lancer to the Axe Man, given as the comparisons
/// `dx < dy` and `-dx < dy`.
pub fn lancer_face_axe_man(dx_below_dy: bool, minus_dx_below_dy: bool) -> (direction: Direction)
    ensures
        direction == facing(dx_below_dy, minus_dx_below_dy),
{
    match (dx_below_dy, minus_dx_below_dy) {
        (true, true) => Direction::North,
        (true, false) => Direction::West,
        (false, true) => Direction::East,
        (false, false) => Direction::South,
    }
}

/// The Lancer always faces the Axe Man: of the four directions, the one
/// chosen from the displacement reaches at least as far towards it as any other.
pub proof fn lemma_lancer_faces_axe_man(dx: int, dy: int)
    ensures
        forall|other: Direction| #[trigger] reach(other, dx, dy) <= reach(facing(dx < dy, -dx < dy), dx, dy),
{
    assert forall|other: Direction| #[trigger] reach(other, dx, dy) <= reach(facing(dx < dy, -dx < dy), dx, dy) by {
        lemma_reach_along_axes(dx, dy);
    }
}

/// How far a displacement reaches along each direction.
proof fn lemma_reach_along_axes(dx: int, dy: int)
    ensures
        reach(Direction::North, dx, dy) == dy,
        reach(Direction::East, dx, dy) == dx,
        reach(Direction::South, dx, dy) == -dy,
        reach(Direction::West, dx, dy) == -dx,
{
    assert(0 * dx + 1 * dy == dy) by (nonlinear_arith);
    assert(1 * dx + 0 * dy == dx) by (nonlinear_arith);
    assert(0 * dx + (-1) * dy == -dy) by (nonlinear_arith);
    assert((-1) * dx + 0 * dy == -dx) by (nonlinear_arith);
}

/// Every direction steps one unit along one axis, and opposite directions
/// step in opposite ways.
pub proof fn lemma_unit_steps(direction: Direction)
    ensures
        unit_step(direction).0 * unit_step(direction).0 + unit_step(direction).1 * unit_step(direction).1 == 1,
        unit_step(Direction::North) == (-unit_step(Direction::South).0, -unit_step(Direction::South).1),
        unit_step(Direction::East) == (-unit_step(Direction::West).0, -unit_step(Direction::West).1),
{
}

/// A single held key always picks its own direction, and holding no key, or
/// more than one, picks none.
pub proof fn lemma_keys_pick_at_most_one_direction(up: bool, right: bool, down: bool, left: bool)
    ensures
        direction_of_keys(up, right, down, left) is Some <==> (
            (up as int) + (right as int) + (down as int) + (left as int) == 1),
        direction_of_keys(true, false, false, false) == Some(Direction::North),
        direction_of_keys(false, true, false, false) == Some(Direction::East),
        direction_of_keys(false, false, true, false) == Some(Direction::South),
        direction_of_keys(false, false, false, true) == Some(Direction::West),
{
}

} // verus!
