use vstd::prelude::*;

verus! {

/// One of the four headings the snake can travel in.
#[derive(Clone, Copy, Debug, PartialEq, Eq, Structural)]
pub enum Direction {
    Up,
    Down,
    Left,
    Right,
}

/// `a` and `b` are antiparallel: the pair {Up, Down} or {Left, Right}, in
/// either order. False for every other pair, including `a == b`.
pub open spec fn spec_opposite(a: Direction, b: Direction) -> bool {
    ||| (a == Direction::Up && b == Direction::Down)
    ||| (a == Direction::Down && b == Direction::Up)
    ||| (a == Direction::Left && b == Direction::Right)
    ||| (a == Direction::Right && b == Direction::Left)
}

/// The heading a touch swipe resolves to, given the horizontal delta `dx`
/// (assumed nonzero) and the vertical delta `dy` of the gesture.
///
/// This is the quadrant of `atan2(dy, dx)` measured against the radian
/// boundaries `0`, `pi/2` and `pi`: `[0, pi/2)` is Right, `[pi/2, pi)` is Up,
/// `[-pi, -pi/2)` together with the angle `pi` itself is Left, and the rest is
/// Down. With `dx != 0` the quadrant is fixed by the signs of the deltas
/// alone, which is how it is written here.
pub open spec fn swipe_direction(dx: int, dy: int) -> Direction {
    if dx > 0 {
        if dy >= 0 {
            Direction::Right
        } else {
            Direction::Down
        }
    } else {
        if dy > 0 {
            Direction::Up
        } else {
            Direction::Left
        }
    }
}

impl Direction {
    /// True exactly when `self` and `other` point opposite ways.
    pub fn opposite(self, other: Direction) -> (r: bool)
        ensures
            r == spec_opposite(self, other),
    {
        match (self, other) {
            (Direction::Up, Direction::Down) => true,
            (Direction::Down, Direction::Up) => true,
            (Direction::Left, Direction::Right) => true,
            (Direction::Right, Direction::Left) => true,
            _ => false,
        }
    }
}

} // verus!
