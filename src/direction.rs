use vstd::prelude::*;

verus! {

/// The four cardinal directions.
#[derive(Debug, Clone, Copy, Hash, PartialEq, Eq, Structural)]
pub enum Direction {
    N,
    S,
    E,
    W,
}

impl Direction {
    /// The direction a quarter turn clockwise from this one.
    pub open spec fn spec_rotate_cw(self) -> Direction {
        match self {
            Direction::N => Direction::E,
            Direction::E => Direction::S,
            Direction::S => Direction::W,
            Direction::W => Direction::N,
        }
    }

    /// The direction a quarter turn counterclockwise from this one.
    pub open spec fn spec_rotate_ccw(self) -> Direction {
        match self {
            Direction::N => Direction::W,
            Direction::W => Direction::S,
            Direction::S => Direction::E,
            Direction::E => Direction::N,
        }
    }

    /// The direction facing away from this one.
    pub open spec fn opposite(self) -> Direction {
        match self {
            Direction::N => Direction::S,
            Direction::S => Direction::N,
            Direction::E => Direction::W,
            Direction::W => Direction::E,
        }
    }

    /// Rotates a quarter turn clockwise: N to E, E to S, S to W, W to N.
    pub fn rotate_cw(self) -> (r: Direction)
        ensures
            r == self.spec_rotate_cw(),
    {
        match self {
            Direction::N => Direction::E,
            Direction::S => Direction::W,
            Direction::E => Direction::S,
            Direction::W => Direction::N,
        }
    }

    /// Rotates a quarter turn counterclockwise: N to W, W to S, S to E, E to N.
    pub fn rotate_ccw(self) -> (r: Direction)
        ensures
            r == self.spec_rotate_ccw(),
    {
        match self {
            Direction::N => Direction::W,
            Direction::S => Direction::E,
            Direction::E => Direction::N,
            Direction::W => Direction::S,
        }
    }
}

/// Clockwise and counterclockwise rotation undo each other.
pub proof fn lemma_rotations_inverse(d: Direction)
    ensures
        d.spec_rotate_ccw().spec_rotate_cw() == d,
        d.spec_rotate_cw().spec_rotate_ccw() == d,
{
}

/// Four quarter turns in either sense bring a direction back to itself, and no
/// fewer do: rotation has order exactly four.
pub proof fn lemma_rotation_cycle(d: Direction)
    ensures
        d.spec_rotate_cw().spec_rotate_cw().spec_rotate_cw().spec_rotate_cw() == d,
        d.spec_rotate_ccw().spec_rotate_ccw().spec_rotate_ccw().spec_rotate_ccw() == d,
        d.spec_rotate_cw() != d,
        d.spec_rotate_cw().spec_rotate_cw() != d,
        d.spec_rotate_cw().spec_rotate_cw().spec_rotate_cw() != d,
        d.spec_rotate_ccw() != d,
        d.spec_rotate_ccw().spec_rotate_ccw() != d,
        d.spec_rotate_ccw().spec_rotate_ccw().spec_rotate_ccw() != d,
{
}

/// Two quarter turns face the opposite way.
pub proof fn lemma_half_turn_is_opposite(d: Direction)
    ensures
        d.spec_rotate_cw().spec_rotate_cw() == d.opposite(),
        d.spec_rotate_ccw().spec_rotate_ccw() == d.opposite(),
        d.opposite().opposite() == d,
{
}

} // verus!
