use vstd::prelude::*;

use crate::coordinate::Coordinate;
use crate::direction::Direction;

verus! {

/// A point of the plane, as the pair (x, y).
#[derive(Debug, Clone, Copy, Hash, PartialEq, Eq)]
pub struct Position<N: Coordinate>(pub N, pub N);

/// The unit step along a direction, as (dx, dy): north is +y, east is +x.
pub open spec fn unit_offset(d: Direction) -> (int, int) {
    match d {
        Direction::N => (0, 1),
        Direction::S => (0, -1),
        Direction::E => (1, 0),
        Direction::W => (-1, 0),
    }
}

impl<N: Coordinate> View for Position<N> {
    type V = (int, int);

    /// The pair of integers that the position stands for.
    open spec fn view(&self) -> (int, int) {
        (self.0.to_int(), self.1.to_int())
    }
}

impl<N: Coordinate> Position<N> {
    /// The position that stands for the pair (x, y), where both are in range.
    pub open spec fn from_ints(x: int, y: int) -> Position<N> {
        Position(N::from_int(x), N::from_int(y))
    }

    /// Whether the componentwise sum with `o` is representable.
    pub open spec fn can_add(self, o: Position<N>) -> bool {
        N::in_range(self.0.to_int() + o.0.to_int()) && N::in_range(self.1.to_int() + o.1.to_int())
    }

    /// Whether the componentwise difference with `o` is representable.
    pub open spec fn can_sub(self, o: Position<N>) -> bool {
        N::in_range(self.0.to_int() - o.0.to_int()) && N::in_range(self.1.to_int() - o.1.to_int())
    }

    /// Whether one step along `d` is representable.
    pub open spec fn can_step(self, d: Direction) -> bool {
        N::in_range(self.0.to_int() + unit_offset(d).0) && N::in_range(
            self.1.to_int() + unit_offset(d).1,
        )
    }

    /// The componentwise sum.
    pub open spec fn spec_add(self, o: Position<N>) -> Position<N> {
        Self::from_ints(self.0.to_int() + o.0.to_int(), self.1.to_int() + o.1.to_int())
    }

    /// The componentwise difference.
    pub open spec fn spec_sub(self, o: Position<N>) -> Position<N> {
        Self::from_ints(self.0.to_int() - o.0.to_int(), self.1.to_int() - o.1.to_int())
    }

    /// The position one unit along `d`.
    pub open spec fn spec_add_direction(self, d: Direction) -> Position<N> {
        Self::from_ints(self.0.to_int() + unit_offset(d).0, self.1.to_int() + unit_offset(d).1)
    }

    /// Componentwise sum.
    pub fn add(self, o: Position<N>) -> (r: Position<N>)
        requires
            self.can_add(o),
        ensures
            r@ == (self.0.to_int() + o.0.to_int(), self.1.to_int() + o.1.to_int()),
            r == self.spec_add(o),
    {
        let r = Position(self.0.plus(o.0), self.1.plus(o.1));
        proof {
            N::lemma_from_to_int(r.0);
            N::lemma_from_to_int(r.1);
        }
        r
    }

    /// Componentwise difference.
    pub fn sub(self, o: Position<N>) -> (r: Position<N>)
        requires
            self.can_sub(o),
        ensures
            r@ == (self.0.to_int() - o.0.to_int(), self.1.to_int() - o.1.to_int()),
            r == self.spec_sub(o),
    {
        let r = Position(self.0.minus(o.0), self.1.minus(o.1));
        proof {
            N::lemma_from_to_int(r.0);
            N::lemma_from_to_int(r.1);
        }
        r
    }

    /// Moves one unit along `d`, using the coordinate type's own zero and one:
    /// north adds (0, 1), south subtracts it, east adds (1, 0), west subtracts it.
    pub fn add_direction(self, d: Direction) -> (r: Position<N>)
        requires
            self.can_step(d),
        ensures
            r@ == (self.0.to_int() + unit_offset(d).0, self.1.to_int() + unit_offset(d).1),
            r == self.spec_add_direction(d),
    {
        proof {
            N::lemma_to_int_in_range(self.0);
            N::lemma_to_int_in_range(self.1);
        }
        match d {
            Direction::N => self.add(Position(N::zero_value(), N::one_value())),
            Direction::S => self.sub(Position(N::zero_value(), N::one_value())),
            Direction::E => self.add(Position(N::one_value(), N::zero_value())),
            Direction::W => self.sub(Position(N::one_value(), N::zero_value())),
        }
    }
}

/// Adding a position and then subtracting it again gives back the start.
pub proof fn lemma_add_then_sub<N: Coordinate>(p: Position<N>, q: Position<N>)
    requires
        p.can_add(q),
    ensures
        p.spec_add(q).can_sub(q),
        p.spec_add(q).spec_sub(q) == p,
{
    N::lemma_to_from_int(p.0.to_int() + q.0.to_int());
    N::lemma_to_from_int(p.1.to_int() + q.1.to_int());
    N::lemma_to_int_in_range(p.0);
    N::lemma_to_int_in_range(p.1);
    N::lemma_from_to_int(p.0);
    N::lemma_from_to_int(p.1);
}

/// A step along a direction followed by a step along the opposite one returns
/// to the start.
pub proof fn lemma_step_then_step_back<N: Coordinate>(p: Position<N>, d: Direction)
    requires
        p.can_step(d),
    ensures
        p.spec_add_direction(d).can_step(d.opposite()),
        p.spec_add_direction(d).spec_add_direction(d.opposite()) == p,
{
    N::lemma_to_from_int(p.0.to_int() + unit_offset(d).0);
    N::lemma_to_from_int(p.1.to_int() + unit_offset(d).1);
    N::lemma_to_int_in_range(p.0);
    N::lemma_to_int_in_range(p.1);
    N::lemma_from_to_int(p.0);
    N::lemma_from_to_int(p.1);
}

} // verus!
