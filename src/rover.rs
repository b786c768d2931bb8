use vstd::prelude::*;

use crate::coordinate::Coordinate;
use crate::direction::Direction;
use crate::instruction::Instruction;
use crate::position::Position;

verus! {

/// A rover with a position in the plane and the direction it faces.
#[derive(Debug, Clone, Copy, Hash, PartialEq, Eq)]
pub struct Rover<N: Coordinate> {
    pub position: Position<N>,
    pub direction: Direction,
}

impl<N: Coordinate> Rover<N> {
    /// Whether `instruction` keeps the position representable: only a step
    /// forward moves the rover.
    pub open spec fn can_execute(self, instruction: Instruction) -> bool {
        instruction == Instruction::Forward ==> self.position.can_step(self.direction)
    }

    /// The rover after one instruction.
    pub open spec fn spec_execute(self, instruction: Instruction) -> Rover<N> {
        match instruction {
            Instruction::Forward => Rover {
                position: self.position.spec_add_direction(self.direction),
                direction: self.direction,
            },
            Instruction::RotateCW => Rover {
                position: self.position,
                direction: self.direction.spec_rotate_cw(),
            },
            Instruction::RotateCCW => Rover {
                position: self.position,
                direction: self.direction.spec_rotate_ccw(),
            },
        }
    }

    /// The rover after the instructions of `s`, applied left to right.
    pub open spec fn spec_execute_many(self, s: Seq<Instruction>) -> Rover<N>
        decreases s.len(),
    {
        if s.len() == 0 {
            self
        } else {
            self.spec_execute_many(s.drop_last()).spec_execute(s.last())
        }
    }

    /// Whether every instruction of `s`, applied in turn, keeps the position
    /// representable.
    pub open spec fn can_execute_many(self, s: Seq<Instruction>) -> bool
        decreases s.len(),
    {
        if s.len() == 0 {
            true
        } else {
            self.can_execute_many(s.drop_last()) && self.spec_execute_many(s.drop_last()).can_execute(
                s.last(),
            )
        }
    }

    /// A rover at `position` facing `direction`.
    pub fn new(position: Position<N>, direction: Direction) -> (r: Rover<N>)
        ensures
            r.position == position,
            r.direction == direction,
    {
        Rover { position, direction }
    }

    /// Carries out one instruction: a step forward moves one unit along the
    /// direction faced, a rotation turns a quarter and stays in place.
    pub fn execute(&self, instruction: Instruction) -> (r: Rover<N>)
        requires
            self.can_execute(instruction),
        ensures
            r == self.spec_execute(instruction),
    {
        match instruction {
            Instruction::Forward => Rover {
                position: self.position.add_direction(self.direction),
                direction: self.direction,
            },
            Instruction::RotateCW => Rover {
                position: self.position,
                direction: self.direction.rotate_cw(),
            },
            Instruction::RotateCCW => Rover {
                position: self.position,
                direction: self.direction.rotate_ccw(),
            },
        }
    }

    /// Carries out the instructions in order, starting from this rover.
    pub fn execute_many(&self, instructions: &[Instruction]) -> (r: Rover<N>)
        requires
            self.can_execute_many(instructions@),
        ensures
            r == self.spec_execute_many(instructions@),
    {
        let mut rover = *self;
        let mut i: usize = 0;
        while i < instructions.len()
            invariant
                i <= instructions@.len(),
                self.can_execute_many(instructions@),
                rover == self.spec_execute_many(instructions@.take(i as int)),
            decreases instructions@.len() - i,
        {
            proof {
                lemma_execute_many_prefix(*self, instructions@, i as int + 1);
                assert(instructions@.take(i as int + 1).drop_last() =~= instructions@.take(i as int));
            }
            rover = rover.execute(instructions[i]);
            i = i + 1;
        }
        assert(instructions@.take(i as int) =~= instructions@);
        rover
    }
}

/// What can run in full can run in part.
proof fn lemma_execute_many_prefix<N: Coordinate>(r: Rover<N>, s: Seq<Instruction>, k: int)
    requires
        r.can_execute_many(s),
        0 <= k <= s.len(),
    ensures
        r.can_execute_many(s.take(k)),
    decreases s.len(),
{
    if k < s.len() {
        assert(s.drop_last().take(k) =~= s.take(k));
        lemma_execute_many_prefix(r, s.drop_last(), k);
    } else {
        assert(s.take(k) =~= s);
    }
}

/// An empty sequence of instructions leaves the rover as it was.
pub proof fn lemma_execute_none<N: Coordinate>(r: Rover<N>)
    ensures
        r.can_execute_many(Seq::empty()),
        r.spec_execute_many(Seq::empty()) == r,
{
}

/// Running `a ++ b` is running `a`, then `b` from where `a` left the rover; and
/// `a ++ b` can run exactly when `a` can and `b` can from there.
pub proof fn lemma_execute_concat<N: Coordinate>(
    r: Rover<N>,
    a: Seq<Instruction>,
    b: Seq<Instruction>,
)
    ensures
        r.spec_execute_many(a + b) == r.spec_execute_many(a).spec_execute_many(b),
        r.can_execute_many(a + b) == (r.can_execute_many(a) && r.spec_execute_many(
            a,
        ).can_execute_many(b)),
    decreases b.len(),
{
    if b.len() == 0 {
        assert(a + b =~= a);
    } else {
        assert((a + b).drop_last() =~= a + b.drop_last());
        assert((a + b).last() == b.last());
        lemma_execute_concat(r, a, b.drop_last());
    }
}

} // verus!
