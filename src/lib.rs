//! A rover on an unbounded integer grid. It has a position and the direction
//! it faces, and follows three instructions: step forward one unit, turn a
//! quarter clockwise, turn a quarter counterclockwise. Instructions can be
//! parsed from strings of the codes 'F', 'R' and 'L'.

pub mod coordinate;
pub mod direction;
pub mod instruction;
pub mod position;
pub mod rover;

pub use crate::coordinate::Coordinate;
pub use crate::direction::Direction;
pub use crate::instruction::Instruction;
pub use crate::position::Position;
pub use crate::rover::Rover;
