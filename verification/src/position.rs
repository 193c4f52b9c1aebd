use vstd::prelude::*;

use crate::direction::Direction;

verus! {

/// The unit step that moving one voxel in a direction takes, as an
/// (x, y, z) triple.
pub open spec fn direction_step(d: Direction) -> (int, int, int) {
    match d {
        Direction::North => (0, 0, 1),
        Direction::South => (0, 0, -1),
        Direction::East => (1, 0, 0),
        Direction::West => (-1, 0, 0),
        Direction::Up => (0, 1, 0),
        Direction::Down => (0, -1, 0),
    }
}

/// A signed voxel coordinate.
///
/// Coordinates are signed so that stepping outside a chunk (for instance
/// when testing the neighbor of a voxel on the chunk boundary) yields a
/// representable, out-of-bound position instead of wrapping.
#[derive(Copy, Clone, Debug, PartialEq, Eq, Structural)]
pub struct Position {
    pub x: i64,
    pub y: i64,
    pub z: i64,
}

impl Position {
    pub fn new(x: i64, y: i64, z: i64) -> (r: Position)
        ensures
            r.x == x,
            r.y == y,
            r.z == z,
    {
        Position { x, y, z }
    }

    /// The unit position pointing one step in `direction`.
    pub fn from_direction(direction: Direction) -> (r: Position)
        ensures
            (r.x as int, r.y as int, r.z as int) == direction_step(direction),
    {
        match direction {
            Direction::North => Position::new(0, 0, 1),
            Direction::East => Position::new(1, 0, 0),
            Direction::South => Position::new(0, 0, -1),
            Direction::West => Position::new(-1, 0, 0),
            Direction::Up => Position::new(0, 1, 0),
            Direction::Down => Position::new(0, -1, 0),
        }
    }

    /// This position translated by one step in `direction`.
    pub fn add_direction(&self, direction: Direction) -> (r: Position)
        requires
            i64::MIN < self.x < i64::MAX,
            i64::MIN < self.y < i64::MAX,
            i64::MIN < self.z < i64::MAX,
        ensures
            r.x as int == self.x as int + direction_step(direction).0,
            r.y as int == self.y as int + direction_step(direction).1,
            r.z as int == self.z as int + direction_step(direction).2,
    {
        let direction_position = Position::from_direction(direction);

        Position {
            x: self.x + direction_position.x,
            y: self.y + direction_position.y,
            z: self.z + direction_position.z,
        }
    }
}

} // verus!
