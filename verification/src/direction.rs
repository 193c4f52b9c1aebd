use vstd::prelude::*;

verus! {

/// The six axis-aligned directions a voxel face can point in.
///
/// North is +Z, South is -Z, East is +X, West is -X, Up is +Y, Down is -Y.
/// The enumeration order North, South, East, West, Up, Down is fixed: the
/// mesh builder walks the faces of every voxel in this order, so it
/// determines the order of the emitted geometry.
#[derive(Copy, Clone, Debug, PartialEq, Eq, Structural)]
pub enum Direction {
    North,
    South,
    East,
    West,
    Up,
    Down,
}

/// The fixed order in which the six directions are enumerated.
pub open spec fn direction_order() -> Seq<Direction> {
    seq![
        Direction::North,
        Direction::South,
        Direction::East,
        Direction::West,
        Direction::Up,
        Direction::Down,
    ]
}

impl Direction {
    /// All six directions, in the fixed enumeration order.
    pub fn iterator() -> (r: Vec<Direction>)
        ensures
            r@ == direction_order(),
    {
        let mut r: Vec<Direction> = Vec::new();
        r.push(Direction::North);
        r.push(Direction::South);
        r.push(Direction::East);
        r.push(Direction::West);
        r.push(Direction::Up);
        r.push(Direction::Down);
        proof {
            assert(r@ =~= direction_order());
        }
        r
    }
}

} // verus!
