use vstd::prelude::*;

verus! {

/// One of the four walls of the castle, and the direction its enemies come from.
#[derive(Debug, Clone, Copy, PartialEq, Eq, Structural)]
pub enum Side {
    North,
    South,
    West,
    East,
}

impl Side {
    /// Position of the side in `[North, South, West, East]`.
    pub open spec fn spec_index(self) -> nat {
        match self {
            Side::North => 0,
            Side::South => 1,
            Side::West => 2,
            Side::East => 3,
        }
    }

    pub fn index(self) -> (r: usize)
        ensures
            r == self.spec_index(),
            r < 4,
    {
        match self {
            Side::North => 0,
            Side::South => 1,
            Side::West => 2,
            Side::East => 3,
        }
    }

    /// The unit vector pointing out of the castle on this side.
    pub open spec fn spec_direction(self) -> (int, int) {
        match self {
            Side::North => (0, 1),
            Side::South => (0, -1),
            Side::West => (-1, 0),
            Side::East => (1, 0),
        }
    }

    pub fn direction(self) -> (r: (i64, i64))
        ensures
            r.0 == self.spec_direction().0,
            r.1 == self.spec_direction().1,
    {
        match self {
            Side::North => (0, 1),
            Side::South => (0, -1),
            Side::West => (-1, 0),
            Side::East => (1, 0),
        }
    }

    /// The side at position `i` of `[North, South, West, East]`.
    pub open spec fn spec_from_index(i: nat) -> Side {
        if i == 0 {
            Side::North
        } else if i == 1 {
            Side::South
        } else if i == 2 {
            Side::West
        } else {
            Side::East
        }
    }

    pub fn from_index(i: usize) -> (r: Side)
        requires
            i < 4,
        ensures
            r == Self::spec_from_index(i as nat),
            r.spec_index() == i,
    {
        if i == 0 {
            Side::North
        } else if i == 1 {
            Side::South
        } else if i == 2 {
            Side::West
        } else {
            Side::East
        }
    }
}

/// One value for each side.
#[derive(Debug, Clone, Copy, PartialEq, Eq, Structural)]
pub struct PerSide<T> {
    pub north: T,
    pub south: T,
    pub west: T,
    pub east: T,
}

impl<T: Copy> PerSide<T> {
    pub open spec fn spec_get(self, side: Side) -> T {
        match side {
            Side::North => self.north,
            Side::South => self.south,
            Side::West => self.west,
            Side::East => self.east,
        }
    }

    pub open spec fn spec_set(self, side: Side, v: T) -> Self {
        match side {
            Side::North => PerSide { north: v, ..self },
            Side::South => PerSide { south: v, ..self },
            Side::West => PerSide { west: v, ..self },
            Side::East => PerSide { east: v, ..self },
        }
    }

    pub open spec fn spec_splat(v: T) -> Self {
        PerSide { north: v, south: v, west: v, east: v }
    }

    /// The same value on every side.
    pub fn splat(v: T) -> (r: Self)
        ensures
            r == Self::spec_splat(v),
    {
        PerSide { north: v, south: v, west: v, east: v }
    }

    pub fn get(&self, side: Side) -> (r: T)
        ensures
            r == self.spec_get(side),
    {
        match side {
            Side::North => self.north,
            Side::South => self.south,
            Side::West => self.west,
            Side::East => self.east,
        }
    }

    pub fn set(&mut self, side: Side, v: T)
        ensures
            *final(self) == old(self).spec_set(side, v),
    {
        match side {
            Side::North => self.north = v,
            Side::South => self.south = v,
            Side::West => self.west = v,
            Side::East => self.east = v,
        }
    }
}

} // verus!
