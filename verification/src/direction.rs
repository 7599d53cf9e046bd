//! Compass headings and their cyclic rotation.

use vstd::prelude::*;

verus! {

/// One of the four compass headings, in clockwise order.
#[derive(Clone, Copy, Debug, PartialEq, Eq, Structural)]
pub enum Direction {
    North,
    East,
    South,
    West,
}

impl Direction {
    /// Position of the heading on the compass, counted clockwise from North.
    pub open spec fn index(self) -> int {
        match self {
            Direction::North => 0,
            Direction::East => 1,
            Direction::South => 2,
            Direction::West => 3,
        }
    }

    /// The heading found `i` quarter turns clockwise of North; meaningful for
    /// `0 <= i < 4`.
    pub open spec fn at(i: int) -> Direction {
        if i == 0 {
            Direction::North
        } else if i == 1 {
            Direction::East
        } else if i == 2 {
            Direction::South
        } else {
            Direction::West
        }
    }

    /// The heading reached after `delta` quarter turns: clockwise for a
    /// positive `delta`, counter-clockwise for a negative one. The remainder
    /// is the mathematical one, never negative.
    pub open spec fn rotated(self, delta: int) -> Direction {
        Direction::at((self.index() + delta) % 4)
    }

    /// The heading's name as it is shown in a report.
    pub open spec fn name_text(self) -> Seq<char> {
        match self {
            Direction::North => "North"@,
            Direction::East => "East"@,
            Direction::South => "South"@,
            Direction::West => "West"@,
        }
    }

    /// The heading's name as a placement command spells it.
    pub open spec fn token_text(self) -> Seq<char> {
        match self {
            Direction::North => "NORTH"@,
            Direction::East => "EAST"@,
            Direction::South => "SOUTH"@,
            Direction::West => "WEST"@,
        }
    }

    /// Turns the heading by `delta` quarter turns. Every `delta` is accepted.
    pub fn rotate(self, delta: i32) -> (turned: Direction)
        ensures
            turned == self.rotated(delta as int),
    {
        let start: i64 = match self {
            Direction::North => 0,
            Direction::East => 1,
            Direction::South => 2,
            Direction::West => 3,
        };
        let rem: i64 = (start + delta as i64) % 4;
        let index: i64 = if rem < 0 {
            rem + 4
        } else {
            rem
        };
        if index == 0 {
            Direction::North
        } else if index == 1 {
            Direction::East
        } else if index == 2 {
            Direction::South
        } else {
            Direction::West
        }
    }

    /// The heading's name as it is shown in a report.
    pub fn name(self) -> (text: &'static str)
        ensures
            text@ == self.name_text(),
    {
        match self {
            Direction::North => "North",
            Direction::East => "East",
            Direction::South => "South",
            Direction::West => "West",
        }
    }

    /// Rotation has period four: any number of full turns, in either sense,
    /// gives the heading back.
    pub proof fn lemma_full_turns(self, k: int)
        ensures
            self.rotated(4 * k) == self,
    {
    }

    /// Rotations add up: turning by `n` and after that by `m` is turning by
    /// `n + m`.
    pub proof fn lemma_rotations_add(self, n: int, m: int)
        ensures
            self.rotated(n).rotated(m) == self.rotated(n + m),
    {
    }
}

} // verus!
