//! The robot's pose and how one step and a turn change it.

use vstd::prelude::*;
use crate::direction::Direction;
use crate::text::{decimal, push_decimal};

verus! {

/// A pose: the cell the robot stands on and the heading it faces.
#[derive(Clone, Copy, Debug, PartialEq, Eq, Structural)]
pub struct Robot {
    pub x: usize,
    pub y: usize,
    pub d: Direction,
}

impl Robot {
    /// The point one step ahead: North raises `y`, South lowers it, East
    /// raises `x`, West lowers it. The point is a pair of mathematical
    /// integers and may lie left of or below every cell.
    pub open spec fn ahead(self) -> (int, int) {
        match self.d {
            Direction::North => (self.x as int, self.y + 1),
            Direction::East => (self.x + 1, self.y as int),
            Direction::South => (self.x as int, self.y - 1),
            Direction::West => (self.x - 1, self.y as int),
        }
    }

    /// Whether the point one step ahead can be held in a pose: neither
    /// coordinate is negative or beyond the largest `usize`.
    pub open spec fn can_advance(self) -> bool {
        0 <= self.ahead().0 <= usize::MAX && 0 <= self.ahead().1 <= usize::MAX
    }

    /// The pose one step ahead, same heading; meaningful where
    /// `can_advance` holds.
    pub open spec fn advanced(self) -> Robot {
        Robot { x: self.ahead().0 as usize, y: self.ahead().1 as usize, d: self.d }
    }

    /// The pose after `delta` quarter turns on the spot.
    pub open spec fn turned(self, delta: int) -> Robot {
        Robot { x: self.x, y: self.y, d: self.d.rotated(delta) }
    }

    /// The pose as a report shows it: `x`, `y` and the heading's name,
    /// separated by a comma and a space.
    pub open spec fn report_text(self) -> Seq<char> {
        decimal(self.x as nat) + ", "@ + decimal(self.y as nat) + ", "@ + self.d.name_text()
    }

    /// Turns the robot by `delta` quarter turns; the cell stays.
    pub fn rotate(&mut self, delta: i32)
        ensures
            *final(self) == old(self).turned(delta as int),
    {
        self.d = self.d.rotate(delta);
    }

    /// Whether a step ahead gives a point that a pose can hold.
    pub fn steppable(&self) -> (possible: bool)
        ensures
            possible == self.can_advance(),
    {
        match self.d {
            Direction::North => self.y < usize::MAX,
            Direction::East => self.x < usize::MAX,
            Direction::South => self.y > 0,
            Direction::West => self.x > 0,
        }
    }

    /// Moves the robot one cell ahead. No table is consulted: whether the new
    /// cell exists is for the owner of the table to decide.
    pub fn move_forward(&mut self)
        requires
            old(self).can_advance(),
        ensures
            *final(self) == old(self).advanced(),
            (final(self).x as int, final(self).y as int) == old(self).ahead(),
    {
        match self.d {
            Direction::North => {
                self.y += 1;
            },
            Direction::East => {
                self.x += 1;
            },
            Direction::South => {
                self.y -= 1;
            },
            Direction::West => {
                self.x -= 1;
            },
        }
    }

    /// The pose as a line of text.
    pub fn report(&self) -> (text: String)
        ensures
            text@ == self.report_text(),
    {
        let mut text = String::new();
        push_decimal(&mut text, self.x);
        text.append(", ");
        push_decimal(&mut text, self.y);
        text.append(", ");
        text.append(self.d.name());
        text
    }
}

} // verus!
