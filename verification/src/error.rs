//! Why a command is refused.

use vstd::prelude::*;
use crate::text::{decimal, push_decimal};

verus! {

/// A refusal. The game's state is the same after a refusal as before the
/// command.
#[derive(Clone, Copy, Debug, PartialEq, Eq, Structural)]
pub enum GameError {
    /// A placement named a point that is no cell of the table: the point and
    /// the table's dimensions.
    InvalidPosition { x: usize, y: usize, width: usize, height: usize },
    /// A move would have taken the robot off the table.
    OutOfBounds,
    /// A command that needs a robot came before any placement.
    NotPlaced,
}

/// A line of input that spells no command: the line as it came.
#[derive(Debug, PartialEq, Eq)]
pub struct UnrecognisedCommand {
    pub token: String,
}

/// The answer to the line `line`, which spells no command.
pub open spec fn unrecognised_text(line: Seq<char>) -> Seq<char> {
    "Unrecognised command '"@ + line + "'"@
}

impl UnrecognisedCommand {
    /// The refusal in words, as one line: it quotes the line.
    pub fn message(&self) -> (text: String)
        ensures
            text@ == unrecognised_text(self.token@),
    {
        let mut text = String::from_str("Unrecognised command '");
        text.append(self.token.as_str());
        text.append("'");
        text
    }
}

impl GameError {
    /// The refusal in words, as one line.
    pub open spec fn message_text(self) -> Seq<char> {
        match self {
            GameError::InvalidPosition { x, y, width, height } => "Position ("@ + decimal(
                x as nat,
            ) + ", "@ + decimal(y as nat) + ") is invalid for a "@ + decimal(width as nat) + " x "@
                + decimal(height as nat) + " table"@,
            GameError::OutOfBounds => "Robot would fall off the table"@,
            GameError::NotPlaced => "Robot has not been placed on table"@,
        }
    }

    /// The refusal in words, as one line.
    pub fn message(&self) -> (text: String)
        ensures
            text@ == self.message_text(),
    {
        match *self {
            GameError::InvalidPosition { x, y, width, height } => {
                let mut text = String::from_str("Position (");
                push_decimal(&mut text, x);
                text.append(", ");
                push_decimal(&mut text, y);
                text.append(") is invalid for a ");
                push_decimal(&mut text, width);
                text.append(" x ");
                push_decimal(&mut text, height);
                text.append(" table");
                text
            },
            GameError::OutOfBounds => String::from_str("Robot would fall off the table"),
            GameError::NotPlaced => String::from_str("Robot has not been placed on table"),
        }
    }
}

} // verus!
