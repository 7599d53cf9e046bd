//! A robot that moves on a bounded rectangular table, one command at a time.
//!
//! The crate is a small command interpreter: a table of cells, a compass
//! heading with cyclic rotation, a robot pose, and a game that owns the table
//! and the robot and decides which commands are accepted. Commands arrive as
//! calls or as lines of text. Every function is verified against a contract
//! stated over plain mathematical models.

use vstd::prelude::*;
use crate::game::{Game, GameState};
use crate::table::Table;

pub mod command;
pub mod direction;
pub mod dispatch;
pub mod error;
pub mod game;
pub mod robot;
mod scan;
pub mod table;
pub mod text;

verus! {

/// A game on a table of `width` columns and `height` rows, with no robot
/// yet.
pub fn new(width: usize, height: usize) -> (game: Game)
    requires
        width > 0,
        height > 0,
    ensures
        game@ == (GameState { table: Table { width, height }, robot: None }),
        game@.wf(),
{
    Game::new(Table { width, height })
}

} // verus!
