//! Running commands, and lines of text, against a game.

use vstd::prelude::*;
use crate::command::{parse, parse_command, Command};
use crate::error::{unrecognised_text, GameError};
use crate::game::{Game, GameState};

verus! {

impl GameState {
    /// The state after `command`.
    pub open spec fn executed(self, command: Command) -> GameState {
        match command {
            Command::Place { x, y, d } => self.placed(x, y, d),
            Command::Move => self.moved(),
            Command::Left => self.rotated(-1),
            Command::Right => self.rotated(1),
            Command::Report => self,
        }
    }

    /// What `command` returns: the text to show, which only a report has, or
    /// the refusal.
    pub open spec fn execute_result(self, command: Command) -> Result<Option<Seq<char>>, GameError> {
        match command {
            Command::Place { x, y, d } => match self.place_result(x, y) {
                Ok(_) => Ok(None),
                Err(e) => Err(e),
            },
            Command::Move => match self.move_result() {
                Ok(_) => Ok(None),
                Err(e) => Err(e),
            },
            Command::Left | Command::Right => match self.rotate_result() {
                Ok(_) => Ok(None),
                Err(e) => Err(e),
            },
            Command::Report => match self.report_result() {
                Ok(text) => Ok(Some(text)),
                Err(e) => Err(e),
            },
        }
    }

    /// The state after the line `line`: the state after the command that it
    /// spells, the state as it was where it spells none.
    pub open spec fn after_line(self, line: Seq<char>) -> GameState {
        match parse(line) {
            Some(command) => self.executed(command),
            None => self,
        }
    }

    /// What is to be shown in answer to `line`, if anything: the pose for a
    /// report, the refusal in words for a command that was refused or a line
    /// that spells none, nothing for any other command.
    pub open spec fn line_output(self, line: Seq<char>) -> Option<Seq<char>> {
        match parse(line) {
            Some(command) => match self.execute_result(command) {
                Ok(shown) => shown,
                Err(e) => Some(e.message_text()),
            },
            None => Some(unrecognised_text(line)),
        }
    }
}

impl Game {
    /// Carries out `command`. Only a report gives a text back.
    pub fn execute(&mut self, command: Command) -> (result: Result<Option<String>, GameError>)
        ensures
            final(self)@ == old(self)@.executed(command),
            final(self)@.wf(),
            match result {
                Ok(Some(text)) => old(self)@.execute_result(command) == Ok::<
                    Option<Seq<char>>,
                    GameError,
                >(Some(text@)),
                Ok(None) => old(self)@.execute_result(command) == Ok::<
                    Option<Seq<char>>,
                    GameError,
                >(None),
                Err(e) => old(self)@.execute_result(command) == Err::<
                    Option<Seq<char>>,
                    GameError,
                >(e),
            },
    {
        match command {
            Command::Place { x, y, d } => match self.place(x, y, d) {
                Ok(_) => Ok(None),
                Err(e) => Err(e),
            },
            Command::Move => match self.move_forward() {
                Ok(_) => Ok(None),
                Err(e) => Err(e),
            },
            Command::Left => match self.rotate_left() {
                Ok(_) => Ok(None),
                Err(e) => Err(e),
            },
            Command::Right => match self.rotate_right() {
                Ok(_) => Ok(None),
                Err(e) => Err(e),
            },
            Command::Report => match self.report() {
                Ok(text) => Ok(Some(text)),
                Err(e) => Err(e),
            },
        }
    }

    /// Takes one line of input, carries out the command that it spells and
    /// gives back the line to show in answer, if there is one.
    pub fn dispatch(&mut self, line: &str) -> (output: Option<String>)
        ensures
            final(self)@ == old(self)@.after_line(line@),
            final(self)@.wf(),
            match output {
                Some(text) => old(self)@.line_output(line@) == Some(text@),
                None => old(self)@.line_output(line@) is None,
            },
    {
        proof {
            use_type_invariant(&*self);
        }
        match parse_command(line) {
            Ok(command) => match self.execute(command) {
                Ok(shown) => shown,
                Err(e) => Some(e.message()),
            },
            Err(e) => Some(e.message()),
        }
    }
}

} // verus!
