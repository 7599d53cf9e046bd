//! The game: one table, at most one robot, and the rules of the commands.

use vstd::prelude::*;
use crate::direction::Direction;
use crate::error::GameError;
use crate::robot::Robot;
use crate::table::Table;
use crate::text::decimal;

verus! {

/// What a game is at one moment: its table, and the robot's pose once a robot
/// has been placed.
pub struct GameState {
    pub table: Table,
    pub robot: Option<Robot>,
}

impl GameState {
    /// The table has a cell, and a robot that exists stands on a cell.
    pub open spec fn wf(self) -> bool {
        &&& self.table.wf()
        &&& self.robot matches Some(r) ==> self.table.contains(r.x as int, r.y as int)
    }

    /// The state in which the robot has the pose `pose`.
    pub open spec fn with_robot(self, pose: Robot) -> GameState {
        GameState { table: self.table, robot: Some(pose) }
    }

    /// The state after a placement at `(x, y)` facing `d`: the new pose where
    /// `(x, y)` is a cell, the state as it was where it is none.
    pub open spec fn placed(self, x: usize, y: usize, d: Direction) -> GameState {
        if self.table.contains(x as int, y as int) {
            self.with_robot(Robot { x, y, d })
        } else {
            self
        }
    }

    /// What a placement at `(x, y)` returns.
    pub open spec fn place_result(self, x: usize, y: usize) -> Result<(), GameError> {
        if self.table.contains(x as int, y as int) {
            Ok(())
        } else {
            Err(
                GameError::InvalidPosition {
                    x,
                    y,
                    width: self.table.width,
                    height: self.table.height,
                },
            )
        }
    }

    /// The state after `pose` was offered as the robot's new pose: taken over
    /// where it stands on a cell, the state as it was where it does not.
    pub open spec fn offered(self, pose: Robot) -> GameState {
        if self.table.contains(pose.x as int, pose.y as int) {
            self.with_robot(pose)
        } else {
            self
        }
    }

    /// What is returned after `pose` was offered together with the value
    /// `value`.
    pub open spec fn offer_result<U>(self, pose: Robot, value: U) -> Result<U, GameError> {
        if self.table.contains(pose.x as int, pose.y as int) {
            Ok(value)
        } else {
            Err(GameError::OutOfBounds)
        }
    }

    /// Whether there is a robot and the point one step ahead of it is a cell.
    pub open spec fn can_move(self) -> bool {
        self.robot matches Some(r) && self.table.contains(r.ahead().0, r.ahead().1)
    }

    /// The state after a move: the robot one cell ahead where that is a cell,
    /// the state as it was otherwise.
    pub open spec fn moved(self) -> GameState {
        if self.can_move() {
            self.with_robot(self.robot->0.advanced())
        } else {
            self
        }
    }

    /// What a move returns.
    pub open spec fn move_result(self) -> Result<(), GameError> {
        if self.robot is None {
            Err(GameError::NotPlaced)
        } else if self.can_move() {
            Ok(())
        } else {
            Err(GameError::OutOfBounds)
        }
    }

    /// The state after `n` moves in a row.
    pub open spec fn moved_times(self, n: nat) -> GameState
        decreases n,
    {
        if n == 0 {
            self
        } else {
            self.moved().moved_times((n - 1) as nat)
        }
    }

    /// The state after `delta` quarter turns: the robot turned on its cell
    /// where there is one, the state as it was where there is none.
    pub open spec fn rotated(self, delta: int) -> GameState {
        match self.robot {
            Some(r) => self.with_robot(r.turned(delta)),
            None => self,
        }
    }

    /// What a turn returns.
    pub open spec fn rotate_result(self) -> Result<(), GameError> {
        if self.robot is Some {
            Ok(())
        } else {
            Err(GameError::NotPlaced)
        }
    }

    /// What a report returns: the pose as text, or the refusal.
    pub open spec fn report_result(self) -> Result<Seq<char>, GameError> {
        match self.robot {
            Some(r) => Ok(r.report_text()),
            None => Err(GameError::NotPlaced),
        }
    }
}

/// A table and the robot on it, if any. The fields are private: the state
/// changes through the commands only, which keep the robot on the table.
pub struct Game {
    robot: Option<Robot>,
    table: Table,
}

impl View for Game {
    type V = GameState;

    closed spec fn view(&self) -> GameState {
        GameState { table: self.table, robot: self.robot }
    }
}

impl Game {
    #[verifier::type_invariant]
    pub(crate) open spec fn inv(self) -> bool {
        self@.wf()
    }

    /// A game on `table`, with no robot yet.
    pub fn new(table: Table) -> (game: Game)
        requires
            table.wf(),
        ensures
            game@ == (GameState { table, robot: None }),
            game@.wf(),
    {
        Game { robot: None, table }
    }

    /// Puts the robot on `(x, y)` facing `d`, in place of any robot there
    /// was. A point that is no cell is refused and nothing changes.
    pub fn place(&mut self, x: usize, y: usize, d: Direction) -> (result: Result<(), GameError>)
        ensures
            final(self)@ == old(self)@.placed(x, y, d),
            result == old(self)@.place_result(x, y),
            final(self)@.wf(),
    {
        proof {
            use_type_invariant(&*self);
        }
        if self.table.is_valid(x, y) {
            self.robot = Some(Robot { x, y, d });
            Ok(())
        } else {
            Err(
                GameError::InvalidPosition {
                    x,
                    y,
                    width: self.table.width,
                    height: self.table.height,
                },
            )
        }
    }

    /// Hands a copy of the robot's pose to `f` and offers what `f` made of it
    /// as the new pose. With no robot `f` is not called. A pose off the table
    /// is not taken over: the robot stays and the value of `f` is dropped.
    pub fn map_robot<U, F: FnOnce(&mut Robot) -> U>(&mut self, f: F) -> (result: Result<
        U,
        GameError,
    >)
        requires
            forall|m: &mut Robot| old(self)@.robot == Some(*m) ==> call_requires(f, (m,)),
        ensures
            final(self)@.wf(),
            old(self)@.robot is None ==> final(self)@ == old(self)@ && result == Err::<
                U,
                GameError,
            >(GameError::NotPlaced),
            old(self)@.robot is Some ==> exists|m: &mut Robot, value: U|
                {
                    &&& old(self)@.robot == Some(*m)
                    &&& #[trigger] call_ensures(f, (m,), value)
                    &&& final(self)@ == old(self)@.offered(*final(m))
                    &&& result == old(self)@.offer_result(*final(m), value)
                },
    {
        proof {
            use_type_invariant(&*self);
        }
        match self.robot {
            Some(pose) => {
                let mut candidate = pose;
                let value = f(&mut candidate);
                if self.table.is_valid(candidate.x, candidate.y) {
                    self.robot = Some(candidate);
                    Ok(value)
                } else {
                    Err(GameError::OutOfBounds)
                }
            },
            None => Err(GameError::NotPlaced),
        }
    }

    /// Moves the robot one cell ahead. A move that would leave the table is
    /// refused and the robot stays; so is a move with no robot.
    pub fn move_forward(&mut self) -> (result: Result<(), GameError>)
        ensures
            final(self)@ == old(self)@.moved(),
            result == old(self)@.move_result(),
            final(self)@.wf(),
    {
        proof {
            use_type_invariant(&*self);
        }
        let stepped = self.map_robot(
            |r: &mut Robot| -> (stepped: bool)
                ensures
                    stepped == old(r).can_advance(),
                    *final(r) == if stepped {
                        old(r).advanced()
                    } else {
                        *old(r)
                    }
                {
                    if r.steppable() {
                        r.move_forward();
                        true
                    } else {
                        false
                    }
                },
        );
        match stepped {
            Ok(true) => Ok(()),
            Ok(false) => Err(GameError::OutOfBounds),
            Err(e) => Err(e),
        }
    }

    /// Turns the robot a quarter turn clockwise.
    pub fn rotate_right(&mut self) -> (result: Result<(), GameError>)
        ensures
            final(self)@ == old(self)@.rotated(1),
            result == old(self)@.rotate_result(),
            final(self)@.wf(),
    {
        self.rotate(1)
    }

    /// Turns the robot a quarter turn counter-clockwise.
    pub fn rotate_left(&mut self) -> (result: Result<(), GameError>)
        ensures
            final(self)@ == old(self)@.rotated(-1),
            result == old(self)@.rotate_result(),
            final(self)@.wf(),
    {
        self.rotate(-1)
    }

    /// Turns the robot by `delta` quarter turns on its cell. Refused with no
    /// robot.
    pub fn rotate(&mut self, delta: i32) -> (result: Result<(), GameError>)
        ensures
            final(self)@ == old(self)@.rotated(delta as int),
            result == old(self)@.rotate_result(),
            final(self)@.wf(),
    {
        proof {
            use_type_invariant(&*self);
        }
        self.map_robot(
            |r: &mut Robot|
                ensures
                    *final(r) == old(r).turned(delta as int)
                { r.rotate(delta) },
        )
    }

    /// The robot's pose as a line of text. Refused with no robot. The state
    /// is the same afterwards.
    pub fn report(&mut self) -> (result: Result<String, GameError>)
        ensures
            final(self)@ == old(self)@,
            final(self)@.wf(),
            match result {
                Ok(text) => old(self)@.report_result() == Ok::<Seq<char>, GameError>(text@),
                Err(e) => old(self)@.report_result() == Err::<Seq<char>, GameError>(e),
            },
    {
        proof {
            use_type_invariant(&*self);
        }
        self.map_robot(
            |r: &mut Robot| -> (text: String)
                ensures
                    *final(r) == *old(r),
                    text@ == old(r).report_text()
                { r.report() },
        )
    }
}

impl GameState {
    /// Every command leaves a well-formed state well-formed: the table is
    /// never changed, and a robot never leaves it.
    pub proof fn lemma_commands_keep_wf(self, x: usize, y: usize, d: Direction, delta: int)
        requires
            self.wf(),
        ensures
            self.placed(x, y, d).wf(),
            self.moved().wf(),
            self.rotated(delta).wf(),
            self.placed(x, y, d).table == self.table,
            self.moved().table == self.table,
            self.rotated(delta).table == self.table,
    {
    }

    /// Before any placement a move, a turn to either side and a report are
    /// each refused for want of a robot, and there is still no robot
    /// afterwards.
    pub proof fn lemma_unplaced_refuses(self, delta: int)
        requires
            self.robot is None,
        ensures
            self.move_result() == Err::<(), GameError>(GameError::NotPlaced),
            self.rotate_result() == Err::<(), GameError>(GameError::NotPlaced),
            self.report_result() == Err::<Seq<char>, GameError>(GameError::NotPlaced),
            self.moved() == self,
            self.rotated(delta) == self,
            self.rotated(-1) == self,
            self.rotated(1) == self,
    {
    }

    /// A placement that succeeds is what the next report shows: the two
    /// coordinates and the heading's name.
    pub proof fn lemma_place_then_report(self, x: usize, y: usize, d: Direction)
        requires
            self.place_result(x, y) is Ok,
        ensures
            self.placed(x, y, d).report_result() == Ok::<Seq<char>, GameError>(
                decimal(x as nat) + ", "@ + decimal(y as nat) + ", "@ + d.name_text(),
            ),
    {
    }

    /// A move that would leave the table is refused as out of bounds and
    /// changes nothing: a report after it shows the same pose as a report
    /// before it.
    pub proof fn lemma_refused_move_keeps_pose(self)
        requires
            self.robot is Some,
            !self.can_move(),
        ensures
            self.move_result() == Err::<(), GameError>(GameError::OutOfBounds),
            self.moved() == self,
            self.moved().report_result() == self.report_result(),
            self.moved().report_result() == Ok::<Seq<char>, GameError>(
                self.robot->0.report_text(),
            ),
    {
    }

    /// A robot that faces the edge of the table stays where it is however
    /// often it is told to move: after any number of moves the state is the
    /// same, the next move is refused again, and a report shows the same
    /// pose.
    pub proof fn lemma_refused_move_repeats(self, n: nat)
        requires
            self.robot is Some,
            !self.can_move(),
        ensures
            self.moved_times(n) == self,
            self.moved_times(n).move_result() == Err::<(), GameError>(GameError::OutOfBounds),
            self.moved_times(n).report_result() == self.report_result(),
        decreases n,
    {
        if n > 0 {
            self.lemma_refused_move_repeats((n - 1) as nat);
        }
    }
}

} // verus!
