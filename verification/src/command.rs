//! Commands, and the lines of text that spell them.

use vstd::prelude::*;
use vstd::utf8::is_ascii_chars;
use crate::direction::Direction;
use crate::error::UnrecognisedCommand;
use crate::scan::{
    digit_run, lemma_digit_run_is, lemma_digits_in_run, matches_at, rest_is, scan_numeral,
};
use crate::text::{is_digit, is_numeral, numeral_value};

verus! {

/// One command to the game.
#[derive(Clone, Copy, Debug, PartialEq, Eq, Structural)]
pub enum Command {
    /// Put the robot on `(x, y)` facing `d`.
    Place { x: usize, y: usize, d: Direction },
    /// One cell ahead.
    Move,
    /// A quarter turn counter-clockwise.
    Left,
    /// A quarter turn clockwise.
    Right,
    /// Show the pose.
    Report,
}

/// The line `PLACE X,Y,F` with `xs` for `X`, `ys` for `Y` and the name of `d`
/// for `F`.
pub open spec fn place_text(xs: Seq<char>, ys: Seq<char>, d: Direction) -> Seq<char> {
    "PLACE "@ + xs + ","@ + ys + ","@ + d.token_text()
}

impl Command {
    /// Whether `line` spells this command. The four commands without
    /// arguments are spelled by their word alone. A placement is spelled
    /// `PLACE X,Y,F`: one space after the word, no other blank, `X` and `Y`
    /// numerals of the two coordinates, `F` the heading in capitals.
    pub open spec fn written_as(self, line: Seq<char>) -> bool {
        match self {
            Command::Move => line == "MOVE"@,
            Command::Left => line == "LEFT"@,
            Command::Right => line == "RIGHT"@,
            Command::Report => line == "REPORT"@,
            Command::Place { x, y, d } => exists|xs: Seq<char>, ys: Seq<char>|
                {
                    &&& is_numeral(xs)
                    &&& is_numeral(ys)
                    &&& numeral_value(xs) == x
                    &&& numeral_value(ys) == y
                    &&& line == #[trigger] place_text(xs, ys, d)
                },
        }
    }
}

/// The command that `line` spells, if it spells one.
pub open spec fn parse(line: Seq<char>) -> Option<Command> {
    if exists|c: Command| c.written_as(line) {
        Some(choose|c: Command| c.written_as(line))
    } else {
        None
    }
}

/// The heading that `s` names in capitals.
spec fn read_token(s: Seq<char>) -> Option<Direction> {
    if s == "NORTH"@ {
        Some(Direction::North)
    } else if s == "EAST"@ {
        Some(Direction::East)
    } else if s == "SOUTH"@ {
        Some(Direction::South)
    } else if s == "WEST"@ {
        Some(Direction::West)
    } else {
        None
    }
}

/// A placement read from left to right: the word and its blank, which take
/// the first six places, the digits up to the first comma, the digits up to
/// the second, and a heading in what is left.
spec fn read_place(line: Seq<char>) -> Option<Command> {
    let p = digit_run(line, 6);
    let q = digit_run(line, p + 1);
    let x = numeral_value(line.subrange(6, p));
    let y = numeral_value(line.subrange(p + 1, q));
    if 6 <= line.len() && line.subrange(0, 6) == "PLACE "@ && 6 < p < line.len() && line[p] == ','
        && p + 1 < q < line.len() && line[q] == ',' && x <= usize::MAX && y <= usize::MAX {
        match read_token(line.subrange(q + 1, line.len() as int)) {
            Some(d) => Some(Command::Place { x: x as usize, y: y as usize, d }),
            None => None,
        }
    } else {
        None
    }
}

/// A line read from left to right.
spec fn read(line: Seq<char>) -> Option<Command> {
    if line == "MOVE"@ {
        Some(Command::Move)
    } else if line == "LEFT"@ {
        Some(Command::Left)
    } else if line == "RIGHT"@ {
        Some(Command::Right)
    } else if line == "REPORT"@ {
        Some(Command::Report)
    } else {
        read_place(line)
    }
}

/// What the words of the commands hold.
proof fn lemma_words()
    ensures
        "MOVE"@ =~= seq!['M', 'O', 'V', 'E'],
        "LEFT"@ =~= seq!['L', 'E', 'F', 'T'],
        "RIGHT"@ =~= seq!['R', 'I', 'G', 'H', 'T'],
        "REPORT"@ =~= seq!['R', 'E', 'P', 'O', 'R', 'T'],
        "PLACE "@ =~= seq!['P', 'L', 'A', 'C', 'E', ' '],
        ","@ =~= seq![','],
        "NORTH"@ =~= seq!['N', 'O', 'R', 'T', 'H'],
        "EAST"@ =~= seq!['E', 'A', 'S', 'T'],
        "SOUTH"@ =~= seq!['S', 'O', 'U', 'T', 'H'],
        "WEST"@ =~= seq!['W', 'E', 'S', 'T'],
{
    reveal_strlit("MOVE");
    reveal_strlit("LEFT");
    reveal_strlit("RIGHT");
    reveal_strlit("REPORT");
    reveal_strlit("PLACE ");
    reveal_strlit(",");
    reveal_strlit("NORTH");
    reveal_strlit("EAST");
    reveal_strlit("SOUTH");
    reveal_strlit("WEST");
}

/// Where the parts of a placement line stand.
proof fn lemma_place_parts(xs: Seq<char>, ys: Seq<char>, d: Direction)
    requires
        is_numeral(xs),
        is_numeral(ys),
    ensures
        ({
            let line = place_text(xs, ys, d);
            let p: int = 6 + xs.len() as int;
            let q: int = p + 1 + ys.len();
            &&& line.len() == q + 1 + d.token_text().len()
            &&& line.subrange(0, 6) == "PLACE "@
            &&& line.subrange(6, p) == xs
            &&& line[p] == ','
            &&& line.subrange(p + 1, q) == ys
            &&& line[q] == ','
            &&& line.subrange(q + 1, line.len() as int) == d.token_text()
            &&& digit_run(line, 6) == p
            &&& digit_run(line, p + 1) == q
            &&& is_ascii_chars(line)
        }),
{
    lemma_words();
    let line = place_text(xs, ys, d);
    let p: int = 6 + xs.len() as int;
    let q: int = p + 1 + ys.len();
    let t = d.token_text();
    assert forall|k: int| 0 <= k < line.len() implies #[trigger] line[k] == (if k < 6 {
        "PLACE "@[k]
    } else if k < p {
        xs[k - 6]
    } else if k == p {
        ','
    } else if k < q {
        ys[k - p - 1]
    } else if k == q {
        ','
    } else {
        t[k - q - 1]
    }) by {}
    assert forall|k: int| 6 <= k < p implies is_digit(#[trigger] line[k]) by {}
    assert forall|k: int| p + 1 <= k < q implies is_digit(#[trigger] line[k]) by {}
    lemma_digit_run_is(line, 6, p);
    lemma_digit_run_is(line, p + 1, q);
    assert forall|k: int| 0 <= k < line.len() implies '\0' <= #[trigger] line[k] <= '\u{7f}' by {}
}

/// A line that spells a command reads as that command, and holds ASCII only.
proof fn lemma_read_complete(c: Command, line: Seq<char>)
    requires
        c.written_as(line),
    ensures
        read(line) == Some(c),
        is_ascii_chars(line),
{
    lemma_words();
    match c {
        Command::Place { x, y, d } => {
            let (xs, ys) = choose|xs: Seq<char>, ys: Seq<char>|
                {
                    &&& is_numeral(xs)
                    &&& is_numeral(ys)
                    &&& numeral_value(xs) == x
                    &&& numeral_value(ys) == y
                    &&& line == #[trigger] place_text(xs, ys, d)
                };
            lemma_place_parts(xs, ys, d);
        },
        _ => {},
    }
}

/// A line that reads as a command spells it.
proof fn lemma_read_sound(line: Seq<char>)
    ensures
        read(line) matches Some(c) ==> c.written_as(line),
{
    lemma_words();
    if let Some(Command::Place { x, y, d }) = read(line) {
        let p = digit_run(line, 6);
        let q = digit_run(line, p + 1);
        let xs = line.subrange(6, p);
        let ys = line.subrange(p + 1, q);
        lemma_digits_in_run(line, 6);
        lemma_digits_in_run(line, p + 1);
        assert(line =~= place_text(xs, ys, d));
    }
}

/// A line spells one command at most.
pub proof fn lemma_written_once(a: Command, b: Command, line: Seq<char>)
    requires
        a.written_as(line),
        b.written_as(line),
    ensures
        a == b,
{
    lemma_read_complete(a, line);
    lemma_read_complete(b, line);
}

/// Reads the command that `line` spells. A line that spells none is handed
/// back in the refusal.
pub fn parse_command(line: &str) -> (result: Result<Command, UnrecognisedCommand>)
    ensures
        match result {
            Ok(c) => parse(line@) == Some(c) && c.written_as(line@),
            Err(e) => parse(line@) is None && e.token@ == line@ && forall|c: Command|
                !c.written_as(line@),
        },
{
    let command = read_line(line);
    proof {
        lemma_read_sound(line@);
        assert forall|c: Command| c.written_as(line@) implies read(line@) == Some(c) by {
            lemma_read_complete(c, line@);
        }
        if let Some(c) = command {
            lemma_written_once(c, choose|c: Command| c.written_as(line@), line@);
        }
    }
    match command {
        Some(c) => Ok(c),
        None => Err(UnrecognisedCommand { token: line.to_owned() }),
    }
}

/// The heading named by what stands in `line` from index `from` on.
fn read_heading(line: &str, from: usize) -> (heading: Option<Direction>)
    requires
        line.is_ascii(),
        from <= line@.len(),
    ensures
        heading == read_token(line@.subrange(from as int, line@.len() as int)),
{
    proof {
        lemma_words();
    }
    if rest_is(line, from, "NORTH") {
        Some(Direction::North)
    } else if rest_is(line, from, "EAST") {
        Some(Direction::East)
    } else if rest_is(line, from, "SOUTH") {
        Some(Direction::South)
    } else if rest_is(line, from, "WEST") {
        Some(Direction::West)
    } else {
        None
    }
}

/// Reads a line from left to right.
fn read_line(line: &str) -> (command: Option<Command>)
    ensures
        command == read(line@),
{
    if !line.is_ascii() {
        proof {
            if let Some(c) = read(line@) {
                lemma_read_sound(line@);
                lemma_read_complete(c, line@);
            }
        }
        return None;
    }
    proof {
        lemma_words();
        assert(line@.subrange(0, line@.len() as int) =~= line@);
    }
    if rest_is(line, 0, "MOVE") {
        return Some(Command::Move);
    }
    if rest_is(line, 0, "LEFT") {
        return Some(Command::Left);
    }
    if rest_is(line, 0, "RIGHT") {
        return Some(Command::Right);
    }
    if rest_is(line, 0, "REPORT") {
        return Some(Command::Report);
    }
    if !matches_at(line, 0, "PLACE ") {
        return None;
    }
    let text: &[u8] = line.as_bytes();
    proof {
        vstd::string::is_ascii_spec_bytes(line);
    }
    let n: usize = text.len();
    let (p, x) = scan_numeral(line, 6);
    if p == 6 || p >= n || text[p] != (',' as u8) {
        return None;
    }
    let (q, y) = scan_numeral(line, p + 1);
    if q == p + 1 || q >= n || text[q] != (',' as u8) {
        return None;
    }
    match (x, y, read_heading(line, q + 1)) {
        (Some(x), Some(y), Some(d)) => Some(Command::Place { x, y, d }),
        _ => None,
    }
}

} // verus!
