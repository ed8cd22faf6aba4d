//! Reading a move from a line of text, and the turn-by-turn game.
use vstd::prelude::*;
use vstd::string::StrSliceExecFns;
use crate::field::{
    after_move, is_fresh, is_grid, lemma_view_is_grid, move_status, winner, CellStatus,
    Field, Grid, MoveStatus,
};

verus! {

/// A move line: two decimal digits with one space between them, and an optional newline.
pub const MOVE_PATTERN: &'static str = "^[0-9] [0-9]\n?$";

/// `c` is one of `'0'..='9'`.
pub open spec fn is_ascii_digit(c: char) -> bool {
    '0' <= c <= '9'
}

/// The value of an ASCII digit.
pub open spec fn digit_value(c: char) -> int {
    c as int - '0' as int
}

/// `s` is a digit, a space and a digit, with at most one newline after them.
pub open spec fn is_move_line(s: Seq<char>) -> bool {
    &&& s.len() == 3 || (s.len() == 4 && s[3] == '\n')
    &&& is_ascii_digit(s[0])
    &&& s[1] == ' '
    &&& is_ascii_digit(s[2])
}

/// The coordinates `(x, y)` that a line names, or `None` for a line of another shape.
pub open spec fn parsed_move(s: Seq<char>) -> Option<(int, int)> {
    if is_move_line(s) {
        Some((digit_value(s[0]), digit_value(s[2])))
    } else {
        None
    }
}

/// Relies on regex::Regex::new, which compiles `MOVE_PATTERN` without error, and on
/// Regex::is_match: `[0-9]` is one ASCII digit, `^` and `$` (without the `m` flag) are
/// the start and the end of the whole line.
#[verifier::external_body]
fn matches_pattern(pattern: &str, line: &str) -> (r: bool)
    requires
        pattern@ == MOVE_PATTERN@,
    ensures
        r == is_move_line(line@),
{
    regex::Regex::new(pattern).unwrap().is_match(line)
}

/// The coordinates `(x, y)` that a line of text names, the first digit being `x`.
pub fn parse_move(line: &str) -> (r: Option<(i32, i32)>)
    ensures
        r is Some <==> is_move_line(line@),
        r matches Some((x, y)) ==> x == digit_value(line@[0]) && y == digit_value(line@[2]),
{
    if !matches_pattern(MOVE_PATTERN, line) {
        return None;
    }
    let cx = line.get_char(0);
    let cy = line.get_char(2);
    let x = (cx as u32 - '0' as u32) as i32;
    let y = (cy as u32 - '0' as u32) as i32;
    Some((x, y))
}

/// Where a game stands.
#[derive(Debug, Clone, Copy, PartialEq, Eq, Structural)]
pub enum GameState {
    Playing,
    Won(CellStatus),
    Draw,
}

/// What became of one line of input.
#[derive(Debug, Clone, Copy, PartialEq, Eq, Structural)]
pub enum LineOutcome {
    /// The line does not name a move; nothing changed.
    BadFormat,
    /// The line named a move, and the board answered this.
    Moved(MoveStatus),
}

/// A game as the contracts see it.
pub struct GameView {
    pub board: Grid,
    pub turn: CellStatus,
    pub moves: nat,
    pub state: GameState,
}

/// The mark of the other player.
pub open spec fn other_mark(m: CellStatus) -> CellStatus {
    match m {
        CellStatus::Cross => CellStatus::Zero,
        CellStatus::Zero => CellStatus::Cross,
        CellStatus::Empty => CellStatus::Empty,
    }
}

/// Won when a mark owns a line, else drawn once nine moves were accepted, else still playing.
pub open spec fn state_after(board: Grid, moves: nat) -> GameState {
    let w = winner(board);
    if w != CellStatus::Empty {
        GameState::Won(w)
    } else if moves == 9 {
        GameState::Draw
    } else {
        GameState::Playing
    }
}

impl GameView {
    /// A 3×3 board, a player's mark to move, at most nine moves, and the state they give.
    pub open spec fn wf(self) -> bool {
        &&& is_grid(self.board)
        &&& self.turn == CellStatus::Cross || self.turn == CellStatus::Zero
        &&& self.moves <= 9
        &&& self.state == state_after(self.board, self.moves)
    }

    /// What a line that names `mv` gets.
    pub open spec fn outcome(self, mv: Option<(int, int)>) -> LineOutcome {
        match mv {
            Some((x, y)) => LineOutcome::Moved(move_status(self.board, x, y)),
            None => LineOutcome::BadFormat,
        }
    }

    /// The game after a line that names `mv`: an accepted move passes the turn and is counted.
    pub open spec fn next(self, mv: Option<(int, int)>) -> GameView {
        let accepted = self.outcome(mv) == LineOutcome::Moved(MoveStatus::Success);
        let board = match mv {
            Some((x, y)) => after_move(self.board, x, y, self.turn),
            None => self.board,
        };
        let moves = if accepted {
            self.moves + 1
        } else {
            self.moves
        };
        GameView {
            board,
            turn: if accepted {
                other_mark(self.turn)
            } else {
                self.turn
            },
            moves,
            state: state_after(board, moves),
        }
    }
}

/// Two lines in a row that name no move leave the game as it was.
pub proof fn lemma_bad_lines_change_nothing(g: GameView, first: Seq<char>, second: Seq<char>)
    requires
        g.wf(),
        g.state == GameState::Playing,
        !is_move_line(first),
        !is_move_line(second),
    ensures
        g.next(parsed_move(first)).next(parsed_move(second)) == g,
        g.next(parsed_move(first)).next(parsed_move(second)).board == g.board,
        g.next(parsed_move(first)).next(parsed_move(second)).moves == g.moves,
{
}

/// A game: the board, whose turn it is, how many moves were accepted, and its state.
#[derive(Debug, Clone, Copy)]
pub struct Game {
    field: Field,
    cur_turn: CellStatus,
    counter: u8,
    state: GameState,
}

impl View for Game {
    type V = GameView;

    closed spec fn view(&self) -> GameView {
        GameView {
            board: self.field@,
            turn: self.cur_turn,
            moves: self.counter as nat,
            state: self.state,
        }
    }
}

impl Game {
    /// A fresh board, `Cross` to move, no moves yet.
    pub fn new() -> (r: Self)
        ensures
            r@.wf(),
            is_fresh(r@.board),
            r@.turn == CellStatus::Cross,
            r@.moves == 0,
            r@.state == GameState::Playing,
    {
        let field = Field::new();
        Game { field, cur_turn: CellStatus::Cross, counter: 0, state: GameState::Playing }
    }

    /// Plays one line of input: a move for the player whose turn it is, or nothing when
    /// the line does not name one; then decides whether the game is won or drawn.
    pub fn step(&mut self, line: &str) -> (r: LineOutcome)
        requires
            old(self)@.wf(),
            old(self)@.state == GameState::Playing,
        ensures
            r == old(self)@.outcome(parsed_move(line@)),
            final(self)@ == old(self)@.next(parsed_move(line@)),
            final(self)@.wf(),
    {
        let ghost before = self@;
        let outcome = match parse_move(line) {
            None => LineOutcome::BadFormat,
            Some((x, y)) => {
                let status = self.field.make_move(x, y, self.cur_turn);
                if status == MoveStatus::Success {
                    self.cur_turn = if self.cur_turn == CellStatus::Cross {
                        CellStatus::Zero
                    } else {
                        CellStatus::Cross
                    };
                    self.counter = self.counter + 1;
                }
                LineOutcome::Moved(status)
            },
        };
        let w = self.field.check_win();
        self.state = if w != CellStatus::Empty {
            GameState::Won(w)
        } else if self.counter == 9 {
            GameState::Draw
        } else {
            GameState::Playing
        };
        proof {
            lemma_view_is_grid(self.field);
        }
        outcome
    }

    /// The board.
    pub fn field(&self) -> (r: Field)
        ensures
            r@ == self@.board,
    {
        self.field
    }

    /// The mark of the player to move.
    pub fn current_turn(&self) -> (r: CellStatus)
        ensures
            r == self@.turn,
    {
        self.cur_turn
    }

    /// How many moves were accepted.
    pub fn moves(&self) -> (r: u8)
        ensures
            r == self@.moves,
    {
        self.counter
    }

    /// Where the game stands.
    pub fn state(&self) -> (r: GameState)
        ensures
            r == self@.state,
    {
        self.state
    }
}

} // verus!
