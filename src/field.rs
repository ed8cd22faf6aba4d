//! The 3×3 board, its moves and its winning lines.
use vstd::prelude::*;
use vstd::string::StringExecFns;

verus! {

/// What a cell holds: one of the two marks, or nothing yet.
#[derive(Debug, Clone, Copy, PartialEq, Eq, Structural)]
pub enum CellStatus {
    Cross,
    Zero,
    Empty,
}

/// The answer of `Field::make_move`.
#[derive(Debug, Clone, Copy, PartialEq, Eq, Structural)]
pub enum MoveStatus {
    Success,
    LimitError,
    CellValError,
}

/// The board: `data[y][x]` is the cell in column `x` of row `y`.
#[derive(Debug, Clone, Copy)]
pub struct Field {
    data: [[CellStatus; 3]; 3],
}

/// A board's cells as rows of columns: `g[y][x]` is column `x` of row `y`.
pub type Grid = Seq<Seq<CellStatus>>;

/// Three rows of three cells each.
pub open spec fn is_grid(g: Grid) -> bool {
    &&& g.len() == 3
    &&& forall|y: int| 0 <= y < 3 ==> #[trigger] g[y].len() == 3
}

/// Both coordinates lie in `0..=2`.
pub open spec fn in_bounds(x: int, y: int) -> bool {
    0 <= x <= 2 && 0 <= y <= 2
}

/// The cell in column `x` of row `y`.
pub open spec fn cell(g: Grid, x: int, y: int) -> CellStatus {
    g[y][x]
}

/// Every cell is `Empty`.
pub open spec fn is_fresh(g: Grid) -> bool {
    forall|x: int, y: int| in_bounds(x, y) ==> #[trigger] cell(g, x, y) == CellStatus::Empty
}

/// The answer that a move at `(x, y)` gets.
pub open spec fn move_status(g: Grid, x: int, y: int) -> MoveStatus {
    if !in_bounds(x, y) {
        MoveStatus::LimitError
    } else if cell(g, x, y) != CellStatus::Empty {
        MoveStatus::CellValError
    } else {
        MoveStatus::Success
    }
}

/// The grid once `v` stands at `(x, y)`.
pub open spec fn placed(g: Grid, x: int, y: int, v: CellStatus) -> Grid {
    g.update(y, g[y].update(x, v))
}

/// The grid after a move at `(x, y)` with mark `v`: changed only when it is accepted.
pub open spec fn after_move(g: Grid, x: int, y: int, v: CellStatus) -> Grid {
    if move_status(g, x, y) == MoveStatus::Success {
        placed(g, x, y, v)
    } else {
        g
    }
}

/// The mark that owns a line of three cells, or `Empty` when none does.
pub open spec fn line_mark(a: CellStatus, b: CellStatus, c: CellStatus) -> CellStatus {
    if a == b && b == c && a != CellStatus::Empty {
        a
    } else {
        CellStatus::Empty
    }
}

/// The mark that owns column `x`, or `Empty`.
pub open spec fn column_mark(g: Grid, x: int) -> CellStatus {
    line_mark(cell(g, x, 0), cell(g, x, 1), cell(g, x, 2))
}

/// The mark that owns row `y`, or `Empty`.
pub open spec fn row_mark(g: Grid, y: int) -> CellStatus {
    line_mark(cell(g, 0, y), cell(g, 1, y), cell(g, 2, y))
}

/// The first column, left to right, that a mark owns.
pub open spec fn columns_winner(g: Grid) -> CellStatus {
    if column_mark(g, 0) != CellStatus::Empty {
        column_mark(g, 0)
    } else if column_mark(g, 1) != CellStatus::Empty {
        column_mark(g, 1)
    } else {
        column_mark(g, 2)
    }
}

/// The first row, top to bottom, that a mark owns.
pub open spec fn rows_winner(g: Grid) -> CellStatus {
    if row_mark(g, 0) != CellStatus::Empty {
        row_mark(g, 0)
    } else if row_mark(g, 1) != CellStatus::Empty {
        row_mark(g, 1)
    } else {
        row_mark(g, 2)
    }
}

/// The main diagonal `(0,0),(1,1),(2,2)` if a mark owns it, else the other one.
pub open spec fn diagonals_winner(g: Grid) -> CellStatus {
    let main = line_mark(cell(g, 0, 0), cell(g, 1, 1), cell(g, 2, 2));
    if main != CellStatus::Empty {
        main
    } else {
        line_mark(cell(g, 2, 0), cell(g, 1, 1), cell(g, 0, 2))
    }
}

/// The winner: columns first, then rows, then diagonals; `Empty` when no line is owned.
pub open spec fn winner(g: Grid) -> CellStatus {
    if columns_winner(g) != CellStatus::Empty {
        columns_winner(g)
    } else if rows_winner(g) != CellStatus::Empty {
        rows_winner(g)
    } else {
        diagonals_winner(g)
    }
}

/// How a cell is drawn.
pub open spec fn cell_char(c: CellStatus) -> char {
    match c {
        CellStatus::Cross => 'X',
        CellStatus::Zero => '0',
        CellStatus::Empty => ' ',
    }
}

/// The label of row `y`.
pub open spec fn row_label(y: int) -> char {
    if y == 0 {
        '0'
    } else if y == 1 {
        '1'
    } else {
        '2'
    }
}

/// Row `y` drawn as one line: its label, then each cell, all separated by `|`.
pub open spec fn row_text(g: Grid, y: int) -> Seq<char> {
    seq![
        row_label(y),
        '|',
        cell_char(cell(g, 0, y)),
        '|',
        cell_char(cell(g, 1, y)),
        '|',
        cell_char(cell(g, 2, y)),
        '|',
        '\n',
    ]
}

/// The first `n` rows drawn, top to bottom.
pub open spec fn rows_text(g: Grid, n: nat) -> Seq<char>
    decreases n,
{
    if n == 0 {
        Seq::empty()
    } else {
        rows_text(g, (n - 1) as nat) + row_text(g, n - 1)
    }
}

/// The line of column labels.
pub open spec fn header_text() -> Seq<char> {
    seq![' ', '|', '0', '|', '1', '|', '2', '|', '\n']
}

/// The board drawn as a grid with row and column labels.
pub open spec fn board_text(g: Grid) -> Seq<char> {
    header_text() + rows_text(g, 3)
}

impl View for Field {
    type V = Grid;

    closed spec fn view(&self) -> Grid {
        Seq::new(3, |y: int| self.data[y]@)
    }
}

/// Every board is three rows of three cells.
pub proof fn lemma_view_is_grid(f: Field)
    ensures
        is_grid(f@),
{
}

/// On a fresh board every move inside the board is accepted, and its cell then holds the mark.
pub proof fn lemma_fresh_board_accepts(g: Grid, x: int, y: int, mark: CellStatus)
    requires
        is_grid(g),
        is_fresh(g),
        in_bounds(x, y),
    ensures
        move_status(g, x, y) == MoveStatus::Success,
        cell(after_move(g, x, y, mark), x, y) == mark,
{
}

/// A move outside the board is refused with `LimitError`, and no cell changes.
pub proof fn lemma_outside_move_refused(g: Grid, x: int, y: int, mark: CellStatus)
    requires
        is_grid(g),
        !in_bounds(x, y),
    ensures
        move_status(g, x, y) == MoveStatus::LimitError,
        after_move(g, x, y, mark) == g,
{
}

/// Two moves on one empty cell: the first is accepted, the second is refused with
/// `CellValError`, and the cell keeps the first mark.
pub proof fn lemma_second_move_refused(g: Grid, x: int, y: int, first: CellStatus, second: CellStatus)
    requires
        is_grid(g),
        in_bounds(x, y),
        cell(g, x, y) == CellStatus::Empty,
        first != CellStatus::Empty,
    ensures
        move_status(g, x, y) == MoveStatus::Success,
        move_status(after_move(g, x, y, first), x, y) == MoveStatus::CellValError,
        after_move(after_move(g, x, y, first), x, y, second) == after_move(g, x, y, first),
        cell(after_move(g, x, y, first), x, y) == first,
{
}

/// The one-character text of a cell.
fn cell_str(c: CellStatus) -> (r: &'static str)
    ensures
        r@ == seq![cell_char(c)],
{
    match c {
        CellStatus::Cross => {
            proof {
                reveal_strlit("X");
            }
            "X"
        },
        CellStatus::Zero => {
            proof {
                reveal_strlit("0");
            }
            "0"
        },
        CellStatus::Empty => {
            proof {
                reveal_strlit(" ");
            }
            " "
        },
    }
}

impl Field {
    /// A board with all nine cells `Empty`.
    pub fn new() -> (r: Self)
        ensures
            is_grid(r@),
            is_fresh(r@),
    {
        Field { data: [[CellStatus::Empty; 3]; 3] }
    }

    /// The first row, top to bottom, whose three cells hold one mark.
    fn win_rows(self) -> (r: CellStatus)
        ensures
            r == rows_winner(self@),
    {
        let data = self.data;
        let mut i: usize = 0;
        while i < 3
            invariant
                0 <= i <= 3,
                data == self.data,
                forall|y: int| 0 <= y < i ==> #[trigger] row_mark(self@, y) == CellStatus::Empty,
            decreases 3 - i,
        {
            let row = data[i];
            let cval = row[0];
            let mut isgood = true;
            let mut a: usize = 0;
            while a < 3
                invariant
                    0 <= a <= 3,
                    row == self.data[i as int],
                    cval == row[0],
                    isgood == (forall|x: int| 0 <= x < a ==> #[trigger] row[x] == cval),
                decreases 3 - a,
            {
                if row[a] != cval {
                    isgood = false;
                }
                a += 1;
            }
            if isgood && cval != CellStatus::Empty {
                assert(row[1] == cval && row[2] == cval);
                return cval;
            }
            assert(!isgood ==> row[1] != cval || row[2] != cval);
            i += 1;
        }
        CellStatus::Empty
    }

    /// The first column, left to right, whose three cells hold one mark.
    fn win_cols(self) -> (r: CellStatus)
        ensures
            r == columns_winner(self@),
    {
        let data = self.data;
        let mut i: usize = 0;
        while i < 3
            invariant
                0 <= i <= 3,
                data == self.data,
                forall|x: int| 0 <= x < i ==> #[trigger] column_mark(self@, x) == CellStatus::Empty,
            decreases 3 - i,
        {
            let cur_val = data[0][i];
            let mut is_good = true;
            let mut a: usize = 0;
            while a < 3
                invariant
                    0 <= a <= 3,
                    0 <= i < 3,
                    data == self.data,
                    cur_val == data[0][i as int],
                    is_good == (forall|y: int| 0 <= y < a ==> #[trigger] data[y][i as int] == cur_val),
                decreases 3 - a,
            {
                if data[a][i] != cur_val {
                    is_good = false;
                }
                a += 1;
            }
            if is_good && cur_val != CellStatus::Empty {
                assert(data[1][i as int] == cur_val && data[2][i as int] == cur_val);
                return cur_val;
            }
            assert(!is_good ==> data[1][i as int] != cur_val || data[2][i as int] != cur_val);
            i += 1;
        }
        CellStatus::Empty
    }

    /// The mark that owns a diagonal, the main one first, or `Empty`.
    fn win_diagonal(self) -> (r: CellStatus)
        ensures
            r == diagonals_winner(self@),
    {
        let data = self.data;
        if data[0][0] == data[1][1] && data[1][1] == data[2][2] && data[0][0] != CellStatus::Empty {
            return data[0][0];
        }
        if data[0][2] == data[1][1] && data[1][1] == data[2][0] && data[0][2] != CellStatus::Empty {
            return data[0][2];
        }
        CellStatus::Empty
    }

    /// The winning mark, or `Empty` when no column, row or diagonal is owned by one.
    pub fn check_win(&mut self) -> (r: CellStatus)
        ensures
            *final(self) == *old(self),
            r == winner(old(self)@),
    {
        let r1 = self.clone().win_cols();
        let r2 = self.clone().win_rows();
        let r3 = self.clone().win_diagonal();
        if r1 != CellStatus::Empty {
            r1
        } else if r2 != CellStatus::Empty {
            r2
        } else {
            r3
        }
    }

    /// Puts `val` at `(x, y)` if both lie in `0..=2` and the cell is `Empty`.
    pub fn make_move(&mut self, x: i32, y: i32, val: CellStatus) -> (r: MoveStatus)
        ensures
            r == move_status(old(self)@, x as int, y as int),
            final(self)@ == after_move(old(self)@, x as int, y as int, val),
    {
        if x > 2 || x < 0 || y > 2 || y < 0 {
            MoveStatus::LimitError
        } else if self.data[y as usize][x as usize] != CellStatus::Empty {
            MoveStatus::CellValError
        } else {
            let ghost before = *self;
            self.data[y as usize][x as usize] = val;
            assert(self@ =~~= placed(before@, x as int, y as int, val));
            MoveStatus::Success
        }
    }

    /// The board drawn as text, one line per row under a line of column labels.
    pub fn render(&self) -> (r: String)
        ensures
            r@ == board_text(self@),
    {
        proof {
            reveal_strlit(" |0|1|2|\n");
        }
        let mut out = String::from_str(" |0|1|2|\n");
        let mut y: usize = 0;
        while y < 3
            invariant
                0 <= y <= 3,
                out@ == header_text() + rows_text(self@, y as nat),
            decreases 3 - y,
        {
            let label = if y == 0 {
                "0"
            } else if y == 1 {
                "1"
            } else {
                "2"
            };
            proof {
                reveal_strlit("0");
                reveal_strlit("1");
                reveal_strlit("2");
                reveal_strlit("|");
                reveal_strlit("\n");
            }
            let ghost start = out@;
            out.append(label);
            out.append("|");
            assert(out@ =~= start + row_text(self@, y as int).take(2));
            let mut x: usize = 0;
            while x < 3
                invariant
                    0 <= x <= 3,
                    0 <= y < 3,
                    out@ == start + row_text(self@, y as int).take(2 + 2 * x),
                decreases 3 - x,
            {
                proof {
                    reveal_strlit("|");
                }
                out.append(cell_str(self.data[y][x]));
                out.append("|");
                assert(cell(self@, x as int, y as int) == self.data[y as int][x as int]);
                assert(row_text(self@, y as int).take(2 + 2 * (x + 1)) =~= row_text(self@, y as int).take(2 + 2 * x) + seq![cell_char(self.data[y as int][x as int]), '|']);
                assert(out@ =~= start + row_text(self@, y as int).take(2 + 2 * (x + 1)));
                x += 1;
            }
            out.append("\n");
            assert(row_text(self@, y as int) =~= row_text(self@, y as int).take(8) + seq!['\n']);
            assert(rows_text(self@, (y + 1) as nat) == rows_text(self@, y as nat) + row_text(self@, y as int));
            assert(out@ =~= header_text() + rows_text(self@, (y + 1) as nat));
            y += 1;
        }
        out
    }

    /// The cell in column `x` of row `y`.
    pub fn get_item(self, x: i32, y: i32) -> (r: CellStatus)
        requires
            in_bounds(x as int, y as int),
        ensures
            r == cell(self@, x as int, y as int),
    {
        self.data[y as usize][x as usize]
    }
}

} // verus!
