//! The board model: roles, cells, the 3x3 grid, and the win checker.

use vstd::prelude::*;

verus! {

/// One of the two players.
#[derive(Clone, Copy, PartialEq, Eq, Structural, Debug)]
pub enum Role {
    X,
    O,
}

/// The state of one cell: empty, or occupied by a role.
#[derive(Clone, Copy, PartialEq, Eq, Structural, Debug)]
pub enum CellState {
    Empty,
    OccupiedBy(Role),
}

/// One position on the grid.
#[derive(Clone, Copy, PartialEq, Eq, Structural, Debug)]
pub struct Cell {
    pub state: CellState,
}

/// The 3x3 grid, indexed by (row, column), rows A, B, C from the top and
/// columns 1, 2, 3 from the left, both zero-based here.
pub type Board = [[Cell; 3]; 3];

/// One in-progress game: its 1-based number, whose turn is next, and the grid.
#[derive(Clone, Copy)]
pub struct Round {
    pub number: u32,
    pub next_turn: Role,
    pub board: Board,
}

/// The letter a role is drawn as.
pub open spec fn role_char(r: Role) -> char {
    match r {
        Role::X => 'X',
        Role::O => 'O',
    }
}

/// The character a cell is drawn as: its role's letter, or a space.
pub open spec fn cell_char(s: CellState) -> char {
    match s {
        CellState::Empty => ' ',
        CellState::OccupiedBy(r) => role_char(r),
    }
}

impl Role {
    /// The one-character text of the role, X or O.
    pub fn label(&self) -> (s: &'static str)
        ensures
            s@.len() == 1 && s@[0] == role_char(*self),
    {
        match self {
            Role::X => {
                proof {
                    reveal_strlit("X");
                }
                "X"
            },
            Role::O => {
                proof {
                    reveal_strlit("O");
                }
                "O"
            },
        }
    }
}

impl CellState {
    /// The one-character text of the cell: its role's letter, or a space.
    pub fn label(&self) -> (s: &'static str)
        ensures
            s@.len() == 1 && s@[0] == cell_char(*self),
    {
        match self {
            CellState::Empty => {
                proof {
                    reveal_strlit(" ");
                }
                " "
            },
            CellState::OccupiedBy(r) => r.label(),
        }
    }
}

/// The opposite role.
pub open spec fn flip(r: Role) -> Role {
    match r {
        Role::X => Role::O,
        Role::O => Role::X,
    }
}

/// The state of the cell at (row `r`, column `c`).
pub open spec fn cell_at(b: Board, r: int, c: int) -> CellState {
    b[r][c].state
}

/// Every cell of the board is empty.
pub open spec fn board_all_empty(b: Board) -> bool {
    forall|r: int, c: int| 0 <= r < 3 && 0 <= c < 3 ==> cell_at(b, r, c) == CellState::Empty
}

/// The owner of a completed line through the three given cell states:
/// the role that occupies all three of them, if there is one.
pub open spec fn line_winner(a: CellState, b: CellState, c: CellState) -> Option<Role> {
    match a {
        CellState::OccupiedBy(p) => if b == a && c == a {
            Some(p)
        } else {
            None
        },
        CellState::Empty => None,
    }
}

/// The owner of row `r`, if the row is complete.
pub open spec fn row_line(b: Board, r: int) -> Option<Role> {
    line_winner(cell_at(b, r, 0), cell_at(b, r, 1), cell_at(b, r, 2))
}

/// The owner of column `c`, if the column is complete.
pub open spec fn col_line(b: Board, c: int) -> Option<Role> {
    line_winner(cell_at(b, 0, c), cell_at(b, 1, c), cell_at(b, 2, c))
}

/// The owner of the top-left to bottom-right diagonal, if it is complete.
pub open spec fn main_diag_line(b: Board) -> Option<Role> {
    line_winner(cell_at(b, 0, 0), cell_at(b, 1, 1), cell_at(b, 2, 2))
}

/// The owner of the top-right to bottom-left diagonal, if it is complete.
pub open spec fn anti_diag_line(b: Board) -> Option<Role> {
    line_winner(cell_at(b, 0, 2), cell_at(b, 1, 1), cell_at(b, 2, 0))
}

/// The first of two scan results.
pub open spec fn first_some(a: Option<Role>, b: Option<Role>) -> Option<Role> {
    if a is Some {
        a
    } else {
        b
    }
}

/// The winner as the game reports it: the owner of the first completed line
/// in the fixed scan order, rows A, B, C, then columns 1, 2, 3, then the
/// two diagonals.
pub open spec fn winner_of(b: Board) -> Option<Role> {
    first_some(
        row_line(b, 0),
        first_some(
            row_line(b, 1),
            first_some(
                row_line(b, 2),
                first_some(
                    col_line(b, 0),
                    first_some(
                        col_line(b, 1),
                        first_some(
                            col_line(b, 2),
                            first_some(main_diag_line(b), anti_diag_line(b)),
                        ),
                    ),
                ),
            ),
        ),
    )
}

/// The role holds some completed line: a row, a column, or a diagonal.
pub open spec fn wins(b: Board, role: Role) -> bool {
    ||| exists|r: int| 0 <= r < 3 && row_line(b, r) == Some(role)
    ||| exists|c: int| 0 <= c < 3 && col_line(b, c) == Some(role)
    ||| main_diag_line(b) == Some(role)
    ||| anti_diag_line(b) == Some(role)
}

/// A fresh round: the next 1-based round number, the given starting role,
/// and an all-empty board.
pub fn new_round(rows: u32, first: Role) -> (r: Round)
    requires
        rows < u32::MAX,
    ensures
        r.number == rows + 1,
        r.next_turn == first,
        board_all_empty(r.board),
{
    let e = Cell { state: CellState::Empty };
    Round { number: rows + 1, next_turn: first, board: [[e, e, e], [e, e, e], [e, e, e]] }
}

/// Scans the 3 rows, the 3 columns, and the 2 diagonals, in that order, and
/// returns the owner of the first completed line found, if any.
pub fn check_winner(board: Board) -> (winner: Option<Role>)
    ensures
        winner == winner_of(board),
{
    let mut r: usize = 0;
    while r < 3
        invariant
            r <= 3,
            forall|i: int| 0 <= i < r ==> row_line(board, i) is None,
        decreases 3 - r,
    {
        if let CellState::OccupiedBy(p) = board[r][0].state {
            if board[r][0].state == board[r][1].state && board[r][1].state == board[r][2].state {
                return Some(p);
            }
        }
        r += 1;
    }

    let mut c: usize = 0;
    while c < 3
        invariant
            c <= 3,
            forall|i: int| 0 <= i < 3 ==> row_line(board, i) is None,
            forall|i: int| 0 <= i < c ==> col_line(board, i) is None,
        decreases 3 - c,
    {
        if let CellState::OccupiedBy(p) = board[0][c].state {
            if board[0][c].state == board[1][c].state && board[1][c].state == board[2][c].state {
                return Some(p);
            }
        }
        c += 1;
    }

    if let CellState::OccupiedBy(p) = board[0][0].state {
        if board[0][0].state == board[1][1].state && board[1][1].state == board[2][2].state {
            return Some(p);
        }
    }

    if let CellState::OccupiedBy(p) = board[0][2].state {
        if board[0][2].state == board[1][1].state && board[1][1].state == board[2][0].state {
            return Some(p);
        }
    }

    None
}

/// Law: a reported winner always holds a completed line.
pub proof fn lemma_winner_wins(b: Board, role: Role)
    requires
        winner_of(b) == Some(role),
    ensures
        wins(b, role),
{
    if row_line(b, 0) == Some(role) {
        assert(0 <= 0 < 3 && row_line(b, 0) == Some(role));
    } else if row_line(b, 1) == Some(role) {
        assert(0 <= 1 < 3 && row_line(b, 1) == Some(role));
    } else if row_line(b, 2) == Some(role) {
        assert(0 <= 2 < 3 && row_line(b, 2) == Some(role));
    } else if col_line(b, 0) == Some(role) {
        assert(0 <= 0 < 3 && col_line(b, 0) == Some(role));
    } else if col_line(b, 1) == Some(role) {
        assert(0 <= 1 < 3 && col_line(b, 1) == Some(role));
    } else if col_line(b, 2) == Some(role) {
        assert(0 <= 2 < 3 && col_line(b, 2) == Some(role));
    }
}

/// Law: when one role alone holds completed lines, the scan reports that
/// role, whichever of the 8 lines it holds.
pub proof fn lemma_winner_unique_role(b: Board, role: Role)
    requires
        wins(b, role),
        !wins(b, flip(role)),
    ensures
        winner_of(b) == Some(role),
{
    assert forall|i: int| 0 <= i < 3 && row_line(b, i) is Some implies row_line(b, i) == Some(
        role,
    ) by {
        if row_line(b, i) == Some(flip(role)) {
            assert(wins(b, flip(role)));
        }
    }
    assert forall|i: int| 0 <= i < 3 && col_line(b, i) is Some implies col_line(b, i) == Some(
        role,
    ) by {
        if col_line(b, i) == Some(flip(role)) {
            assert(wins(b, flip(role)));
        }
    }
    if main_diag_line(b) is Some && main_diag_line(b) != Some(role) {
        assert(main_diag_line(b) == Some(flip(role)));
        assert(wins(b, flip(role)));
    }
    if anti_diag_line(b) is Some && anti_diag_line(b) != Some(role) {
        assert(anti_diag_line(b) == Some(flip(role)));
        assert(wins(b, flip(role)));
    }
}

/// Law: with no completed line for either role, the scan reports nothing.
pub proof fn lemma_no_line_no_winner(b: Board)
    requires
        forall|role: Role| !wins(b, role),
    ensures
        winner_of(b) == None::<Role>,
{
    assert forall|i: int| 0 <= i < 3 implies row_line(b, i) is None by {
        if let Some(q) = row_line(b, i) {
            assert(wins(b, q));
        }
    }
    assert forall|i: int| 0 <= i < 3 implies col_line(b, i) is None by {
        if let Some(q) = col_line(b, i) {
            assert(wins(b, q));
        }
    }
    if let Some(q) = main_diag_line(b) {
        assert(wins(b, q));
    }
    if let Some(q) = anti_diag_line(b) {
        assert(wins(b, q));
    }
}

/// Law: the empty board has no winner.
pub proof fn lemma_empty_board_no_winner(b: Board)
    requires
        board_all_empty(b),
    ensures
        winner_of(b) == None::<Role>,
{
    assert(cell_at(b, 0, 0) == CellState::Empty);
    assert(cell_at(b, 1, 0) == CellState::Empty);
    assert(cell_at(b, 2, 0) == CellState::Empty);
    assert(cell_at(b, 0, 1) == CellState::Empty);
    assert(cell_at(b, 0, 2) == CellState::Empty);
}

} // verus!
