//! The turn engine and the game-loop decisions: validating a move's
//! coordinates, applying it, reading the column numeral, and picking the
//! starting role.

use vstd::prelude::*;

use rand::Rng;

use crate::board::Board;
use crate::board::Cell;
use crate::board::CellState;
use crate::board::Role;
use crate::board::Round;
use crate::board::cell_at;
use crate::board::check_winner;
use crate::board::flip;
use crate::board::winner_of;

verus! {

/// Why a move was rejected.
#[derive(Clone, Copy, PartialEq, Eq, Structural, Debug)]
pub enum InputError {
    ColumnNotValid,
    RowNotValid,
}

impl InputError {
    /// A line of text explaining the error to the player.
    pub fn message(&self) -> &'static str {
        match self {
            InputError::ColumnNotValid => "X is not valid, it should be a number between 1 and 3",
            InputError::RowNotValid => "Y must be A, B, or C",
        }
    }
}

/// The zero-based row a row name denotes: A, B and C stand for rows 0, 1
/// and 2, and nothing else names a row.
pub open spec fn row_index_of(s: Seq<char>) -> Option<int> {
    if s.len() == 1 && s[0] == 'A' {
        Some(0 as int)
    } else if s.len() == 1 && s[0] == 'B' {
        Some(1 as int)
    } else if s.len() == 1 && s[0] == 'C' {
        Some(2 as int)
    } else {
        None
    }
}

/// The outcome a move's coordinates owe: `ColumnNotValid` when the column is
/// 0 or above 3, then `RowNotValid` when the row is not one of A, B, C.
pub open spec fn move_error(x: u32, y: Seq<char>) -> Result<(), InputError> {
    if x == 0 || x > 3 {
        Err(InputError::ColumnNotValid)
    } else if row_index_of(y) is None {
        Err(InputError::RowNotValid)
    } else {
        Ok(())
    }
}

/// How the round after an accepted move relates to the round before it:
/// `player` stands at (row `r`, column `c`), every other cell is unchanged,
/// the turn has flipped, and the round number is kept.
pub open spec fn move_applied(before: Round, after: Round, r: int, c: int, player: Role) -> bool {
    &&& cell_at(after.board, r, c) == CellState::OccupiedBy(player)
    &&& (forall|r2: int, c2: int|
        0 <= r2 < 3 && 0 <= c2 < 3 && !(r2 == r && c2 == c) ==> cell_at(after.board, r2, c2)
            == cell_at(before.board, r2, c2))
    &&& after.next_turn == flip(player)
    &&& after.number == before.number
}

/// Applies one move: writes `player` into the cell at (row `y`, column `x`)
/// and flips whose turn it is. A rejected move leaves the round untouched.
/// An already-occupied cell is overwritten without complaint.
pub fn update_round(x: u32, y: &str, player: Role, round: &mut Round) -> (res: Result<
    (),
    InputError,
>)
    ensures
        res == move_error(x, y@),
        res is Err ==> *final(round) == *old(round),
        res is Ok ==> move_applied(
            *old(round),
            *final(round),
            row_index_of(y@)->0,
            x - 1,
            player,
        ),
{
    if x > 3 {
        return Err(InputError::ColumnNotValid);
    }
    if x == 0 {
        return Err(InputError::ColumnNotValid);
    }
    let ci = (x - 1) as usize;

    let ri: usize;
    if y.unicode_len() == 1 {
        let ch = y.get_char(0);
        if ch == 'A' {
            ri = 0;
        } else if ch == 'B' {
            ri = 1;
        } else if ch == 'C' {
            ri = 2;
        } else {
            return Err(InputError::RowNotValid);
        }
    } else {
        return Err(InputError::RowNotValid);
    }

    round.board[ri][ci] = Cell { state: CellState::OccupiedBy(player) };
    round.next_turn = match player {
        Role::X => Role::O,
        Role::O => Role::X,
    };
    Ok(())
}

/// The character is a decimal digit.
pub open spec fn is_digit(c: char) -> bool {
    48 <= c as u32 <= 57
}

/// The value of one decimal digit.
pub open spec fn digit_val(c: char) -> int {
    c as u32 - 48
}

/// The value of a string of decimal digits, most significant first.
pub open spec fn digits_val(s: Seq<char>) -> int
    decreases s.len(),
{
    if s.len() == 0 {
        0
    } else {
        digits_val(s.drop_last()) * 10 + digit_val(s.last())
    }
}

/// Every character of the string is a decimal digit.
pub open spec fn all_digits(s: Seq<char>) -> bool {
    forall|i: int| 0 <= i < s.len() ==> is_digit(s[i])
}

/// The digits of a numeral: what follows an optional leading plus sign.
pub open spec fn digits_part(s: Seq<char>) -> Seq<char> {
    if s.len() > 0 && s[0] == '+' {
        s.subrange(1, s.len() as int)
    } else {
        s
    }
}

/// The number a piece of text denotes when read as `str::parse::<u32>` reads
/// it: an optional plus sign, then one or more decimal digits, and a value
/// that fits in a `u32`; anything else denotes no number.
pub open spec fn parsed_u32(s: Seq<char>) -> Option<u32> {
    let d = digits_part(s);
    if d.len() > 0 && all_digits(d) && digits_val(d) <= u32::MAX {
        Some(digits_val(d) as u32)
    } else {
        None
    }
}

proof fn lemma_digits_val_push(s: Seq<char>, c: char)
    ensures
        digits_val(s.push(c)) == digits_val(s) * 10 + digit_val(c),
{
    assert(s.push(c).drop_last() =~= s);
}

/// Reads a column numeral as `str::parse::<u32>` would: an optional leading
/// plus sign, then one or more decimal digits, rejecting anything else and
/// any value that does not fit in a `u32`.
pub fn parse_column(s: &str) -> (res: Option<u32>)
    ensures
        res == parsed_u32(s@),
{
    let len = s.unicode_len();
    let start: usize = if len > 0 && s.get_char(0) == '+' {
        1
    } else {
        0
    };
    let ghost d = digits_part(s@);
    proof {
        assert(d =~= s@.subrange(start as int, len as int));
    }
    if len == start {
        return None;
    }

    let mut i: usize = start;
    let mut acc: u64 = 0;
    let mut over: bool = false;
    while i < len
        invariant
            start <= i <= len,
            len == s@.len(),
            d == s@.subrange(start as int, len as int),
            d == digits_part(s@),
            forall|j: int| start <= j < i ==> is_digit(s@[j]),
            !over ==> acc == digits_val(s@.subrange(start as int, i as int)) && acc <= u32::MAX
                as u64,
            over ==> digits_val(s@.subrange(start as int, i as int)) > u32::MAX,
        decreases len - i,
    {
        let c = s.get_char(i);
        let cv = c as u32;
        if cv < 48 || cv > 57 {
            proof {
                assert(d[i - start] == s@[i as int]);
                assert(!all_digits(d));
            }
            return None;
        }
        let dv = (cv - 48) as u64;
        proof {
            assert(s@.subrange(start as int, (i + 1) as int) =~= s@.subrange(
                start as int,
                i as int,
            ).push(s@[i as int]));
            lemma_digits_val_push(s@.subrange(start as int, i as int), s@[i as int]);
        }
        if !over {
            let next = acc * 10 + dv;
            if next > u32::MAX as u64 {
                over = true;
            } else {
                acc = next;
            }
        }
        i += 1;
    }

    proof {
        assert forall|k: int| 0 <= k < d.len() implies is_digit(d[k]) by {
            assert(d[k] == s@[k + start]);
        }
    }
    if over {
        None
    } else {
        Some(acc as u32)
    }
}

/// One turn for whoever plays next: reads the column text as a number,
/// failing with `ColumnNotValid` when it is not one, and then plays the move
/// for `old(round).next_turn` as `update_round` does.
pub fn ask_next(round: &mut Round, x_text: &str, y_text: &str) -> (res: Result<(), InputError>)
    ensures
        parsed_u32(x_text@) is None ==> res == Err::<(), InputError>(InputError::ColumnNotValid)
            && *final(round) == *old(round),
        parsed_u32(x_text@) matches Some(x) ==> {
            &&& res == move_error(x, y_text@)
            &&& (res is Err ==> *final(round) == *old(round))
            &&& (res is Ok ==> move_applied(
                *old(round),
                *final(round),
                row_index_of(y_text@)->0,
                x - 1,
                old(round).next_turn,
            ))
        },
{
    let player = round.next_turn;
    match parse_column(x_text) {
        Some(x) => update_round(x, y_text, player, round),
        None => Err(InputError::ColumnNotValid),
    }
}

/// What the game loop decides after a prompt iteration.
#[derive(Clone, Copy, PartialEq, Eq, Structural, Debug)]
pub enum GameStatus {
    InProgress,
    Drawn,
    WonBy(Role),
}

/// The game-loop decision once `moves` prompt iterations have passed: a
/// completed line ends the game at once, 9 iterations without one end it in
/// a draw, and otherwise play continues.
pub fn game_status(moves: u32, board: Board) -> (s: GameStatus)
    ensures
        winner_of(board) matches Some(p) ==> s == GameStatus::WonBy(p),
        winner_of(board) is None && moves >= 9 ==> s == GameStatus::Drawn,
        winner_of(board) is None && moves < 9 ==> s == GameStatus::InProgress,
{
    match check_winner(board) {
        Some(p) => GameStatus::WonBy(p),
        None => if moves >= 9 {
            GameStatus::Drawn
        } else {
            GameStatus::InProgress
        },
    }
}

/// Relies on rand::Rng::gen_range: on the non-empty range 1..=2 it returns a
/// value sampled from within that range.
#[verifier::external_body]
fn pick_one_or_two() -> (n: u32)
    ensures
        1 <= n <= 2,
{
    rand::thread_rng().gen_range(1..=2)
}

/// The starting role a drawn number stands for: 1 is X, anything else is O.
pub fn starting_role(n: u32) -> (r: Role)
    ensures
        r == (if n == 1 {
            Role::X
        } else {
            Role::O
        }),
{
    if n == 1 {
        Role::X
    } else {
        Role::O
    }
}

/// Picks the starting role for a fresh game by a random draw between X and
/// O. Nothing is promised of the outcome beyond its being one of the two.
pub fn random_starting_role() -> Role {
    starting_role(pick_one_or_two())
}

} // verus!
