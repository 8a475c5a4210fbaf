use tictactoe::board::check_winner;
use tictactoe::board::new_round;
use tictactoe::board::CellState;
use tictactoe::board::Role;
use tictactoe::board::Round;
use tictactoe::game::ask_next;
use tictactoe::game::game_status;
use tictactoe::game::parse_column;
use tictactoe::game::random_starting_role;
use tictactoe::game::starting_role;
use tictactoe::game::update_round;
use tictactoe::game::GameStatus;
use tictactoe::game::InputError;

fn assert_board_eq(a: &Round, b: &Round) {
    for r in 0..3 {
        for c in 0..3 {
            assert_eq!(a.board[r][c].state, b.board[r][c].state);
        }
    }
}

fn play(round: &mut Round, col: u32, row: &str, role: Role) {
    let res = update_round(col, row, role, round);
    assert!(res.is_ok());
}

#[test]
fn new_round_starts_fresh() {
    let round = new_round(4, Role::O);
    assert_eq!(round.number, 5);
    assert_eq!(round.next_turn, Role::O);
    for r in 0..3 {
        for c in 0..3 {
            assert_eq!(round.board[r][c].state, CellState::Empty);
        }
    }
}

#[test]
fn valid_moves_succeed_and_flip_turn() {
    let rows = ["A", "B", "C"];
    for col in 1..=3u32 {
        for (ri, row) in rows.iter().enumerate() {
            for role in [Role::X, Role::O] {
                let mut round = new_round(0, role);
                let res = update_round(col, row, role, &mut round);
                assert_eq!(res, Ok(()));
                assert_eq!(
                    round.next_turn,
                    if role == Role::X { Role::O } else { Role::X }
                );
                assert_eq!(
                    round.board[ri][(col - 1) as usize].state,
                    CellState::OccupiedBy(role)
                );
            }
        }
    }
}

#[test]
fn column_out_of_range_is_rejected() {
    for col in [0u32, 4, 100, u32::MAX] {
        let mut round = new_round(0, Role::X);
        let before = round;
        let res = update_round(col, "A", Role::X, &mut round);
        assert_eq!(res, Err(InputError::ColumnNotValid));
        assert_eq!(round.next_turn, before.next_turn);
        assert_eq!(round.number, before.number);
        assert_board_eq(&round, &before);
    }
}

#[test]
fn row_out_of_range_is_rejected() {
    for row in ["D", "a", "AB", "", "1"] {
        let mut round = new_round(0, Role::X);
        let before = round;
        let res = update_round(2, row, Role::X, &mut round);
        assert_eq!(res, Err(InputError::RowNotValid));
        assert_eq!(round.next_turn, before.next_turn);
        assert_board_eq(&round, &before);
    }
}

#[test]
fn column_checked_before_row() {
    let mut round = new_round(0, Role::X);
    let res = update_round(0, "D", Role::X, &mut round);
    assert_eq!(res, Err(InputError::ColumnNotValid));
}

#[test]
fn occupied_cell_is_overwritten() {
    let mut round = new_round(0, Role::X);
    play(&mut round, 1, "A", Role::X);
    play(&mut round, 1, "A", Role::O);
    assert_eq!(round.board[0][0].state, CellState::OccupiedBy(Role::O));
}

#[test]
fn winner_found_on_each_line() {
    let lines: [[(u32, &str); 3]; 8] = [
        [(1, "A"), (2, "A"), (3, "A")],
        [(1, "B"), (2, "B"), (3, "B")],
        [(1, "C"), (2, "C"), (3, "C")],
        [(1, "A"), (1, "B"), (1, "C")],
        [(2, "A"), (2, "B"), (2, "C")],
        [(3, "A"), (3, "B"), (3, "C")],
        [(1, "A"), (2, "B"), (3, "C")],
        [(3, "A"), (2, "B"), (1, "C")],
    ];
    for line in lines {
        for role in [Role::X, Role::O] {
            let mut round = new_round(0, role);
            for (col, row) in line {
                play(&mut round, col, row, role);
            }
            assert_eq!(check_winner(round.board), Some(role));
        }
    }
}

#[test]
fn no_winner_on_empty_board() {
    let round = new_round(0, Role::X);
    assert_eq!(check_winner(round.board), None);
}

#[test]
fn no_winner_without_completed_line() {
    let mut round = new_round(0, Role::X);
    play(&mut round, 1, "A", Role::X);
    play(&mut round, 2, "A", Role::X);
    play(&mut round, 3, "A", Role::O);
    play(&mut round, 1, "B", Role::O);
    play(&mut round, 2, "B", Role::O);
    play(&mut round, 3, "B", Role::X);
    play(&mut round, 1, "C", Role::X);
    play(&mut round, 2, "C", Role::X);
    play(&mut round, 3, "C", Role::O);
    assert_eq!(check_winner(round.board), None);
}

#[test]
fn row_a_completion_wins_for_x() {
    let mut round = new_round(0, Role::X);
    for (col, row) in [("1", "A"), ("1", "B"), ("2", "A"), ("2", "B"), ("3", "A")] {
        assert_eq!(ask_next(&mut round, col, row), Ok(()));
    }
    assert_eq!(check_winner(round.board), Some(Role::X));
    assert_eq!(game_status(5, round.board), GameStatus::WonBy(Role::X));
}

#[test]
fn full_board_without_line_is_a_draw() {
    let mut round = new_round(0, Role::X);
    let moves = [
        ("1", "A"),
        ("3", "A"),
        ("2", "A"),
        ("1", "B"),
        ("3", "B"),
        ("2", "B"),
        ("1", "C"),
        ("3", "C"),
        ("2", "C"),
    ];
    for (i, (col, row)) in moves.iter().enumerate() {
        assert_eq!(ask_next(&mut round, col, row), Ok(()));
        if i < 8 {
            assert_eq!(check_winner(round.board), None);
            assert_eq!(game_status(i as u32 + 1, round.board), GameStatus::InProgress);
        }
    }
    assert_eq!(check_winner(round.board), None);
    assert_eq!(game_status(9, round.board), GameStatus::Drawn);
}

#[test]
fn ask_next_rejects_non_numeric_column() {
    for bad in ["abc", "", "one", "1.5", "-1", "4294967296"] {
        let mut round = new_round(0, Role::X);
        let before = round;
        assert_eq!(
            ask_next(&mut round, bad, "A"),
            Err(InputError::ColumnNotValid)
        );
        assert_eq!(round.next_turn, before.next_turn);
        assert_board_eq(&round, &before);
    }
}

#[test]
fn ask_next_plays_for_whoever_is_next() {
    let mut round = new_round(0, Role::O);
    assert_eq!(ask_next(&mut round, "2", "B"), Ok(()));
    assert_eq!(round.board[1][1].state, CellState::OccupiedBy(Role::O));
    assert_eq!(round.next_turn, Role::X);
    assert_eq!(ask_next(&mut round, "1", "C"), Ok(()));
    assert_eq!(round.board[2][0].state, CellState::OccupiedBy(Role::X));
    assert_eq!(round.next_turn, Role::O);
}

#[test]
fn column_parse_accepts_numerals() {
    assert_eq!(parse_column("2"), Some(2));
    assert_eq!(parse_column("+3"), Some(3));
    assert_eq!(parse_column("0"), Some(0));
    assert_eq!(parse_column("007"), Some(7));
    assert_eq!(parse_column("4294967295"), Some(u32::MAX));
}

#[test]
fn column_parse_rejects_bad_numerals() {
    assert_eq!(parse_column(""), None);
    assert_eq!(parse_column("+"), None);
    assert_eq!(parse_column("x"), None);
    assert_eq!(parse_column("1a"), None);
    assert_eq!(parse_column("-1"), None);
    assert_eq!(parse_column("++1"), None);
    assert_eq!(parse_column(" 1"), None);
    assert_eq!(parse_column("4294967296"), None);
    assert_eq!(parse_column("12345678901234567890"), None);
}

#[test]
fn column_parse_matches_std_parse() {
    let samples = [
        "", "+", "0", "1", "+2", "03", "27", "4294967295", "4294967296",
        "99999999999999999999", "x", "1a", "-1", " 1", "+12", "3 ", "ten",
    ];
    for s in samples {
        assert_eq!(parse_column(s), s.parse::<u32>().ok(), "on input {:?}", s);
    }
}

#[test]
fn game_status_reports_progress_and_draw() {
    let round = new_round(0, Role::X);
    assert_eq!(game_status(0, round.board), GameStatus::InProgress);
    assert_eq!(game_status(8, round.board), GameStatus::InProgress);
    assert_eq!(game_status(9, round.board), GameStatus::Drawn);
    assert_eq!(game_status(10, round.board), GameStatus::Drawn);
}

#[test]
fn starting_role_maps_draws() {
    assert_eq!(starting_role(1), Role::X);
    assert_eq!(starting_role(2), Role::O);
}

#[test]
fn random_starting_role_is_x_or_o() {
    for _ in 0..20 {
        let r = random_starting_role();
        assert!(r == Role::X || r == Role::O);
    }
}

#[test]
fn labels_render_cells() {
    assert_eq!(Role::X.label(), "X");
    assert_eq!(Role::O.label(), "O");
    assert_eq!(CellState::Empty.label(), " ");
    assert_eq!(CellState::OccupiedBy(Role::X).label(), "X");
    assert_eq!(CellState::OccupiedBy(Role::O).label(), "O");
}

#[test]
fn error_messages_name_the_axis() {
    assert_eq!(
        InputError::ColumnNotValid.message(),
        "X is not valid, it should be a number between 1 and 3"
    );
    assert_eq!(InputError::RowNotValid.message(), "Y must be A, B, or C");
}
