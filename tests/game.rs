use tic_tac_toe::board::{did_game_end, did_player_win, Board, Player};
use tic_tac_toe::game::{update, Model, Msg, Pos, State};

fn select(model: &mut Model, row_idx: usize, col_idx: usize) {
    update(Msg::SelectPoint(Pos { row_idx, col_idx }), model);
}

fn play(moves: &[(usize, usize)]) -> Model {
    let mut model = Model::new();
    for &(r, c) in moves {
        select(&mut model, r, c);
    }
    model
}

fn assert_initial(model: &Model) {
    assert_eq!(model.state, State::Idle);
    assert_eq!(model.turn, Player::X);
    assert_eq!(model.winner, None);
    for row in model.board.iter() {
        for point in row.iter() {
            assert_eq!(*point, None);
        }
    }
}

#[test]
fn new_model_is_idle_with_empty_board() {
    assert_initial(&Model::new());
}

#[test]
fn reset_mid_game_restores_initial_state() {
    let mut model = play(&[(0, 0), (1, 1), (2, 2)]);
    update(Msg::Reset, &mut model);
    assert_initial(&model);
    assert_eq!(model, Model::new());
}

#[test]
fn reset_after_end_and_twice_restores_initial_state() {
    let mut model = play(&[(0, 0), (1, 1), (0, 1), (2, 2), (0, 2)]);
    assert_eq!(model.state, State::Ended);
    update(Msg::Reset, &mut model);
    assert_eq!(model, Model::new());
    update(Msg::Reset, &mut model);
    assert_eq!(model, Model::new());
}

#[test]
fn turns_alternate_between_players() {
    let mut model = Model::new();
    select(&mut model, 0, 0);
    assert_eq!(model.turn, Player::O);
    assert_eq!(model.state, State::Playing);
    assert_eq!(model.board[0][0], Some(Player::X));
    select(&mut model, 1, 1);
    assert_eq!(model.turn, Player::X);
    assert_eq!(model.board[1][1], Some(Player::O));
    select(&mut model, 2, 0);
    assert_eq!(model.turn, Player::O);
    assert_eq!(model.board[2][0], Some(Player::X));
}

#[test]
fn occupied_cell_is_rejected() {
    let mut model = play(&[(0, 0)]);
    let before = model;
    select(&mut model, 0, 0);
    assert_eq!(model, before);
    assert_eq!(model.board[0][0], Some(Player::X));
    assert_eq!(model.turn, Player::O);
}

#[test]
fn out_of_range_cell_is_ignored() {
    let mut model = play(&[(0, 0)]);
    let before = model;
    select(&mut model, 3, 0);
    assert_eq!(model, before);
    select(&mut model, 0, 7);
    assert_eq!(model, before);
}

/// X takes the three cells of a line; O answers on cells off that line.
fn x_wins_line(line: [(usize, usize); 3], o_moves: [(usize, usize); 2]) {
    let model = play(&[line[0], o_moves[0], line[1], o_moves[1], line[2]]);
    assert_eq!(model.state, State::Ended);
    assert_eq!(model.winner, Some(Player::X));
    for &(r, c) in line.iter() {
        assert_eq!(model.board[r][c], Some(Player::X));
    }
}

#[test]
fn top_row_wins() {
    x_wins_line([(0, 0), (0, 1), (0, 2)], [(1, 0), (1, 1)]);
}

#[test]
fn middle_row_wins() {
    x_wins_line([(1, 0), (1, 1), (1, 2)], [(0, 0), (2, 2)]);
}

#[test]
fn bottom_row_wins() {
    x_wins_line([(2, 0), (2, 1), (2, 2)], [(0, 0), (1, 1)]);
}

#[test]
fn left_column_wins() {
    x_wins_line([(0, 0), (1, 0), (2, 0)], [(0, 1), (1, 1)]);
}

#[test]
fn middle_column_wins() {
    x_wins_line([(0, 1), (1, 1), (2, 1)], [(0, 0), (2, 2)]);
}

#[test]
fn right_column_wins() {
    x_wins_line([(0, 2), (1, 2), (2, 2)], [(0, 0), (1, 1)]);
}

#[test]
fn main_diagonal_wins() {
    x_wins_line([(0, 0), (1, 1), (2, 2)], [(0, 1), (0, 2)]);
}

#[test]
fn anti_diagonal_wins() {
    x_wins_line([(0, 2), (1, 1), (2, 0)], [(0, 0), (0, 1)]);
}

#[test]
fn second_player_can_win() {
    let model = play(&[(0, 0), (0, 2), (1, 0), (1, 2), (2, 1), (2, 2)]);
    assert_eq!(model.state, State::Ended);
    assert_eq!(model.winner, Some(Player::O));
    assert_eq!(model.turn, Player::O);
}

#[test]
fn top_row_scenario_ends_with_x_winning() {
    let model = play(&[(0, 0), (1, 1), (0, 1), (2, 2), (0, 2)]);
    assert_eq!(model.state, State::Ended);
    assert_eq!(model.winner, Some(Player::X));
}

#[test]
fn full_board_without_line_is_a_tie() {
    // X O X
    // X O O
    // O X X
    let model = play(&[(0, 0), (0, 1), (0, 2), (1, 1), (1, 0), (1, 2), (2, 1), (2, 0), (2, 2)]);
    assert_eq!(model.state, State::Ended);
    assert_eq!(model.winner, None);
    assert!(did_game_end(&model.board));
}

#[test]
fn row_major_fill_ends_on_anti_diagonal() {
    // Filling cell by cell in row-major order gives X the anti-diagonal on
    // the seventh move; the last two moves are then ignored.
    let model = play(&[(0, 0), (0, 1), (0, 2), (1, 0), (1, 1), (1, 2), (2, 0), (2, 1), (2, 2)]);
    assert_eq!(model.state, State::Ended);
    assert_eq!(model.winner, Some(Player::X));
    assert_eq!(model.board[2][1], None);
    assert_eq!(model.board[2][2], None);
}

#[test]
fn moves_after_end_change_nothing() {
    let mut model = play(&[(0, 0), (1, 1), (0, 1), (2, 2), (0, 2)]);
    let before = model;
    select(&mut model, 2, 0);
    assert_eq!(model, before);
    select(&mut model, 0, 0);
    assert_eq!(model, before);
}

#[test]
fn evaluator_checks_every_column() {
    let mut board: Board = [[None; 3]; 3];
    for r in 0..3 {
        board[r][2] = Some(Player::O);
    }
    assert!(did_player_win(&board, &Player::O));
    assert!(!did_player_win(&board, &Player::X));
    assert!(!did_game_end(&board));
}

#[test]
fn evaluator_on_empty_and_full_boards() {
    let empty: Board = [[None; 3]; 3];
    assert!(!did_player_win(&empty, &Player::X));
    assert!(!did_player_win(&empty, &Player::O));
    assert!(!did_game_end(&empty));
    let full: Board = [[Some(Player::X), Some(Player::O), Some(Player::X)],
        [Some(Player::X), Some(Player::O), Some(Player::O)],
        [Some(Player::O), Some(Player::X), Some(Player::X)]];
    assert!(did_game_end(&full));
    assert!(!did_player_win(&full, &Player::X));
    assert!(!did_player_win(&full, &Player::O));
}

#[test]
fn labels_and_state_tests() {
    assert_eq!(Player::X.to_text(), "X");
    assert_eq!(Player::O.to_text(), "O");
    assert_eq!(Player::X.opponent(), Player::O);
    assert_eq!(Player::O.opponent(), Player::X);
    assert_eq!(State::Idle.to_text(), "Idle");
    assert_eq!(State::Playing.to_text(), "Playing");
    assert_eq!(State::Ended.to_text(), "Ended");
    assert!(State::Ended.is(State::Ended));
    assert!(!State::Idle.is(State::Ended));
    assert!(State::Playing.is_not(State::Ended));
    assert!(!State::Ended.is_not(State::Ended));
}
