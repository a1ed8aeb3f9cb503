//! The game state machine: a model of one game session and the transition
//! that applies a message to it.

use vstd::prelude::*;
use crate::board::{
    cell, did_game_end, did_player_win, has_won, in_range, is_empty, is_full, Board, Player,
};

verus! {

/// The lifecycle of a game: no move yet, moves in progress, or over.
#[derive(Clone, Copy, Debug, PartialEq, Eq, Structural)]
pub enum State {
    Idle,
    Playing,
    Ended,
}

/// The label shown for a lifecycle state.
pub open spec fn state_label(s: State) -> Seq<char> {
    match s {
        State::Idle => "Idle"@,
        State::Playing => "Playing"@,
        State::Ended => "Ended"@,
    }
}

impl State {
    pub fn to_text(&self) -> (r: &'static str)
        ensures
            r@ == state_label(*self),
    {
        match self {
            State::Idle => "Idle",
            State::Playing => "Playing",
            State::Ended => "Ended",
        }
    }

    pub fn is(&self, test: State) -> (r: bool)
        ensures
            r == (*self == test),
    {
        *self == test
    }

    pub fn is_not(&self, test: State) -> (r: bool)
        ensures
            r == (*self != test),
    {
        *self != test
    }
}

/// A cell of the board, by row and column.
#[derive(Clone, Copy, Debug, PartialEq, Eq, Structural)]
pub struct Pos {
    pub row_idx: usize,
    pub col_idx: usize,
}

/// What the user can ask for: a mark on a cell, or a new game.
#[derive(Clone, Copy, Debug, PartialEq, Eq, Structural)]
pub enum Msg {
    SelectPoint(Pos),
    Reset,
}

/// One game session.
#[derive(Clone, Copy, Debug, PartialEq, Eq)]
pub struct Model {
    pub state: State,
    /// The player whose move comes next, or who made the last move once
    /// the game has ended.
    pub turn: Player,
    pub winner: Option<Player>,
    pub board: Board,
}

/// The state a session starts in, and that a reset brings back.
pub open spec fn is_initial(m: Model) -> bool {
    &&& m.state == State::Idle
    &&& m.turn == Player::X
    &&& m.winner is None
    &&& is_empty(m.board)
}

/// `b1` is `b0` with `p`'s mark at `(r, c)`.
pub open spec fn placed(b0: Board, b1: Board, r: int, c: int, p: Player) -> bool {
    forall|i: int, j: int|
        in_range(i, j) ==> #[trigger] cell(b1, i, j) == if i == r && j == c {
            Some(p)
        } else {
            cell(b0, i, j)
        }
}

/// A mark on `pos` is taken: the game is not over and the cell exists and
/// is empty. Any other mark is ignored.
pub open spec fn accepts(m: Model, pos: Pos) -> bool {
    &&& m.state != State::Ended
    &&& in_range(pos.row_idx as int, pos.col_idx as int)
    &&& cell(m.board, pos.row_idx as int, pos.col_idx as int) is None
}

/// `m1` follows from `m0` by an accepted mark on `pos`: the mark is placed,
/// then a completed line ends the game with the mover as winner, a full board
/// ends it as a tie, and otherwise the turn passes to the other player.
pub open spec fn moved(m0: Model, pos: Pos, m1: Model) -> bool {
    let p = m0.turn;
    &&& placed(m0.board, m1.board, pos.row_idx as int, pos.col_idx as int, p)
    &&& if has_won(m1.board, p) {
        m1.state == State::Ended && m1.winner == Some(p) && m1.turn == p
    } else if is_full(m1.board) {
        m1.state == State::Ended && m1.winner is None && m1.turn == p
    } else {
        m1.state == State::Playing && m1.winner == m0.winner && m1.turn == p.other()
    }
}

/// `m1` is what `msg` makes of `m0`.
pub open spec fn next(m0: Model, msg: Msg, m1: Model) -> bool {
    match msg {
        Msg::Reset => is_initial(m1),
        Msg::SelectPoint(pos) => if accepts(m0, pos) {
            moved(m0, pos, m1)
        } else {
            m1 == m0
        },
    }
}

impl Model {
    pub fn new() -> (r: Model)
        ensures
            is_initial(r),
    {
        Model { state: State::Idle, turn: Player::X, winner: None, board: [[None;3];3] }
    }
}

/// Applies `msg` to the session.
pub fn update(msg: Msg, model: &mut Model)
    ensures
        next(*old(model), msg, *final(model)),
{
    match msg {
        Msg::SelectPoint(pos) => {
            let r = pos.row_idx;
            let c = pos.col_idx;
            if model.state.is(State::Ended) || r >= 3 || c >= 3 || model.board[r][c].is_some() {
                return;
            }
            let turn = model.turn;
            model.board[r][c] = Some(turn);
            if did_player_win(&model.board, &turn) {
                model.winner = Some(turn);
                model.state = State::Ended;
            } else if did_game_end(&model.board) {
                model.winner = None;
                model.state = State::Ended;
            } else {
                model.turn = turn.opponent();
                model.state = State::Playing;
            }
        },
        Msg::Reset => {
            *model = Model::new();
        },
    }
}

} // verus!
