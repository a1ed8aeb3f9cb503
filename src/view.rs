//! What the screen shows for a session: the text of each cell with the
//! message a click on it sends, and the caption below the board.

use vstd::prelude::*;
use crate::board::{cell, player_label, Board, Player};
use crate::game::{Model, Msg, Pos, State};

verus! {

/// What one cell shows, and the message a click on it sends, if any.
#[derive(Clone, Copy, Debug, PartialEq, Eq)]
pub struct CellView {
    pub text: &'static str,
    pub on_click: Option<Msg>,
}

/// The whole screen: the board, row by row, then either whose turn it is
/// (while the game goes on) or its outcome (once it has ended; a reset
/// control stands beside it).
#[derive(Clone, Debug, PartialEq, Eq)]
pub struct Screen {
    pub board: Vec<Vec<CellView>>,
    pub turn: Option<Vec<&'static str>>,
    pub outcome: Option<Vec<&'static str>>,
}

/// The text of a cell: the mark's label, or nothing.
pub open spec fn cell_text(point: Option<Player>) -> Seq<char> {
    match point {
        Some(p) => player_label(p),
        None => ""@,
    }
}

/// Clicks select the clicked cell until the game has ended.
pub open spec fn click_msg(state: State, row: int, col: int) -> Option<Msg> {
    if state != State::Ended {
        Some(Msg::SelectPoint(Pos { row_idx: row as usize, col_idx: col as usize }))
    } else {
        None
    }
}

/// The caption while the game goes on: "Player ", the label, " turn".
pub open spec fn turn_caption(turn: Player) -> Seq<Seq<char>> {
    seq!["Player "@, player_label(turn), " turn"@]
}

/// The caption once the game has ended: the winner, or a tie.
pub open spec fn outcome_caption(winner: Option<Player>) -> Seq<Seq<char>> {
    match winner {
        Some(p) => seq!["Player "@, player_label(p), " won!"@],
        None => seq!["It's a tie!"@],
    }
}

/// `pieces` spell out `caption`, piece by piece.
pub open spec fn spells(pieces: Seq<&'static str>, caption: Seq<Seq<char>>) -> bool {
    &&& pieces.len() == caption.len()
    &&& forall|i: int| 0 <= i < caption.len() ==> (#[trigger] pieces[i])@ == caption[i]
}

/// `cells` shows `board` in `state`, row by row.
pub open spec fn shows_board(cells: Seq<Vec<CellView>>, board: Board, state: State) -> bool {
    &&& cells.len() == 3
    &&& forall|r: int| 0 <= r < 3 ==> (#[trigger] cells[r])@.len() == 3
    &&& forall|r: int, c: int|
        0 <= r < 3 && 0 <= c < 3 ==> {
            &&& (#[trigger] cells[r]@[c]).text@ == cell_text(cell(board, r, c))
            &&& cells[r]@[c].on_click == click_msg(state, r, c)
        }
}

pub fn point_text(point: &Option<Player>) -> (r: &'static str)
    ensures
        r@ == cell_text(*point),
{
    match point {
        Some(p) => p.to_text(),
        None => "",
    }
}

pub fn view_turn(turn: &Player) -> (r: Vec<&'static str>)
    ensures
        spells(r@, turn_caption(*turn)),
{
    let r = vec!["Player ", turn.to_text(), " turn"];
    assert(spells(r@, turn_caption(*turn))) by {
        assert forall|i: int| 0 <= i < 3 implies (#[trigger] r@[i])@ == turn_caption(*turn)[i] by {}
    }
    r
}

pub fn view_winner(winner: &Option<Player>) -> (r: Vec<&'static str>)
    ensures
        spells(r@, outcome_caption(*winner)),
{
    match winner {
        Some(p) => {
            let r = vec!["Player ", p.to_text(), " won!"];
            assert(spells(r@, outcome_caption(*winner))) by {
                assert forall|i: int| 0 <= i < 3 implies (#[trigger] r@[i])@ == outcome_caption(
                    *winner,
                )[i] by {}
            }
            r
        },
        None => {
            let r = vec!["It's a tie!"];
            assert(r@[0]@ == outcome_caption(*winner)[0]);
            r
        },
    }
}

pub fn view_board(board: &Board, state: &State) -> (r: Vec<Vec<CellView>>)
    ensures
        shows_board(r@, *board, *state),
{
    let open = state.is_not(State::Ended);
    let mut rows: Vec<Vec<CellView>> = Vec::new();
    let mut row_idx: usize = 0;
    while row_idx < 3
        invariant
            row_idx <= 3,
            open == (*state != State::Ended),
            rows@.len() == row_idx,
            forall|r: int| 0 <= r < row_idx ==> (#[trigger] rows@[r])@.len() == 3,
            forall|r: int, c: int|
                0 <= r < row_idx && 0 <= c < 3 ==> {
                    &&& (#[trigger] rows@[r]@[c]).text@ == cell_text(cell(*board, r, c))
                    &&& rows@[r]@[c].on_click == click_msg(*state, r, c)
                },
        decreases 3 - row_idx,
    {
        let mut row: Vec<CellView> = Vec::new();
        let mut col_idx: usize = 0;
        while col_idx < 3
            invariant
                row_idx < 3,
                col_idx <= 3,
                open == (*state != State::Ended),
                row@.len() == col_idx,
                forall|c: int|
                    0 <= c < col_idx ==> {
                        &&& (#[trigger] row@[c]).text@ == cell_text(cell(*board, row_idx as int, c))
                        &&& row@[c].on_click == click_msg(*state, row_idx as int, c)
                    },
            decreases 3 - col_idx,
        {
            let on_click = if open {
                Some(Msg::SelectPoint(Pos { row_idx, col_idx }))
            } else {
                None
            };
            row.push(CellView { text: point_text(&board[row_idx][col_idx]), on_click });
            col_idx = col_idx + 1;
        }
        rows.push(row);
        row_idx = row_idx + 1;
    }
    rows
}

/// The screen for `model`.
pub fn view(model: &Model) -> (r: Screen)
    ensures
        shows_board(r.board@, model.board, model.state),
        if model.state == State::Ended {
            &&& r.turn is None
            &&& r.outcome is Some
            &&& spells(r.outcome->0@, outcome_caption(model.winner))
        } else {
            &&& r.outcome is None
            &&& r.turn is Some
            &&& spells(r.turn->0@, turn_caption(model.turn))
        },
{
    let board = view_board(&model.board, &model.state);
    if model.state.is(State::Ended) {
        Screen { board, turn: None, outcome: Some(view_winner(&model.winner)) }
    } else {
        Screen { board, turn: Some(view_turn(&model.turn)), outcome: None }
    }
}

} // verus!
