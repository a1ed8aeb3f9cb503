//! Properties of the transition `next` that hold over whole games.

use vstd::prelude::*;
use crate::board::{cell, has_won, holds_line, in_range, is_empty, is_full, line_cell, Player};
use crate::game::{accepts, is_initial, moved, next, Model, Msg, Pos, State};

verus! {

/// A session is well formed when an idle game has an empty board with X to
/// move, a game in progress has no winner, no completed line and an empty
/// cell, and a winner is recorded only once the game has ended with that
/// player holding a line.
pub open spec fn wf(m: Model) -> bool {
    &&& m.state == State::Idle ==> m.turn == Player::X && is_empty(m.board)
    &&& m.state != State::Ended ==> {
        &&& m.winner is None
        &&& !has_won(m.board, Player::X)
        &&& !has_won(m.board, Player::O)
        &&& !is_full(m.board)
    }
    &&& m.winner matches Some(p) ==> m.state == State::Ended && has_won(m.board, p)
}

/// The initial state is well formed.
pub proof fn lemma_initial_wf(m: Model)
    requires
        is_initial(m),
    ensures
        wf(m),
{
    assert forall|p: Player| !has_won(m.board, p) by {
        if has_won(m.board, p) {
            let k = choose|k: int| 0 <= k < 8 && #[trigger] holds_line(m.board, p, k);
            let (r, c) = line_cell(k, 0);
            assert(in_range(r, c));
            assert(cell(m.board, r, c) is None);
        }
    }
    assert(cell(m.board, 0, 0) is None);
}

/// A mark never completes a line for the player who did not make it.
proof fn lemma_mark_gives_opponent_no_line(m0: Model, pos: Pos, m1: Model)
    requires
        accepts(m0, pos),
        moved(m0, pos, m1),
        !has_won(m0.board, m0.turn.other()),
    ensures
        !has_won(m1.board, m0.turn.other()),
{
    let q = m0.turn.other();
    if has_won(m1.board, q) {
        let k = choose|k: int| 0 <= k < 8 && #[trigger] holds_line(m1.board, q, k);
        assert(holds_line(m0.board, q, k));
    }
}

/// Every transition keeps a session well formed.
pub proof fn lemma_next_preserves_wf(m0: Model, msg: Msg, m1: Model)
    requires
        wf(m0),
        next(m0, msg, m1),
    ensures
        wf(m1),
{
    match msg {
        Msg::Reset => lemma_initial_wf(m1),
        Msg::SelectPoint(pos) => {
            if accepts(m0, pos) {
                assert(!has_won(m0.board, m0.turn.other())) by {
                    match m0.turn {
                        Player::X => {},
                        Player::O => {},
                    }
                }
                lemma_mark_gives_opponent_no_line(m0, pos, m1);
                match m0.turn {
                    Player::X => {},
                    Player::O => {},
                }
            }
        },
    }
}

/// A reset from any state gives the initial state, and a second reset
/// changes nothing more.
pub proof fn lemma_reset_restores_initial(m0: Model, m1: Model, m2: Model)
    requires
        next(m0, Msg::Reset, m1),
        next(m1, Msg::Reset, m2),
    ensures
        is_initial(m1),
        m2 == m1,
{
    assert(m2.board =~= m1.board) by {
        assert forall|r: int| 0 <= r < 3 implies m2.board[r] == m1.board[r] by {
            assert(m2.board[r] =~= m1.board[r]) by {
                assert forall|c: int| 0 <= c < 3 implies m2.board[r][c] == m1.board[r][c] by {
                    assert(cell(m2.board, r, c) is None);
                    assert(cell(m1.board, r, c) is None);
                }
            }
        }
    }
}

/// Two accepted marks in a row that leave the game in progress are made by
/// the two players in turn.
pub proof fn lemma_turns_alternate(m0: Model, a: Pos, m1: Model, b: Pos, m2: Model)
    requires
        accepts(m0, a),
        next(m0, Msg::SelectPoint(a), m1),
        m1.state != State::Ended,
        accepts(m1, b),
        next(m1, Msg::SelectPoint(b), m2),
        m2.state != State::Ended,
    ensures
        m1.turn == m0.turn.other(),
        m2.turn == m1.turn.other(),
        m2.turn == m0.turn,
{
    match m0.turn {
        Player::X => {},
        Player::O => {},
    }
}

/// An accepted mark after which the mover holds all three cells of one of
/// the eight lines ends the game with the mover as winner.
pub proof fn lemma_completed_line_wins(m0: Model, pos: Pos, m1: Model, k: int)
    requires
        accepts(m0, pos),
        next(m0, Msg::SelectPoint(pos), m1),
        0 <= k < 8,
        holds_line(m1.board, m0.turn, k),
    ensures
        m1.state == State::Ended,
        m1.winner == Some(m0.turn),
{
    assert(has_won(m1.board, m0.turn));
}

/// An accepted mark that fills the board while neither player holds a line
/// ends the game as a tie.
pub proof fn lemma_full_board_ties(m0: Model, pos: Pos, m1: Model)
    requires
        accepts(m0, pos),
        next(m0, Msg::SelectPoint(pos), m1),
        is_full(m1.board),
        !has_won(m1.board, Player::X),
        !has_won(m1.board, Player::O),
    ensures
        m1.state == State::Ended,
        m1.winner is None,
{
    match m0.turn {
        Player::X => {},
        Player::O => {},
    }
}

/// Once the game has ended a mark changes nothing.
pub proof fn lemma_ended_ignores_marks(m0: Model, pos: Pos, m1: Model)
    requires
        m0.state == State::Ended,
        next(m0, Msg::SelectPoint(pos), m1),
    ensures
        m1 == m0,
{
}

} // verus!
