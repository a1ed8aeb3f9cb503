//! The 3x3 board and the two questions asked of it: has a player completed a
//! line, and is every cell taken.

use vstd::prelude::*;

verus! {

/// One of the two players; X always moves first.
#[derive(Clone, Copy, Debug, PartialEq, Eq, Structural)]
pub enum Player {
    X,
    O,
}

/// The label shown for a player's mark.
pub open spec fn player_label(p: Player) -> Seq<char> {
    match p {
        Player::X => "X"@,
        Player::O => "O"@,
    }
}

impl Player {
    /// The player who moves after `self`.
    pub open spec fn other(self) -> Player {
        match self {
            Player::X => Player::O,
            Player::O => Player::X,
        }
    }

    pub fn opponent(&self) -> (r: Player)
        ensures
            r == self.other(),
    {
        match self {
            Player::X => Player::O,
            Player::O => Player::X,
        }
    }

    pub fn to_text(&self) -> (r: &'static str)
        ensures
            r@ == player_label(*self),
    {
        match self {
            Player::X => "X",
            Player::O => "O",
        }
    }
}

/// One row of the board; `None` is an empty cell.
pub type BoardRow = [Option<Player>; 3];

/// The board, row-major: `board[row][col]`.
pub type Board = [BoardRow; 3];

/// The content of the cell at `(r, c)`.
pub open spec fn cell(b: Board, r: int, c: int) -> Option<Player> {
    b@[r]@[c]
}

pub open spec fn in_range(r: int, c: int) -> bool {
    0 <= r < 3 && 0 <= c < 3
}

/// Every cell is empty.
pub open spec fn is_empty(b: Board) -> bool {
    forall|r: int, c: int| in_range(r, c) ==> (#[trigger] cell(b, r, c)) is None
}

/// No cell is empty.
pub open spec fn is_full(b: Board) -> bool {
    forall|r: int, c: int| in_range(r, c) ==> (#[trigger] cell(b, r, c)) is Some
}

/// The `j`-th cell (`j` in `0..3`) of line `k` (`k` in `0..8`): lines `0..3`
/// are the rows, `3..6` the columns, `6` the diagonal from the top left
/// corner and `7` the diagonal from the top right corner.
pub open spec fn line_cell(k: int, j: int) -> (int, int) {
    if k < 3 {
        (k, j)
    } else if k < 6 {
        (j, k - 3)
    } else if k == 6 {
        (j, j)
    } else {
        (j, 2 - j)
    }
}

/// `p` has a mark at `rc`.
pub open spec fn marks(b: Board, p: Player, rc: (int, int)) -> bool {
    cell(b, rc.0, rc.1) == Some(p)
}

/// `p` holds all three cells of line `k`.
pub open spec fn holds_line(b: Board, p: Player, k: int) -> bool {
    &&& marks(b, p, line_cell(k, 0))
    &&& marks(b, p, line_cell(k, 1))
    &&& marks(b, p, line_cell(k, 2))
}

/// `p` holds all three cells of some row, some column or either diagonal.
pub open spec fn has_won(b: Board, p: Player) -> bool {
    exists|k: int| 0 <= k < 8 && #[trigger] holds_line(b, p, k)
}

/// The executable form of `line_cell`.
fn line_cell_at(k: usize, j: usize) -> (r: (usize, usize))
    requires
        k < 8,
        j < 3,
    ensures
        r.0 as int == line_cell(k as int, j as int).0,
        r.1 as int == line_cell(k as int, j as int).1,
        in_range(r.0 as int, r.1 as int),
{
    if k < 3 {
        (k, j)
    } else if k < 6 {
        (j, k - 3)
    } else if k == 6 {
        (j, j)
    } else {
        (j, 2 - j)
    }
}

fn has_mark(board: &Board, player: Player, row: usize, col: usize) -> (r: bool)
    requires
        in_range(row as int, col as int),
    ensures
        r == marks(*board, player, (row as int, col as int)),
{
    match board[row][col] {
        Some(p) => p == player,
        None => false,
    }
}

fn line_complete(board: &Board, player: Player, k: usize) -> (r: bool)
    requires
        k < 8,
    ensures
        r == holds_line(*board, player, k as int),
{
    let mut j: usize = 0;
    while j < 3
        invariant
            k < 8,
            j <= 3,
            forall|i: int| 0 <= i < j ==> #[trigger] marks(*board, player, line_cell(k as int, i)),
        decreases 3 - j,
    {
        let (row, col) = line_cell_at(k, j);
        if !has_mark(board, player, row, col) {
            return false;
        }
        j = j + 1;
    }
    assert(marks(*board, player, line_cell(k as int, 0)));
    assert(marks(*board, player, line_cell(k as int, 1)));
    assert(marks(*board, player, line_cell(k as int, 2)));
    true
}

/// Whether `player` holds a complete row, column or diagonal.
pub fn did_player_win(board: &Board, player: &Player) -> (r: bool)
    ensures
        r == has_won(*board, *player),
{
    let mut k: usize = 0;
    while k < 8
        invariant
            k <= 8,
            forall|i: int| 0 <= i < k ==> !#[trigger] holds_line(*board, *player, i),
        decreases 8 - k,
    {
        if line_complete(board, *player, k) {
            return true;
        }
        k = k + 1;
    }
    false
}

/// Whether no cell is empty, so that no further move can be made.
pub fn did_game_end(board: &Board) -> (r: bool)
    ensures
        r == is_full(*board),
{
    let mut row: usize = 0;
    while row < 3
        invariant
            row <= 3,
            forall|r: int, c: int| 0 <= r < row && 0 <= c < 3 ==> (#[trigger] cell(*board, r, c)) is Some,
        decreases 3 - row,
    {
        let mut col: usize = 0;
        while col < 3
            invariant
                row < 3,
                col <= 3,
                forall|r: int, c: int| 0 <= r < row && 0 <= c < 3 ==> (#[trigger] cell(*board, r, c)) is Some,
                forall|c: int| 0 <= c < col ==> (#[trigger] cell(*board, row as int, c)) is Some,
            decreases 3 - col,
        {
            if board[row][col].is_none() {
                assert(cell(*board, row as int, col as int) is None);
                return false;
            }
            col = col + 1;
        }
        row = row + 1;
    }
    true
}

} // verus!
