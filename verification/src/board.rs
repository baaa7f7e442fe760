use vstd::prelude::*;

use crate::game_error::GameError;
use crate::player_symbol::PlayerSymbol;

verus! {

/// True when (x, y) names a cell of the fixed 3x3 grid.
pub open spec fn in_bounds(x: int, y: int) -> bool {
    0 <= x < 3 && 0 <= y < 3
}

/// The position of cell (x, y) in the row-major cell sequence.
pub open spec fn cell_index(x: int, y: int) -> int {
    y * 3 + x
}

/// The occupant of cell (x, y) of grid `g`, and None for out-of-bounds
/// coordinates as well as for empty cells: the two are deliberately not
/// distinguished, mirroring the behaviour of `Board::get`.
pub open spec fn grid_at(g: Seq<Option<PlayerSymbol>>, x: int, y: int) -> Option<PlayerSymbol> {
    if in_bounds(x, y) {
        g[cell_index(x, y)]
    } else {
        None
    }
}

/// Grid `g` with `symbol` written into cell (x, y).
pub open spec fn grid_place(
    g: Seq<Option<PlayerSymbol>>,
    x: int,
    y: int,
    symbol: PlayerSymbol,
) -> Seq<Option<PlayerSymbol>> {
    g.update(cell_index(x, y), Some(symbol))
}

/// The grid of a freshly created board: nine empty cells.
pub open spec fn empty_grid() -> Seq<Option<PlayerSymbol>> {
    Seq::new(9, |i: int| None::<PlayerSymbol>)
}

/// The symbol occupying all three of the cells (x0, y0), (x1, y1), (x2, y2),
/// or None when one of them is empty (or off the grid) or the symbols
/// disagree.
pub open spec fn triple_owner(
    g: Seq<Option<PlayerSymbol>>,
    x0: int,
    y0: int,
    x1: int,
    y1: int,
    x2: int,
    y2: int,
) -> Option<PlayerSymbol> {
    if grid_at(g, x0, y0) is Some && grid_at(g, x1, y1) == grid_at(g, x0, y0) && grid_at(g, x2, y2)
        == grid_at(g, x0, y0) {
        grid_at(g, x0, y0)
    } else {
        None
    }
}

/// The symbol holding all of row `y`, or None when the row is not uniformly
/// occupied by one symbol.
pub open spec fn row_owner(g: Seq<Option<PlayerSymbol>>, y: int) -> Option<PlayerSymbol> {
    triple_owner(g, 0, y, 1, y, 2, y)
}

/// The symbol holding all of column `x`, or None.
pub open spec fn col_owner(g: Seq<Option<PlayerSymbol>>, x: int) -> Option<PlayerSymbol> {
    triple_owner(g, x, 0, x, 1, x, 2)
}

/// The symbol holding the top-left to bottom-right diagonal, or None.
pub open spec fn diag_owner(g: Seq<Option<PlayerSymbol>>) -> Option<PlayerSymbol> {
    triple_owner(g, 0, 0, 1, 1, 2, 2)
}

/// The symbol holding the top-right to bottom-left diagonal, or None.
pub open spec fn anti_diag_owner(g: Seq<Option<PlayerSymbol>>) -> Option<PlayerSymbol> {
    triple_owner(g, 2, 0, 1, 1, 0, 2)
}

/// The winner that the scan of `find_win` reports: the owner of the first
/// completed line in the fixed scan order - rows top to bottom, then columns
/// left to right, then the two diagonals - or None when no line is complete.
/// The order matters only on boards where several lines are complete at
/// once, which legal alternating play never produces, but it is fixed here
/// so that the result is deterministic even on such boards.
pub open spec fn first_win(g: Seq<Option<PlayerSymbol>>) -> Option<PlayerSymbol> {
    if row_owner(g, 0) is Some {
        row_owner(g, 0)
    } else if row_owner(g, 1) is Some {
        row_owner(g, 1)
    } else if row_owner(g, 2) is Some {
        row_owner(g, 2)
    } else if col_owner(g, 0) is Some {
        col_owner(g, 0)
    } else if col_owner(g, 1) is Some {
        col_owner(g, 1)
    } else if col_owner(g, 2) is Some {
        col_owner(g, 2)
    } else if diag_owner(g) is Some {
        diag_owner(g)
    } else {
        anti_diag_owner(g)
    }
}

/// True when every cell of the grid is occupied.
pub open spec fn grid_full(g: Seq<Option<PlayerSymbol>>) -> bool {
    forall|x: int, y: int| in_bounds(x, y) ==> #[trigger] grid_at(g, x, y) is Some
}

/// What one terminal-state evaluation reports and caches, as a pair of the
/// game-over flag and the winner cache after the evaluation, given the grid
/// `g` and the previously cached winner `w`: a completed line ends the game
/// and caches its owner; a full grid without one ends the game and leaves
/// the cache alone (a draw keeps it at None); otherwise nothing changes and
/// the game goes on.
pub open spec fn eval_outcome(
    g: Seq<Option<PlayerSymbol>>,
    w: Option<PlayerSymbol>,
) -> (bool, Option<PlayerSymbol>) {
    if first_win(g) is Some {
        (true, first_win(g))
    } else if grid_full(g) {
        (true, w)
    } else {
        (false, w)
    }
}

/// Law: on any board, placing a symbol and then reading the same coordinates
/// gives back exactly the placed symbol. `Board::set` establishes the
/// `grid_place` relation on success and `Board::get` returns `grid_at`, so
/// this covers every place-then-get round trip on legal coordinates.
pub proof fn lemma_place_then_get(g: Seq<Option<PlayerSymbol>>, x: int, y: int, symbol: PlayerSymbol)
    requires
        g.len() == 9,
        in_bounds(x, y),
    ensures
        grid_at(grid_place(g, x, y, symbol), x, y) == Some(symbol),
{
}

/// Law: placing a symbol changes no cell other than the target, so every
/// other read is undisturbed by the placement.
pub proof fn lemma_place_preserves_others(
    g: Seq<Option<PlayerSymbol>>,
    x: int,
    y: int,
    symbol: PlayerSymbol,
    x2: int,
    y2: int,
)
    requires
        g.len() == 9,
        in_bounds(x, y),
        (x2, y2) != (x, y),
    ensures
        grid_at(grid_place(g, x, y, symbol), x2, y2) == grid_at(g, x2, y2),
{
}

/// Law: terminal-state evaluation is idempotent. Evaluating once from grid
/// `g` and cached winner `w` and then a second time, without an intervening
/// placement, reports the same game-over flag and the same winner both
/// times, and the cache is unchanged by the second evaluation.
pub proof fn lemma_eval_idempotent(g: Seq<Option<PlayerSymbol>>, w: Option<PlayerSymbol>)
    ensures
        ({
            let (over1, w1) = eval_outcome(g, w);
            let (over2, w2) = eval_outcome(g, w1);
            over2 == over1 && w2 == w1
        }),
{
}

/// Law: a completed line decides the game. On any grid where some line is
/// uniformly held by `s` and no line is held by the other symbol - the only
/// situation legal alternating play can produce a completed line in -
/// terminal-state evaluation reports the game over with winner `s`,
/// whatever was cached before.
pub proof fn lemma_completed_line_wins(
    g: Seq<Option<PlayerSymbol>>,
    w: Option<PlayerSymbol>,
    s: PlayerSymbol,
)
    requires
        row_owner(g, 0) == Some(s) || row_owner(g, 1) == Some(s) || row_owner(g, 2) == Some(s)
            || col_owner(g, 0) == Some(s) || col_owner(g, 1) == Some(s) || col_owner(g, 2) == Some(
            s,
        ) || diag_owner(g) == Some(s) || anti_diag_owner(g) == Some(s),
        row_owner(g, 0) != Some(s.spec_opposite()),
        row_owner(g, 1) != Some(s.spec_opposite()),
        row_owner(g, 2) != Some(s.spec_opposite()),
        col_owner(g, 0) != Some(s.spec_opposite()),
        col_owner(g, 1) != Some(s.spec_opposite()),
        col_owner(g, 2) != Some(s.spec_opposite()),
        diag_owner(g) != Some(s.spec_opposite()),
        anti_diag_owner(g) != Some(s.spec_opposite()),
    ensures
        eval_outcome(g, w) == (true, Some(s)),
{
}

/// Law: a full grid with no completed line is a draw. Terminal-state
/// evaluation reports the game over and leaves the cached winner alone, so
/// a board that was never won reports the draw as None.
pub proof fn lemma_full_board_draw(g: Seq<Option<PlayerSymbol>>, w: Option<PlayerSymbol>)
    requires
        grid_full(g),
        first_win(g) is None,
    ensures
        eval_outcome(g, w) == (true, w),
{
}

/// The 3x3 playing field: nine cells in row-major order, each empty or
/// occupied by one symbol, the fixed dimensions, and the cached winner of
/// the most recent terminal-state evaluation that found a completed line.
pub struct Board {
    pub cells: Vec<Option<PlayerSymbol>>,
    pub width: u8,
    pub height: u8,
    pub winner: Option<PlayerSymbol>,
}

impl Board {
    /// Structural validity: nine cells and the fixed 3x3 dimensions.
    pub open spec fn wf(self) -> bool {
        self.cells@.len() == 9 && self.width == 3 && self.height == 3
    }

    /// The cell sequence, the board's mathematical content.
    pub open spec fn grid(self) -> Seq<Option<PlayerSymbol>> {
        self.cells@
    }

    /// Creates the empty board: all nine cells empty, no winner cached.
    pub fn new() -> (b: Board)
        ensures
            b.wf(),
            b.grid() == empty_grid(),
            b.winner is None,
    {
        Board::default()
    }

    /// Writes `symbol` into cell (x, y). Rejects coordinates off the grid
    /// with `OutOfBounds` and an occupied target cell with `CellOccupied`,
    /// leaving the board unchanged in both cases; otherwise the one cell is
    /// set and nothing else moves - in particular the winner cache is not
    /// refreshed here, terminal-state evaluation is a separate query.
    pub fn set(&mut self, x: u8, y: u8, symbol: PlayerSymbol) -> (r: Result<(), GameError>)
        requires
            old(self).wf(),
        ensures
            final(self).wf(),
            final(self).width == old(self).width,
            final(self).height == old(self).height,
            final(self).winner == old(self).winner,
            !in_bounds(x as int, y as int) ==> r == Err::<(), GameError>(GameError::OutOfBounds)
                && *final(self) == *old(self),
            in_bounds(x as int, y as int) && grid_at(old(self).grid(), x as int, y as int) is Some
                ==> r == Err::<(), GameError>(GameError::CellOccupied) && *final(self) == *old(
                self,
            ),
            in_bounds(x as int, y as int) && grid_at(old(self).grid(), x as int, y as int) is None
                ==> r == Ok::<(), GameError>(()) && final(self).grid() == grid_place(
                old(self).grid(),
                x as int,
                y as int,
                symbol,
            ),
    {
        if x >= self.width || y >= self.height {
            return Err(GameError::OutOfBounds);
        }
        let idx: usize = (y as usize) * 3 + (x as usize);
        if self.cells[idx].is_some() {
            return Err(GameError::CellOccupied);
        }
        self.cells.set(idx, Some(symbol));
        Ok(())
    }

    /// The occupant of cell (x, y), or None both for an empty cell and for
    /// coordinates off the grid - the two are deliberately conflated, as
    /// `grid_at` records.
    pub fn get(&self, x: u8, y: u8) -> (r: Option<PlayerSymbol>)
        requires
            self.wf(),
        ensures
            r == grid_at(self.grid(), x as int, y as int),
    {
        if x >= self.width || y >= self.height {
            return None;
        }
        self.cells[(y as usize) * 3 + (x as usize)]
    }

    /// True when every listed cell reads, through `get`, as occupied and all
    /// reads agree on the symbol: an empty or out-of-bounds cell anywhere in
    /// the list, or a symbol mismatch, yields false. The building block of
    /// win detection, always called with one of the eight fixed lines.
    pub fn is_win_vec(&self, cells: Vec<(u8, u8)>) -> (r: bool)
        requires
            self.wf(),
        ensures
            r <==> (forall|i: int|
                0 <= i < cells@.len() ==> #[trigger] grid_at(
                    self.grid(),
                    cells@[i].0 as int,
                    cells@[i].1 as int,
                ) is Some && grid_at(self.grid(), cells@[i].0 as int, cells@[i].1 as int)
                    == grid_at(self.grid(), cells@[0].0 as int, cells@[0].1 as int)),
            cells@.len() == 3 ==> (r <==> triple_owner(
                self.grid(),
                cells@[0].0 as int,
                cells@[0].1 as int,
                cells@[1].0 as int,
                cells@[1].1 as int,
                cells@[2].0 as int,
                cells@[2].1 as int,
            ) is Some),
    {
        let mut player: Option<PlayerSymbol> = None;
        let mut i: usize = 0;
        let n = cells.len();
        while i < n
            invariant
                self.wf(),
                i <= n,
                n == cells@.len(),
                i > 0 ==> player == grid_at(self.grid(), cells@[0].0 as int, cells@[0].1 as int)
                    && player is Some,
                i == 0 ==> player is None,
                forall|j: int|
                    0 <= j < i ==> #[trigger] grid_at(
                        self.grid(),
                        cells@[j].0 as int,
                        cells@[j].1 as int,
                    ) is Some && grid_at(self.grid(), cells@[j].0 as int, cells@[j].1 as int)
                        == grid_at(self.grid(), cells@[0].0 as int, cells@[0].1 as int),
            decreases n - i,
        {
            let (x, y) = cells[i];
            if let Some(p) = self.get(x, y) {
                match player {
                    None => {
                        player = Some(p);
                    },
                    Some(q) => {
                        if q != p {
                            return false;
                        }
                    },
                }
            } else {
                return false;
            }
            i += 1;
        }
        true
    }

    /// Overwrites the cached winner.
    pub fn set_winner(&mut self, symbol: Option<PlayerSymbol>)
        ensures
            final(self).winner == symbol,
            final(self).cells == old(self).cells,
            final(self).width == old(self).width,
            final(self).height == old(self).height,
    {
        self.winner = symbol;
    }

    /// One terminal-state evaluation. Scans the three rows top to bottom,
    /// the three columns left to right, then the two diagonals; on the first
    /// completed line it caches that line's owner as the winner and reports
    /// the game over without looking further. With no completed line it
    /// reports the game over exactly when the grid is full, leaving the
    /// cached winner alone (None signals the draw). No cell is ever touched.
    pub fn find_win(&mut self) -> (r: bool)
        requires
            old(self).wf(),
        ensures
            final(self).cells == old(self).cells,
            final(self).width == old(self).width,
            final(self).height == old(self).height,
            (r, final(self).winner) == eval_outcome(old(self).grid(), old(self).winner),
    {
        let ghost g = self.grid();
        // Rows, top to bottom.
        let mut y: u8 = 0;
        while y < 3
            invariant
                self.wf(),
                self == old(self),
                g == self.grid(),
                y <= 3,
                forall|y0: int| 0 <= y0 < y ==> #[trigger] row_owner(g, y0) is None,
            decreases 3 - y,
        {
            let cells = vec![(0u8, y), (1u8, y), (2u8, y)];
            let ghost cs = cells@;
            let win = self.is_win_vec(cells);
            proof {
                assert(cs[0] == (0u8, y) && cs[1] == (1u8, y) && cs[2] == (2u8, y));
                assert(win <==> row_owner(g, y as int) is Some);
            }
            if win {
                let w = self.get(0, y);
                proof {
                    assert(w == row_owner(g, y as int));
                }
                self.set_winner(w);
                return true;
            }
            y += 1;
        }
        // Columns, left to right.
        let mut x: u8 = 0;
        while x < 3
            invariant
                self.wf(),
                self == old(self),
                g == self.grid(),
                x <= 3,
                forall|y0: int| 0 <= y0 < 3 ==> #[trigger] row_owner(g, y0) is None,
                forall|x0: int| 0 <= x0 < x ==> #[trigger] col_owner(g, x0) is None,
            decreases 3 - x,
        {
            let cells = vec![(x, 0u8), (x, 1u8), (x, 2u8)];
            let ghost cs = cells@;
            let win = self.is_win_vec(cells);
            proof {
                assert(cs[0] == (x, 0u8) && cs[1] == (x, 1u8) && cs[2] == (x, 2u8));
                assert(win <==> col_owner(g, x as int) is Some);
            }
            if win {
                let w = self.get(x, 0);
                proof {
                    assert(w == col_owner(g, x as int));
                }
                self.set_winner(w);
                return true;
            }
            x += 1;
        }
        // The two diagonals.
        let cells = vec![(0u8, 0u8), (1u8, 1u8), (2u8, 2u8)];
        let ghost cs = cells@;
        let win = self.is_win_vec(cells);
        proof {
            assert(cs[0] == (0u8, 0u8) && cs[1] == (1u8, 1u8) && cs[2] == (2u8, 2u8));
            assert(win <==> diag_owner(g) is Some);
        }
        if win {
            let w = self.get(0, 0);
            proof {
                assert(w == diag_owner(g));
            }
            self.set_winner(w);
            return true;
        }
        let cells = vec![(2u8, 0u8), (1u8, 1u8), (0u8, 2u8)];
        let ghost cs = cells@;
        let win = self.is_win_vec(cells);
        proof {
            assert(cs[0] == (2u8, 0u8) && cs[1] == (1u8, 1u8) && cs[2] == (0u8, 2u8));
            assert(win <==> anti_diag_owner(g) is Some);
        }
        if win {
            let w = self.get(2, 0);
            proof {
                assert(w == anti_diag_owner(g));
            }
            self.set_winner(w);
            return true;
        }
        // No completed line: the game is over exactly when the grid is full.
        let mut y: u8 = 0;
        while y < 3
            invariant
                self.wf(),
                self == old(self),
                g == self.grid(),
                y <= 3,
                first_win(g) is None,
                forall|x0: int, y0: int|
                    0 <= y0 < y && 0 <= x0 < 3 ==> #[trigger] grid_at(g, x0, y0) is Some,
            decreases 3 - y,
        {
            let mut x: u8 = 0;
            while x < 3
                invariant
                    self.wf(),
                    self == old(self),
                    g == self.grid(),
                    y < 3,
                    x <= 3,
                    first_win(g) is None,
                    forall|x0: int, y0: int|
                        0 <= y0 < y && 0 <= x0 < 3 ==> #[trigger] grid_at(g, x0, y0) is Some,
                    forall|x0: int| 0 <= x0 < x ==> #[trigger] grid_at(g, x0, y as int) is Some,
                decreases 3 - x,
            {
                if self.get(x, y).is_none() {
                    proof {
                        assert(!grid_full(g));
                    }
                    return false;
                }
                x += 1;
            }
            y += 1;
        }
        proof {
            assert(grid_full(g));
        }
        true
    }

    /// Terminal-state query: true when the game is over, by a completed line
    /// or a full grid. Delegates to `find_win`, so a found line's owner is
    /// cached as a side effect; the cells are never touched.
    pub fn is_game_over(&mut self) -> (r: bool)
        requires
            old(self).wf(),
        ensures
            final(self).cells == old(self).cells,
            final(self).width == old(self).width,
            final(self).height == old(self).height,
            (r, final(self).winner) == eval_outcome(old(self).grid(), old(self).winner),
    {
        self.find_win()
    }

    /// The winner, if there is one: re-evaluates the terminal state, then
    /// surfaces the cached winner only when the board is presently terminal,
    /// and None otherwise - a stale cache is never reported. None with a
    /// terminal board signals the draw.
    pub fn get_winner(&mut self) -> (r: Option<PlayerSymbol>)
        requires
            old(self).wf(),
        ensures
            final(self).cells == old(self).cells,
            final(self).width == old(self).width,
            final(self).height == old(self).height,
            ({
                let (over, w) = eval_outcome(old(self).grid(), old(self).winner);
                final(self).winner == w && r == (if over {
                    w
                } else {
                    None::<PlayerSymbol>
                })
            }),
    {
        if self.find_win() {
            self.winner
        } else {
            None
        }
    }
}

impl Default for Board {
    /// The empty board: nine empty cells, 3x3, no winner cached.
    fn default() -> (b: Board)
        ensures
            b.wf(),
            b.grid() == empty_grid(),
            b.winner is None,
    {
        let mut cells: Vec<Option<PlayerSymbol>> = Vec::new();
        let mut i: usize = 0;
        while i < 9
            invariant
                i <= 9,
                cells@.len() == i,
                forall|j: int| 0 <= j < i ==> cells@[j] is None,
            decreases 9 - i,
        {
            cells.push(None);
            i += 1;
        }
        proof {
            assert(cells@ =~= empty_grid());
        }
        Board { cells, width: 3, height: 3, winner: None }
    }
}

} // verus!
