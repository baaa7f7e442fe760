use noughts_and_crosses::board::Board;
use noughts_and_crosses::game_error::GameError;
use noughts_and_crosses::player_symbol::PlayerSymbol;

fn snapshot(b: &Board) -> Vec<Option<PlayerSymbol>> {
    let mut cells = Vec::new();
    for y in 0..3u8 {
        for x in 0..3u8 {
            cells.push(b.get(x, y));
        }
    }
    cells
}

#[test]
fn place_then_get_returns_symbol() {
    let mut b = Board::new();
    assert_eq!(b.set(1, 2, PlayerSymbol::Cross), Ok(()));
    assert_eq!(b.get(1, 2), Some(PlayerSymbol::Cross));
    assert_eq!(b.set(0, 0, PlayerSymbol::Nought), Ok(()));
    assert_eq!(b.get(0, 0), Some(PlayerSymbol::Nought));
}

#[test]
fn place_on_occupied_cell_fails_and_changes_nothing() {
    let mut b = Board::new();
    assert_eq!(b.set(1, 1, PlayerSymbol::Cross), Ok(()));
    let before = snapshot(&b);
    assert_eq!(b.set(1, 1, PlayerSymbol::Nought), Err(GameError::CellOccupied));
    assert_eq!(snapshot(&b), before);
    assert_eq!(b.get(1, 1), Some(PlayerSymbol::Cross));
}

#[test]
fn place_out_of_bounds_fails_and_changes_nothing() {
    let mut b = Board::new();
    assert_eq!(b.set(0, 1, PlayerSymbol::Cross), Ok(()));
    let before = snapshot(&b);
    assert_eq!(b.set(3, 0, PlayerSymbol::Nought), Err(GameError::OutOfBounds));
    assert_eq!(b.set(0, 3, PlayerSymbol::Nought), Err(GameError::OutOfBounds));
    assert_eq!(b.set(255, 255, PlayerSymbol::Nought), Err(GameError::OutOfBounds));
    assert_eq!(snapshot(&b), before);
}

#[test]
fn get_conflates_empty_and_out_of_bounds() {
    let b = Board::new();
    assert_eq!(b.get(0, 0), None);
    assert_eq!(b.get(3, 0), None);
    assert_eq!(b.get(0, 3), None);
    assert_eq!(b.get(200, 200), None);
}

#[test]
fn terminal_evaluation_is_idempotent() {
    // A board that is not terminal.
    let mut b = Board::new();
    assert_eq!(b.set(0, 0, PlayerSymbol::Cross), Ok(()));
    let over1 = b.is_game_over();
    let w1 = b.get_winner();
    let over2 = b.is_game_over();
    let w2 = b.get_winner();
    assert_eq!((over1, w1), (over2, w2));
    assert_eq!((over1, w1), (false, None));

    // A board that is won.
    let mut b = Board::new();
    for x in 0..3u8 {
        assert_eq!(b.set(x, 2, PlayerSymbol::Nought), Ok(()));
    }
    let over1 = b.is_game_over();
    let w1 = b.get_winner();
    let over2 = b.is_game_over();
    let w2 = b.get_winner();
    assert_eq!((over1, w1), (over2, w2));
    assert_eq!((over1, w1), (true, Some(PlayerSymbol::Nought)));
}

#[test]
fn row_win_in_any_order() {
    // Cross completes the top row, with Nought on three quiet cells.
    let orders: [[(u8, u8); 3]; 3] =
        [[(0, 0), (1, 0), (2, 0)], [(2, 0), (0, 0), (1, 0)], [(1, 0), (2, 0), (0, 0)]];
    let noughts: [(u8, u8); 3] = [(0, 1), (1, 2), (2, 1)];
    for order in orders.iter() {
        let mut b = Board::new();
        for i in 0..3 {
            let (x, y) = order[i];
            assert_eq!(b.set(x, y, PlayerSymbol::Cross), Ok(()));
            let (nx, ny) = noughts[i];
            assert_eq!(b.set(nx, ny, PlayerSymbol::Nought), Ok(()));
        }
        assert!(b.is_game_over());
        assert_eq!(b.get_winner(), Some(PlayerSymbol::Cross));
    }
}

#[test]
fn column_win() {
    let mut b = Board::new();
    assert_eq!(b.set(1, 0, PlayerSymbol::Nought), Ok(()));
    assert_eq!(b.set(1, 1, PlayerSymbol::Nought), Ok(()));
    assert_eq!(b.set(1, 2, PlayerSymbol::Nought), Ok(()));
    assert_eq!(b.get_winner(), Some(PlayerSymbol::Nought));
}

#[test]
fn diagonal_win() {
    let mut b = Board::new();
    assert_eq!(b.set(0, 0, PlayerSymbol::Cross), Ok(()));
    assert_eq!(b.set(1, 1, PlayerSymbol::Cross), Ok(()));
    assert_eq!(b.set(2, 2, PlayerSymbol::Cross), Ok(()));
    assert_eq!(b.get_winner(), Some(PlayerSymbol::Cross));
}

#[test]
fn anti_diagonal_win() {
    let mut b = Board::new();
    assert_eq!(b.set(2, 0, PlayerSymbol::Cross), Ok(()));
    assert_eq!(b.set(1, 1, PlayerSymbol::Cross), Ok(()));
    assert_eq!(b.set(0, 2, PlayerSymbol::Cross), Ok(()));
    assert_eq!(b.get_winner(), Some(PlayerSymbol::Cross));
}

#[test]
fn full_board_without_line_is_a_draw() {
    // Rows X O X / O X O / O X O: no row, column or diagonal is uniform.
    let mut b = Board::new();
    let x = PlayerSymbol::Cross;
    let o = PlayerSymbol::Nought;
    let rows = [[x, o, x], [o, x, o], [o, x, o]];
    for y in 0..3u8 {
        for xc in 0..3u8 {
            assert_eq!(b.set(xc, y, rows[y as usize][xc as usize]), Ok(()));
        }
    }
    assert!(b.is_game_over());
    assert_eq!(b.get_winner(), None);
}

#[test]
fn is_win_vec_detects_uniform_lines_only() {
    let mut b = Board::new();
    assert_eq!(b.set(0, 0, PlayerSymbol::Cross), Ok(()));
    assert_eq!(b.set(1, 0, PlayerSymbol::Cross), Ok(()));
    // A cell of the line is still empty.
    assert!(!b.is_win_vec(vec![(0, 0), (1, 0), (2, 0)]));
    assert_eq!(b.set(2, 0, PlayerSymbol::Nought), Ok(()));
    // The line is full but mixed.
    assert!(!b.is_win_vec(vec![(0, 0), (1, 0), (2, 0)]));
    assert_eq!(b.set(0, 1, PlayerSymbol::Cross), Ok(()));
    assert_eq!(b.set(0, 2, PlayerSymbol::Cross), Ok(()));
    // Column 0 is uniformly Cross.
    assert!(b.is_win_vec(vec![(0, 0), (0, 1), (0, 2)]));
}

#[test]
fn stale_cached_winner_is_not_surfaced() {
    let mut b = Board::new();
    b.set_winner(Some(PlayerSymbol::Cross));
    // The board is not terminal, so the cache is not reported.
    assert_eq!(b.get_winner(), None);
    assert!(!b.is_game_over());
}

#[test]
fn first_line_in_scan_order_decides_double_wins() {
    // Structurally impossible under legal play: two complete lines of
    // different symbols. The row, scanned first, decides.
    let mut b = Board::new();
    for x in 0..3u8 {
        assert_eq!(b.set(x, 1, PlayerSymbol::Nought), Ok(()));
    }
    for y in 0..3u8 {
        if y != 1 {
            assert_eq!(b.set(2, y, PlayerSymbol::Cross), Ok(()));
        }
    }
    // Completing column 2 with Cross would need (2,1), which Nought holds;
    // instead give Cross the top row besides its column cells.
    assert_eq!(b.set(0, 0, PlayerSymbol::Cross), Ok(()));
    assert_eq!(b.set(1, 0, PlayerSymbol::Cross), Ok(()));
    // Both the top row (Cross) and the middle row (Nought) are complete; the
    // top row comes first in scan order.
    assert_eq!(b.get_winner(), Some(PlayerSymbol::Cross));
}
