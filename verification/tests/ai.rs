use tictactoe::game::Player::{Empty as E, O, X};
use tictactoe::game::{Board, Difficulty, GameStatus, Player};

/// A board with the given grid and mark to move, its status freshly
/// computed from the grid.
fn make_board(cells: [Player; 9], current: Player) -> Board {
    let mut b = Board { cells, current_player: current, status: GameStatus::InProgress };
    b.update_game_status();
    b
}

#[test]
fn ai_always_plays_a_legal_cell() {
    for difficulty in [Difficulty::Easy, Difficulty::Medium, Difficulty::Hard] {
        for _ in 0..50 {
            let mut b = Board::new();
            while b.status == GameStatus::InProgress {
                let before = b;
                let (r, c) = b.ai_move(difficulty).expect("a running game always has a move");
                assert!(r < 3 && c < 3);
                assert_eq!(before.cells[3 * r + c], E);
                assert_eq!(b.cells[3 * r + c], before.current_player);
            }
            let terminal = b;
            assert_eq!(b.ai_move(difficulty), None);
            assert_eq!(b, terminal);
        }
    }
}

#[test]
fn hard_takes_the_first_winning_cell() {
    // X can win at (0,2) and at (2,0); the row-major first is (0,2)
    let mut b = make_board([X, X, E, X, E, E, E, E, E], X);
    let mv = b.ai_move(Difficulty::Hard);
    assert_eq!(mv, Some((0, 2)));
    assert_eq!(b.status, GameStatus::Winner(X));
}

#[test]
fn hard_blocks_the_opponents_winning_cell() {
    // X has no immediate win; O threatens row 1 at (1,2)
    let mut b = make_board([X, E, E, O, O, E, X, E, E], X);
    let mv = b.ai_move(Difficulty::Hard);
    assert_eq!(mv, Some((1, 2)));
    assert_eq!(b.cells[5], X);
    assert_eq!(b.status, GameStatus::InProgress);
}

#[test]
fn winning_beats_blocking() {
    // X X _ / O O _ / _ _ _, X to move: complete row 0, do not block row 1
    let mut b = make_board([X, X, E, O, O, E, E, E, E], X);
    let mv = b.ai_move(Difficulty::Hard);
    assert_eq!(mv, Some((0, 2)));
    assert_eq!(b.status, GameStatus::Winner(X));
}

#[test]
fn hard_takes_the_open_center() {
    let mut b = make_board([X, E, E, E, E, E, E, E, E], O);
    let mv = b.ai_move(Difficulty::Hard);
    assert_eq!(mv, Some((1, 1)));
}

#[test]
fn center_then_corner_opening() {
    let mut b = Board::new();
    assert!(b.make_move(1, 1));
    assert_eq!(b.cells[4], X);
    assert_eq!(b.current_player, O);
    assert_eq!(b.status, GameStatus::InProgress);
    // no win, no block, center taken: a corner must follow
    let (r, c) = b.ai_move(Difficulty::Hard).expect("the grid is nearly empty");
    let corners = [(0, 0), (0, 2), (2, 0), (2, 2)];
    assert!(corners.contains(&(r, c)));
    assert_eq!(b.cells[3 * r + c], O);
}

#[test]
fn hard_falls_back_to_an_edge() {
    // center and all corners taken, no win or block anywhere: only the
    // edges (0,1) and (2,1) are open
    let mut b = make_board([X, E, O, O, X, X, X, E, O], O);
    let (r, c) = b.ai_move(Difficulty::Hard).expect("two edges are open");
    assert!((r, c) == (0, 1) || (r, c) == (2, 1));
}

#[test]
fn easy_takes_the_only_open_cell() {
    // only (2,2) is empty, and filling it completes no line
    let mut b = make_board([X, O, X, X, O, O, O, X, E], X);
    let mv = b.ai_move(Difficulty::Easy);
    assert_eq!(mv, Some((2, 2)));
    assert_eq!(b.status, GameStatus::Draw);
}

#[test]
fn easy_covers_more_than_one_cell() {
    let mut seen = [false; 9];
    for _ in 0..300 {
        let mut b = Board::new();
        let (r, c) = b.ai_move(Difficulty::Easy).expect("the grid is empty");
        seen[3 * r + c] = true;
    }
    assert!(seen.iter().filter(|&&s| s).count() >= 2);
}

#[test]
fn find_winning_move_scans_row_major() {
    let b = make_board([X, X, E, X, E, E, E, E, E], X);
    assert_eq!(b.find_winning_move(X), Some((0, 2)));
    assert_eq!(b.find_winning_move(O), None);
}
