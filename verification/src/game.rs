use rand::Rng;
use vstd::prelude::*;

verus! {

/// A cell's mark: one of the two player symbols, or the empty placeholder.
#[derive(Debug, Clone, Copy, PartialEq, Eq, Structural)]
pub enum Player {
    X,
    O,
    Empty,
}

/// The game's status: still running, won by a mark, or drawn.
#[derive(Debug, Clone, Copy, PartialEq, Eq, Structural)]
pub enum GameStatus {
    InProgress,
    Winner(Player),
    Draw,
}

/// The three tiers of the automated opponent.
#[derive(Debug, Clone, Copy, PartialEq, Eq, Structural)]
pub enum Difficulty {
    Easy,
    Medium,
    Hard,
}

/// The 3x3 grid in row-major order, the mark whose turn it is, and the
/// current status.
#[derive(Debug, Clone, Copy, PartialEq, Eq)]
pub struct Board {
    pub cells: [Player; 9],
    pub current_player: Player,
    pub status: GameStatus,
}

/// The cell of grid `s` at row `r`, column `c` (row-major order).
pub open spec fn cell_at(s: Seq<Player>, r: int, c: int) -> Player {
    s[3 * r + c]
}

/// (r, c) names a cell of the 3x3 grid.
pub open spec fn on_grid(r: int, c: int) -> bool {
    0 <= r < 3 && 0 <= c < 3
}

/// Row `r` is fully occupied by one mark.
pub open spec fn row_won(s: Seq<Player>, r: int) -> bool {
    &&& cell_at(s, r, 0) != Player::Empty
    &&& cell_at(s, r, 0) == cell_at(s, r, 1)
    &&& cell_at(s, r, 1) == cell_at(s, r, 2)
}

/// Column `c` is fully occupied by one mark.
pub open spec fn col_won(s: Seq<Player>, c: int) -> bool {
    &&& cell_at(s, 0, c) != Player::Empty
    &&& cell_at(s, 0, c) == cell_at(s, 1, c)
    &&& cell_at(s, 1, c) == cell_at(s, 2, c)
}

/// The main diagonal is fully occupied by one mark.
pub open spec fn diag_won(s: Seq<Player>) -> bool {
    &&& cell_at(s, 0, 0) != Player::Empty
    &&& cell_at(s, 0, 0) == cell_at(s, 1, 1)
    &&& cell_at(s, 1, 1) == cell_at(s, 2, 2)
}

/// The anti-diagonal is fully occupied by one mark.
pub open spec fn anti_diag_won(s: Seq<Player>) -> bool {
    &&& cell_at(s, 0, 2) != Player::Empty
    &&& cell_at(s, 0, 2) == cell_at(s, 1, 1)
    &&& cell_at(s, 1, 1) == cell_at(s, 2, 0)
}

/// Every cell of the grid holds a mark.
pub open spec fn grid_full(s: Seq<Player>) -> bool {
    forall|i: int| 0 <= i < 9 ==> s[i] != Player::Empty
}

/// The status a grid resolves to, scanning the three rows, the three
/// columns, then the two diagonals in that fixed order and stopping at the
/// first complete line; with no complete line the game runs while a cell is
/// empty and is a draw on a full grid.
pub open spec fn status_of(s: Seq<Player>) -> GameStatus {
    if row_won(s, 0) {
        GameStatus::Winner(cell_at(s, 0, 0))
    } else if row_won(s, 1) {
        GameStatus::Winner(cell_at(s, 1, 0))
    } else if row_won(s, 2) {
        GameStatus::Winner(cell_at(s, 2, 0))
    } else if col_won(s, 0) {
        GameStatus::Winner(cell_at(s, 0, 0))
    } else if col_won(s, 1) {
        GameStatus::Winner(cell_at(s, 0, 1))
    } else if col_won(s, 2) {
        GameStatus::Winner(cell_at(s, 0, 2))
    } else if diag_won(s) {
        GameStatus::Winner(cell_at(s, 0, 0))
    } else if anti_diag_won(s) {
        GameStatus::Winner(cell_at(s, 0, 2))
    } else if !grid_full(s) {
        GameStatus::InProgress
    } else {
        GameStatus::Draw
    }
}

impl Player {
    /// The mark to move after `self` has moved; a stray empty mark is
    /// steered back to X.
    pub open spec fn spec_next(self) -> Player {
        match self {
            Player::X => Player::O,
            Player::O => Player::X,
            Player::Empty => Player::X,
        }
    }

    /// The opposing mark; the empty mark has no opponent.
    pub open spec fn spec_opponent(self) -> Player {
        match self {
            Player::X => Player::O,
            Player::O => Player::X,
            Player::Empty => Player::Empty,
        }
    }

    /// The symbol a renderer prints for this mark.
    pub open spec fn spec_symbol(self) -> char {
        match self {
            Player::X => 'X',
            Player::O => 'O',
            Player::Empty => ' ',
        }
    }

    /// The printable symbol of the mark: the player's letter, or a blank
    /// for an empty cell.
    pub fn symbol(&self) -> (c: char)
        ensures
            c == self.spec_symbol(),
    {
        match self {
            Player::X => 'X',
            Player::O => 'O',
            Player::Empty => ' ',
        }
    }
}

/// The starting position: an empty grid, X to move, game running.
pub open spec fn is_initial(b: Board) -> bool {
    &&& forall|i: int| 0 <= i < 9 ==> b.cells@[i] == Player::Empty
    &&& b.current_player == Player::X
    &&& b.status == GameStatus::InProgress
}

impl Board {
    /// The cell at row `r`, column `c`.
    pub open spec fn at(self, r: int, c: int) -> Player {
        cell_at(self.cells@, r, c)
    }

    /// The status the grid resolves to.
    pub open spec fn spec_status(self) -> GameStatus {
        status_of(self.cells@)
    }

    /// A legal move: the game is running and the target is an empty cell
    /// of the grid.
    pub open spec fn move_legal(self, r: int, c: int) -> bool {
        &&& self.status == GameStatus::InProgress
        &&& on_grid(r, c)
        &&& self.at(r, c) == Player::Empty
    }

    /// Well-formed: the stored status agrees with the grid, and the mark
    /// to move is a real player.
    pub open spec fn wf(self) -> bool {
        &&& self.status == self.spec_status()
        &&& self.current_player != Player::Empty
    }
}

impl Default for Board {
    /// The default state, which "new game" restores: empty grid, X to
    /// move, game in progress.
    fn default() -> (b: Board)
        ensures
            is_initial(b),
            b.wf(),
    {
        Board {
            cells: [
                Player::Empty,
                Player::Empty,
                Player::Empty,
                Player::Empty,
                Player::Empty,
                Player::Empty,
                Player::Empty,
                Player::Empty,
                Player::Empty,
            ],
            current_player: Player::X,
            status: GameStatus::InProgress,
        }
    }
}

impl Board {
    /// A fresh board in the default state.
    pub fn new() -> (b: Board)
        ensures
            is_initial(b),
            b.wf(),
    {
        Board::default()
    }

    /// Hand the turn to the other mark; the grid and the status stay as
    /// they are.
    pub fn switch_player(&mut self)
        ensures
            final(self).current_player == old(self).current_player.spec_next(),
            final(self).cells == old(self).cells,
            final(self).status == old(self).status,
    {
        self.current_player = match self.current_player {
            Player::X => Player::O,
            Player::O => Player::X,
            Player::Empty => Player::X,
        };
    }

    /// Recompute the status from the grid; nothing else changes.
    pub fn update_game_status(&mut self)
        ensures
            final(self).status == old(self).spec_status(),
            final(self).cells == old(self).cells,
            final(self).current_player == old(self).current_player,
    {
        self.status = status_of_cells(&self.cells);
    }
}

impl Board {
    /// Apply the current player's mark at (row, col).  The move fails,
    /// leaving the board untouched, when the game is over, the coordinates
    /// are off the grid, or the cell is taken; on success the mark is
    /// placed, the status recomputed, and the turn passes while the game
    /// still runs.
    pub fn make_move(&mut self, row: usize, col: usize) -> (ok: bool)
        ensures
            ok == old(self).move_legal(row as int, col as int),
            !ok ==> *final(self) == *old(self),
            ok ==> final(self).cells@ == old(self).cells@.update(
                3 * (row as int) + (col as int),
                old(self).current_player,
            ),
            ok ==> final(self).status == final(self).spec_status(),
            ok ==> final(self).current_player == (if final(self).status is InProgress {
                old(self).current_player.spec_next()
            } else {
                old(self).current_player
            }),
            old(self).wf() ==> final(self).wf(),
    {
        if self.status != GameStatus::InProgress {
            return false;
        }
        if row >= 3 || col >= 3 {
            return false;
        }
        let idx: usize = 3 * row + col;
        if self.cells[idx] != Player::Empty {
            return false;
        }
        let mark = self.current_player;
        self.cells[idx] = mark;
        self.update_game_status();
        if self.status == GameStatus::InProgress {
            self.switch_player();
        }
        true
    }

    /// The status the grid would resolve to if `mark` stood at (row, col),
    /// computed on a copy: the board itself is untouched.
    pub fn status_with_move(&self, row: usize, col: usize, mark: Player) -> (st: GameStatus)
        requires
            row < 3,
            col < 3,
        ensures
            st == status_of(self.cells@.update(3 * (row as int) + (col as int), mark)),
    {
        let mut grid = self.cells;
        let idx: usize = 3 * row + col;
        grid[idx] = mark;
        status_of_cells(&grid)
    }
}

/// Placing `mark` on the empty cell at flat index `i` completes a line and
/// makes `mark` the detected winner.
pub open spec fn wins_at(s: Seq<Player>, mark: Player, i: int) -> bool {
    &&& 0 <= i < 9
    &&& s[i] == Player::Empty
    &&& status_of(s.update(i, mark)) == GameStatus::Winner(mark)
}

/// (r, c) is the first cell in row-major order where `mark` wins at once.
pub open spec fn first_winning_cell(s: Seq<Player>, mark: Player, r: int, c: int) -> bool {
    &&& on_grid(r, c)
    &&& wins_at(s, mark, 3 * r + c)
    &&& forall|i: int| 0 <= i < 3 * r + c ==> !wins_at(s, mark, i)
}

impl Board {
    /// Scan the grid in row-major order for a cell where `mark` would
    /// complete a line at once; the first such cell is returned.
    pub fn find_winning_move(&self, mark: Player) -> (mv: Option<(usize, usize)>)
        ensures
            match mv {
                Some(rc) => first_winning_cell(self.cells@, mark, rc.0 as int, rc.1 as int),
                None => forall|i: int| 0 <= i < 9 ==> !wins_at(self.cells@, mark, i),
            },
    {
        let mut row: usize = 0;
        while row < 3
            invariant
                row <= 3,
                forall|i: int| 0 <= i < 3 * row ==> !wins_at(self.cells@, mark, i),
            decreases 3 - row,
        {
            let mut col: usize = 0;
            while col < 3
                invariant
                    row < 3,
                    col <= 3,
                    forall|i: int| 0 <= i < 3 * row + col ==> !wins_at(self.cells@, mark, i),
                decreases 3 - col,
            {
                let idx: usize = 3 * row + col;
                if self.cells[idx] == Player::Empty {
                    let st = self.status_with_move(row, col, mark);
                    if st == GameStatus::Winner(mark) {
                        return Some((row, col));
                    }
                }
                col += 1;
            }
            row += 1;
        }
        None
    }
}

/// Mark `m` owns a complete line: one of the three rows, three columns, or
/// two diagonals holds `m` in all three cells.
pub open spec fn line_won_by(s: Seq<Player>, m: Player) -> bool {
    &&& m != Player::Empty
    &&& {
        ||| (cell_at(s, 0, 0) == m && cell_at(s, 0, 1) == m && cell_at(s, 0, 2) == m)
        ||| (cell_at(s, 1, 0) == m && cell_at(s, 1, 1) == m && cell_at(s, 1, 2) == m)
        ||| (cell_at(s, 2, 0) == m && cell_at(s, 2, 1) == m && cell_at(s, 2, 2) == m)
        ||| (cell_at(s, 0, 0) == m && cell_at(s, 1, 0) == m && cell_at(s, 2, 0) == m)
        ||| (cell_at(s, 0, 1) == m && cell_at(s, 1, 1) == m && cell_at(s, 2, 1) == m)
        ||| (cell_at(s, 0, 2) == m && cell_at(s, 1, 2) == m && cell_at(s, 2, 2) == m)
        ||| (cell_at(s, 0, 0) == m && cell_at(s, 1, 1) == m && cell_at(s, 2, 2) == m)
        ||| (cell_at(s, 0, 2) == m && cell_at(s, 1, 1) == m && cell_at(s, 2, 0) == m)
    }
}

/// Status detection is sound and complete for every filling of the grid:
/// the resolved status is `Winner` exactly when some mark owns a complete
/// line, and then the named winner owns one; with no mark owning a line it
/// is `Draw` exactly on a full grid and `InProgress` otherwise; and a mark
/// that owns a line unopposed is the named winner.
pub proof fn lemma_status_characterization(s: Seq<Player>)
    requires
        s.len() == 9,
    ensures
        (status_of(s) is Winner) <==> exists|m: Player| line_won_by(s, m),
        status_of(s) matches GameStatus::Winner(w) ==> line_won_by(s, w),
        (status_of(s) == GameStatus::Draw) <==> (grid_full(s) && forall|m: Player|
            !line_won_by(s, m)),
        (status_of(s) == GameStatus::InProgress) <==> (!grid_full(s) && forall|m: Player|
            !line_won_by(s, m)),
        forall|m: Player|
            line_won_by(s, m) && !line_won_by(s, m.spec_opponent()) ==> status_of(s)
                == GameStatus::Winner(m),
{
    assert(row_won(s, 0) ==> line_won_by(s, cell_at(s, 0, 0)));
    assert(row_won(s, 1) ==> line_won_by(s, cell_at(s, 1, 0)));
    assert(row_won(s, 2) ==> line_won_by(s, cell_at(s, 2, 0)));
    assert(col_won(s, 0) ==> line_won_by(s, cell_at(s, 0, 0)));
    assert(col_won(s, 1) ==> line_won_by(s, cell_at(s, 0, 1)));
    assert(col_won(s, 2) ==> line_won_by(s, cell_at(s, 0, 2)));
    assert(diag_won(s) ==> line_won_by(s, cell_at(s, 0, 0)));
    assert(anti_diag_won(s) ==> line_won_by(s, cell_at(s, 0, 2)));
    assert(forall|m: Player|
        line_won_by(s, m) ==> (row_won(s, 0) || row_won(s, 1) || row_won(s, 2) || col_won(s, 0)
            || col_won(s, 1) || col_won(s, 2) || diag_won(s) || anti_diag_won(s)));
}

/// The hard tier's tactical guarantees: with an immediate win on the board
/// its choice is the first winning cell in row-major order, and with no
/// immediate win but an opposing one its choice is the first cell that
/// blocks the opponent.
pub proof fn lemma_hard_tactics(b: Board, r: int, c: int)
    requires
        b.hard_choice_ok(r, c),
    ensures
        (exists|i: int| wins_at(b.cells@, b.current_player, i)) ==> first_winning_cell(
            b.cells@,
            b.current_player,
            r,
            c,
        ),
        (forall|i: int| !wins_at(b.cells@, b.current_player, i)) && (exists|i: int|
            wins_at(b.cells@, b.current_player.spec_opponent(), i)) ==> first_winning_cell(
            b.cells@,
            b.current_player.spec_opponent(),
            r,
            c,
        ),
{
}

/// Relies on rand::Rng::gen_range over `0..n`: the result is drawn
/// uniformly from that range, so it lies below `n`; the call panics only
/// on an empty range, which the precondition rules out.
#[verifier::external_body]
fn rand_below(n: usize) -> (r: usize)
    requires
        0 < n,
    ensures
        r < n,
{
    rand::thread_rng().gen_range(0..n)
}

/// Relies on rand::random::<bool>, a fair coin through the standard
/// distribution; nothing is promised of the outcome.
#[verifier::external_body]
fn rand_coin() -> bool {
    rand::random::<bool>()
}

/// (r, c) is one of the four corner cells.
pub open spec fn is_corner(r: int, c: int) -> bool {
    (r == 0 || r == 2) && (c == 0 || c == 2)
}

/// (r, c) is one of the four edge cells: on the grid, neither a corner nor
/// the center.
pub open spec fn is_edge(r: int, c: int) -> bool {
    &&& on_grid(r, c)
    &&& !is_corner(r, c)
    &&& !(r == 1 && c == 1)
}

/// Some corner cell is empty.
pub open spec fn has_empty_corner(s: Seq<Player>) -> bool {
    ||| cell_at(s, 0, 0) == Player::Empty
    ||| cell_at(s, 0, 2) == Player::Empty
    ||| cell_at(s, 2, 0) == Player::Empty
    ||| cell_at(s, 2, 2) == Player::Empty
}

/// Some edge cell is empty.
pub open spec fn has_empty_edge(s: Seq<Player>) -> bool {
    ||| cell_at(s, 0, 1) == Player::Empty
    ||| cell_at(s, 1, 0) == Player::Empty
    ||| cell_at(s, 1, 2) == Player::Empty
    ||| cell_at(s, 2, 1) == Player::Empty
}

impl Board {
    /// The cells the hard tier may pick, in strict priority order: the
    /// first immediate win in row-major order, else the first cell that
    /// blocks the opponent's immediate win, else the center, else any
    /// empty corner, else any empty edge, else any empty cell.
    pub open spec fn hard_choice_ok(self, r: int, c: int) -> bool {
        let s = self.cells@;
        let me = self.current_player;
        let opp = me.spec_opponent();
        if exists|i: int| wins_at(s, me, i) {
            first_winning_cell(s, me, r, c)
        } else if exists|i: int| wins_at(s, opp, i) {
            first_winning_cell(s, opp, r, c)
        } else if cell_at(s, 1, 1) == Player::Empty {
            r == 1 && c == 1
        } else if has_empty_corner(s) {
            is_corner(r, c) && cell_at(s, r, c) == Player::Empty
        } else if has_empty_edge(s) {
            is_edge(r, c) && cell_at(s, r, c) == Player::Empty
        } else {
            on_grid(r, c) && cell_at(s, r, c) == Player::Empty
        }
    }

    /// The cells a tier may pick: the easy and medium tiers may pick any
    /// empty cell, the hard tier only what its priority rules allow.
    pub open spec fn move_allowed(self, d: Difficulty, r: int, c: int) -> bool {
        match d {
            Difficulty::Easy => on_grid(r, c) && self.at(r, c) == Player::Empty,
            Difficulty::Medium => on_grid(r, c) && self.at(r, c) == Player::Empty,
            Difficulty::Hard => self.hard_choice_ok(r, c),
        }
    }
}

/// Whatever branch of the hard tier's cascade applies, the chosen cell is
/// an empty cell of the grid.
pub proof fn lemma_hard_choice_legal(b: Board, r: int, c: int)
    requires
        b.hard_choice_ok(r, c),
    ensures
        on_grid(r, c),
        b.at(r, c) == Player::Empty,
{
}

/// Whichever tier chose, the chosen cell is an empty cell of the grid: the
/// automated opponent never plays an occupied or off-grid cell.
pub proof fn lemma_move_allowed_legal(b: Board, d: Difficulty, r: int, c: int)
    requires
        b.move_allowed(d, r, c),
    ensures
        on_grid(r, c),
        b.at(r, c) == Player::Empty,
{
    if d is Hard {
        lemma_hard_choice_legal(b, r, c);
    }
}

impl Board {
    /// Collect the empty cells and pick one uniformly at random.
    #[verifier::loop_isolation(false)]
    fn get_easy_move(&self) -> (mv: Option<(usize, usize)>)
        ensures
            match mv {
                Some(rc) => on_grid(rc.0 as int, rc.1 as int) && self.at(
                    rc.0 as int,
                    rc.1 as int,
                ) == Player::Empty,
                None => grid_full(self.cells@),
            },
    {
        let mut open_cells: Vec<(usize, usize)> = Vec::new();
        let mut row: usize = 0;
        while row < 3
            invariant
                row <= 3,
                forall|j: int|
                    0 <= j < open_cells@.len() ==> on_grid(
                        open_cells@[j].0 as int,
                        open_cells@[j].1 as int,
                    ) && self.at(open_cells@[j].0 as int, open_cells@[j].1 as int) == Player::Empty,
                open_cells@.len() == 0 ==> forall|i: int|
                    0 <= i < 3 * row ==> self.cells@[i] != Player::Empty,
            decreases 3 - row,
        {
            let mut col: usize = 0;
            while col < 3
                invariant
                    row < 3,
                    col <= 3,
                    forall|j: int|
                        0 <= j < open_cells@.len() ==> on_grid(
                            open_cells@[j].0 as int,
                            open_cells@[j].1 as int,
                        ) && self.at(open_cells@[j].0 as int, open_cells@[j].1 as int)
                            == Player::Empty,
                    open_cells@.len() == 0 ==> forall|i: int|
                        0 <= i < 3 * row + col ==> self.cells@[i] != Player::Empty,
                decreases 3 - col,
            {
                let idx: usize = 3 * row + col;
                if self.cells[idx] == Player::Empty {
                    open_cells.push((row, col));
                }
                col += 1;
            }
            row += 1;
        }
        if open_cells.len() == 0 {
            return None;
        }
        let k = rand_below(open_cells.len());
        Some(open_cells[k])
    }

    /// Half the time the hard tier's choice, half the time a uniformly
    /// random empty cell; the coin is tossed afresh on every call.
    fn get_medium_move(&self) -> (mv: Option<(usize, usize)>)
        ensures
            match mv {
                Some(rc) => on_grid(rc.0 as int, rc.1 as int) && self.at(
                    rc.0 as int,
                    rc.1 as int,
                ) == Player::Empty,
                None => grid_full(self.cells@),
            },
    {
        if rand_coin() {
            let mv = self.get_hard_move();
            proof {
                if let Some(rc) = mv {
                    lemma_hard_choice_legal(*self, rc.0 as int, rc.1 as int);
                }
            }
            mv
        } else {
            self.get_easy_move()
        }
    }

    /// The tiered choice: win now, block the opponent, take the center, a
    /// random empty corner, a random empty edge, then any random empty
    /// cell.
    fn get_hard_move(&self) -> (mv: Option<(usize, usize)>)
        ensures
            match mv {
                Some(rc) => self.hard_choice_ok(rc.0 as int, rc.1 as int),
                None => grid_full(self.cells@),
            },
    {
        // complete an own line first
        if let Some(win) = self.find_winning_move(self.current_player) {
            return Some(win);
        }
        // then deny the opponent a completed line
        let opponent = match self.current_player {
            Player::X => Player::O,
            Player::O => Player::X,
            Player::Empty => Player::Empty,
        };
        if let Some(block) = self.find_winning_move(opponent) {
            return Some(block);
        }
        // the center is the strongest remaining cell
        if self.cells[4] == Player::Empty {
            return Some((1, 1));
        }
        // a corner, chosen uniformly among the empty ones
        let mut open_corners: Vec<(usize, usize)> = Vec::new();
        if self.cells[0] == Player::Empty {
            open_corners.push((0, 0));
        }
        if self.cells[2] == Player::Empty {
            open_corners.push((0, 2));
        }
        if self.cells[6] == Player::Empty {
            open_corners.push((2, 0));
        }
        if self.cells[8] == Player::Empty {
            open_corners.push((2, 2));
        }
        if open_corners.len() > 0 {
            let k = rand_below(open_corners.len());
            return Some(open_corners[k]);
        }
        // an edge, chosen uniformly among the empty ones
        let mut open_edges: Vec<(usize, usize)> = Vec::new();
        if self.cells[1] == Player::Empty {
            open_edges.push((0, 1));
        }
        if self.cells[3] == Player::Empty {
            open_edges.push((1, 0));
        }
        if self.cells[5] == Player::Empty {
            open_edges.push((1, 2));
        }
        if self.cells[7] == Player::Empty {
            open_edges.push((2, 1));
        }
        if open_edges.len() > 0 {
            let k = rand_below(open_edges.len());
            return Some(open_edges[k]);
        }
        // nothing of the above is open: fall back to a random empty cell
        self.get_easy_move()
    }

    /// Let the automated opponent move at the given tier.  On a terminal
    /// or full board nothing happens; otherwise a cell allowed by the tier
    /// is chosen and applied through the same path as a player move, and
    /// the coordinates actually played are returned.
    pub fn ai_move(&mut self, difficulty: Difficulty) -> (mv: Option<(usize, usize)>)
        ensures
            old(self).status != GameStatus::InProgress ==> mv is None && *final(self) == *old(
                self,
            ),
            grid_full(old(self).cells@) ==> mv is None && *final(self) == *old(self),
            old(self).status == GameStatus::InProgress && !grid_full(old(self).cells@) ==> {
                &&& mv matches Some(rc)
                &&& old(self).move_allowed(difficulty, rc.0 as int, rc.1 as int)
                &&& final(self).cells@ == old(self).cells@.update(
                    3 * (rc.0 as int) + (rc.1 as int),
                    old(self).current_player,
                )
                &&& final(self).status == final(self).spec_status()
                &&& final(self).current_player == (if final(self).status is InProgress {
                    old(self).current_player.spec_next()
                } else {
                    old(self).current_player
                })
            },
            old(self).wf() ==> final(self).wf(),
    {
        if self.status != GameStatus::InProgress {
            return None;
        }
        let choice = match difficulty {
            Difficulty::Easy => self.get_easy_move(),
            Difficulty::Medium => self.get_medium_move(),
            Difficulty::Hard => self.get_hard_move(),
        };
        if let Some((row, col)) = choice {
            proof {
                lemma_move_allowed_legal(*self, difficulty, row as int, col as int);
            }
            let applied = self.make_move(row, col);
            assert(applied);
            Some((row, col))
        } else {
            None
        }
    }
}

/// The status of a grid, as a pure function of the nine cells.
#[verifier::loop_isolation(false)]
pub fn status_of_cells(cells: &[Player; 9]) -> (st: GameStatus)
    ensures
        st == status_of(cells@),
{
    // rows
    if cells[0] != Player::Empty && cells[0] == cells[1] && cells[1] == cells[2] {
        return GameStatus::Winner(cells[0]);
    }
    if cells[3] != Player::Empty && cells[3] == cells[4] && cells[4] == cells[5] {
        return GameStatus::Winner(cells[3]);
    }
    if cells[6] != Player::Empty && cells[6] == cells[7] && cells[7] == cells[8] {
        return GameStatus::Winner(cells[6]);
    }
    // columns
    if cells[0] != Player::Empty && cells[0] == cells[3] && cells[3] == cells[6] {
        return GameStatus::Winner(cells[0]);
    }
    if cells[1] != Player::Empty && cells[1] == cells[4] && cells[4] == cells[7] {
        return GameStatus::Winner(cells[1]);
    }
    if cells[2] != Player::Empty && cells[2] == cells[5] && cells[5] == cells[8] {
        return GameStatus::Winner(cells[2]);
    }
    // diagonals
    if cells[0] != Player::Empty && cells[0] == cells[4] && cells[4] == cells[8] {
        return GameStatus::Winner(cells[0]);
    }
    if cells[2] != Player::Empty && cells[2] == cells[4] && cells[4] == cells[6] {
        return GameStatus::Winner(cells[2]);
    }
    // no complete line: in progress while a cell is empty, else a draw
    let mut i: usize = 0;
    while i < 9
        invariant
            i <= 9,
            forall|j: int| 0 <= j < i ==> cells@[j] != Player::Empty,
        decreases 9 - i,
    {
        if cells[i] == Player::Empty {
            return GameStatus::InProgress;
        }
        i += 1;
    }
    GameStatus::Draw
}

} // verus!
