use vstd::prelude::*;

use crate::address::Address;
use crate::errors::TicTacToeError;

verus! {

/// The mark a player puts on a cell: player 0 plays `X`, player 1 plays `O`.
#[derive(Clone, Copy, Debug, PartialEq, Eq, Structural)]
pub enum Sign {
    X,
    O,
}

/// Where a game stands.
#[derive(Clone, Copy, Debug)]
pub enum GameState {
    Active,
    Tie,
    Won { winner: Address },
}

impl PartialEq for GameState {
    fn eq(&self, other: &GameState) -> (r: bool) {
        match (self, other) {
            (GameState::Active, GameState::Active) => true,
            (GameState::Tie, GameState::Tie) => true,
            (GameState::Won { winner: a }, GameState::Won { winner: b }) => a.same(b),
            _ => false,
        }
    }
}

impl Eq for GameState {
}

impl vstd::std_specs::cmp::PartialEqSpecImpl for GameState {
    open spec fn obeys_eq_spec() -> bool {
        true
    }

    open spec fn eq_spec(&self, other: &GameState) -> bool {
        *self == *other
    }
}

/// A move: the cell at `row` and `column`, each meant to lie in `0..3`.
#[derive(Clone, Copy, Debug, PartialEq, Eq, Structural)]
pub struct Tile {
    pub row: u8,
    pub column: u8,
}

/// The game record. Cell `(row, column)` of the board is `board[3 * row + column]`.
#[derive(Clone, Copy, Debug)]
pub struct TicTacToeGame {
    pub players: [Address; 2],
    pub turn: u8,
    pub board: [Option<Sign>; 9],
    pub state: GameState,
    pub bump: u8,
}

/// The mathematical model of a game record.
pub struct GameView {
    pub players: Seq<Address>,
    pub turn: nat,
    pub board: Seq<Option<Sign>>,
    pub state: GameState,
}

/// Number of marked cells.
pub open spec fn filled_count(cells: Seq<Option<Sign>>) -> nat
    decreases cells.len(),
{
    if cells.len() == 0 {
        0
    } else {
        filled_count(cells.drop_last()) + if cells.last() is Some {
            1nat
        } else {
            0nat
        }
    }
}

pub open spec fn is_full(cells: Seq<Option<Sign>>) -> bool {
    forall|i: int| 0 <= i < cells.len() ==> (#[trigger] cells[i]) is Some
}

/// The three cells of winning line `k`: rows, then columns, then the diagonals.
pub open spec fn line_cells(k: int) -> (int, int, int) {
    if k == 0 {
        (0, 1, 2)
    } else if k == 1 {
        (3, 4, 5)
    } else if k == 2 {
        (6, 7, 8)
    } else if k == 3 {
        (0, 3, 6)
    } else if k == 4 {
        (1, 4, 7)
    } else if k == 5 {
        (2, 5, 8)
    } else if k == 6 {
        (0, 4, 8)
    } else {
        (2, 4, 6)
    }
}

pub open spec fn holds_line(cells: Seq<Option<Sign>>, s: Sign, k: int) -> bool {
    let (a, b, c) = line_cells(k);
    cells[a] == Some(s) && cells[b] == Some(s) && cells[c] == Some(s)
}

pub open spec fn has_won(cells: Seq<Option<Sign>>, s: Sign) -> bool {
    exists|k: int| 0 <= k < 8 && #[trigger] holds_line(cells, s, k)
}

/// The outcome that a board shows: a completed line of `X` or of `O` wins for
/// player 0 or player 1, a full board without one is a tie.
pub open spec fn outcome_of(cells: Seq<Option<Sign>>, players: Seq<Address>) -> GameState {
    if has_won(cells, Sign::X) {
        GameState::Won { winner: players[0] }
    } else if has_won(cells, Sign::O) {
        GameState::Won { winner: players[1] }
    } else if is_full(cells) {
        GameState::Tie
    } else {
        GameState::Active
    }
}

/// Index of the player who moves on `turn`: odd turns belong to player 0.
pub open spec fn mover_index(turn: nat) -> int {
    if turn % 2 == 1 {
        0
    } else {
        1
    }
}

pub open spec fn sign_of(index: int) -> Sign {
    if index == 0 {
        Sign::X
    } else {
        Sign::O
    }
}

pub open spec fn cell_index(tile: Tile) -> int {
    3 * tile.row + tile.column
}

impl GameView {
    /// A fresh game between `players`.
    pub open spec fn fresh(players: Seq<Address>) -> GameView {
        GameView {
            players,
            turn: 1,
            board: Seq::new(9, |i: int| None),
            state: GameState::Active,
        }
    }

    /// The invariant of every reachable game: as many marked cells as turns
    /// played, and a state that agrees with the board.
    pub open spec fn wf(self) -> bool {
        &&& self.players.len() == 2
        &&& self.board.len() == 9
        &&& 1 <= self.turn <= 10
        &&& filled_count(self.board) == self.turn - 1
        &&& self.state == outcome_of(self.board, self.players)
    }

    pub open spec fn is_terminal(self) -> bool {
        !(self.state is Active)
    }

    pub open spec fn current_player(self) -> Address {
        self.players[mover_index(self.turn)]
    }

    /// Why `tile` cannot be played now, checked in this order; `None` if it can.
    pub open spec fn move_error(self, tile: Tile) -> Option<TicTacToeError> {
        if self.is_terminal() {
            Some(TicTacToeError::GameAlreadyOver)
        } else if tile.row >= 3 || tile.column >= 3 {
            Some(TicTacToeError::TileOutOfBounds)
        } else if self.board[cell_index(tile)] is Some {
            Some(TicTacToeError::TileAlreadySet)
        } else {
            None
        }
    }

    /// The game after the current player marks `tile`.
    pub open spec fn after_move(self, tile: Tile) -> GameView {
        let board = self.board.update(cell_index(tile), Some(sign_of(mover_index(self.turn))));
        GameView {
            players: self.players,
            turn: self.turn + 1,
            board,
            state: outcome_of(board, self.players),
        }
    }

    /// One attempted move: a legal one is played, any other changes nothing.
    pub open spec fn step(self, tile: Tile) -> GameView {
        if self.move_error(tile) is None {
            self.after_move(tile)
        } else {
            self
        }
    }

    /// The game after attempting `moves` in order.
    pub open spec fn replay(self, moves: Seq<Tile>) -> GameView
        decreases moves.len(),
    {
        if moves.len() == 0 {
            self
        } else {
            self.step(moves[0]).replay(moves.subrange(1, moves.len() as int))
        }
    }
}

impl View for TicTacToeGame {
    type V = GameView;

    open spec fn view(&self) -> GameView {
        GameView {
            players: self.players@,
            turn: self.turn as nat,
            board: self.board@,
            state: self.state,
        }
    }
}

proof fn lemma_filled_bound(cells: Seq<Option<Sign>>)
    ensures
        filled_count(cells) <= cells.len(),
        filled_count(cells) == cells.len() ==> is_full(cells),
    decreases cells.len(),
{
    if cells.len() > 0 {
        lemma_filled_bound(cells.drop_last());
        if filled_count(cells) == cells.len() {
            assert forall|i: int| 0 <= i < cells.len() implies (#[trigger] cells[i]) is Some by {
                if i < cells.len() - 1 {
                    assert(cells.drop_last()[i] == cells[i]);
                }
            }
        }
    }
}

proof fn lemma_filled_mark(cells: Seq<Option<Sign>>, i: int, s: Sign)
    requires
        0 <= i < cells.len(),
        cells[i] is None,
    ensures
        filled_count(cells.update(i, Some(s))) == filled_count(cells) + 1,
    decreases cells.len(),
{
    let next = cells.update(i, Some(s));
    if i == cells.len() - 1 {
        assert(next.drop_last() =~= cells.drop_last());
    } else {
        assert(next.drop_last() =~= cells.drop_last().update(i, Some(s)));
        lemma_filled_mark(cells.drop_last(), i, s);
    }
}

proof fn lemma_fresh_board_empty(n: nat)
    ensures
        filled_count(Seq::new(n, |i: int| None::<Sign>)) == 0,
    decreases n,
{
    if n > 0 {
        assert(Seq::new(n, |i: int| None::<Sign>).drop_last() =~= Seq::new(
            (n - 1) as nat,
            |i: int| None::<Sign>,
        ));
        lemma_fresh_board_empty((n - 1) as nat);
    }
}

/// A game in progress has a free cell, so its turn counter has room to grow.
proof fn lemma_active_has_room(g: GameView)
    requires
        g.wf(),
        !g.is_terminal(),
    ensures
        g.turn <= 9,
{
    lemma_filled_bound(g.board);
}

/// Every attempted move keeps a well-formed game well-formed.
pub proof fn lemma_step_preserves_wf(g: GameView, tile: Tile)
    requires
        g.wf(),
    ensures
        g.step(tile).wf(),
{
    if g.move_error(tile) is None {
        lemma_active_has_room(g);
        lemma_filled_mark(g.board, cell_index(tile), sign_of(mover_index(g.turn)));
    }
}

/// Along any sequence of attempted moves from a well-formed game, the number
/// of marked cells stays equal to `turn - 1`.
pub proof fn lemma_moves_keep_count(g: GameView, moves: Seq<Tile>)
    requires
        g.wf(),
    ensures
        g.replay(moves).wf(),
        filled_count(g.replay(moves).board) == g.replay(moves).turn - 1,
    decreases moves.len(),
{
    if moves.len() > 0 {
        lemma_step_preserves_wf(g, moves[0]);
        lemma_moves_keep_count(g.step(moves[0]), moves.subrange(1, moves.len() as int));
    }
}

/// A fresh game is well-formed.
pub proof fn lemma_fresh_wf(players: Seq<Address>)
    requires
        players.len() == 2,
    ensures
        GameView::fresh(players).wf(),
{
    let g = GameView::fresh(players);
    lemma_fresh_board_empty(9);
    assert(!has_won(g.board, Sign::X));
    assert(!has_won(g.board, Sign::O));
    assert(g.board[0] is None);
}

/// The other player's mark.
pub open spec fn flip_sign(s: Sign) -> Sign {
    match s {
        Sign::X => Sign::O,
        Sign::O => Sign::X,
    }
}

/// The board with every `X` turned into `O` and every `O` into `X`.
pub open spec fn flip_board(cells: Seq<Option<Sign>>) -> Seq<Option<Sign>> {
    cells.map_values(|c: Option<Sign>|
        match c {
            Some(s) => Some(flip_sign(s)),
            None => None,
        }
    )
}

/// Outcome detection does not depend on which mark a player uses: on a board
/// where at most one mark completes a line, swapping the marks and swapping
/// the players reports the same outcome, so the same address wins; and the
/// board is full after the swap exactly when it was before.
pub proof fn lemma_outcome_symmetric(cells: Seq<Option<Sign>>, p0: Address, p1: Address)
    requires
        cells.len() == 9,
        !(has_won(cells, Sign::X) && has_won(cells, Sign::O)),
    ensures
        outcome_of(flip_board(cells), seq![p1, p0]) == outcome_of(cells, seq![p0, p1]),
        is_full(flip_board(cells)) == is_full(cells),
{
    let f = flip_board(cells);
    assert forall|s: Sign, k: int| 0 <= k < 8 implies #[trigger] holds_line(f, s, k) == holds_line(
        cells,
        flip_sign(s),
        k,
    ) by {
        let (a, b, c) = line_cells(k);
        assert(f[a] == Some(s) <==> cells[a] == Some(flip_sign(s)));
        assert(f[b] == Some(s) <==> cells[b] == Some(flip_sign(s)));
        assert(f[c] == Some(s) <==> cells[c] == Some(flip_sign(s)));
    }
    assert(has_won(f, Sign::X) == has_won(cells, Sign::O)) by {
        if has_won(cells, Sign::O) {
            let k = choose|k: int| 0 <= k < 8 && #[trigger] holds_line(cells, Sign::O, k);
            assert(holds_line(f, Sign::X, k));
        }
        if has_won(f, Sign::X) {
            let k = choose|k: int| 0 <= k < 8 && #[trigger] holds_line(f, Sign::X, k);
            assert(holds_line(f, Sign::X, k));
        }
    }
    assert(has_won(f, Sign::O) == has_won(cells, Sign::X)) by {
        if has_won(cells, Sign::X) {
            let k = choose|k: int| 0 <= k < 8 && #[trigger] holds_line(cells, Sign::X, k);
            assert(holds_line(f, Sign::O, k));
        }
        if has_won(f, Sign::O) {
            let k = choose|k: int| 0 <= k < 8 && #[trigger] holds_line(f, Sign::O, k);
            assert(holds_line(f, Sign::O, k));
        }
    }
    assert(is_full(f) == is_full(cells)) by {
        if is_full(cells) {
            assert forall|i: int| 0 <= i < f.len() implies (#[trigger] f[i]) is Some by {
                assert(cells[i] is Some);
            }
        }
        if is_full(f) {
            assert forall|i: int| 0 <= i < cells.len() implies (#[trigger] cells[i]) is Some by {
                assert(f[i] is Some);
            }
        }
    }
}

/// Whether `cell` holds the mark `s`.
fn cell_has(cell: Option<Sign>, s: Sign) -> (r: bool)
    ensures
        r == (cell == Some(s)),
{
    match cell {
        Some(c) => c == s,
        None => false,
    }
}

/// The cells of winning line `k`.
fn line(k: usize) -> (r: (usize, usize, usize))
    requires
        k < 8,
    ensures
        r.0 < 9 && r.1 < 9 && r.2 < 9,
        (r.0 as int, r.1 as int, r.2 as int) == line_cells(k as int),
{
    if k == 0 {
        (0, 1, 2)
    } else if k == 1 {
        (3, 4, 5)
    } else if k == 2 {
        (6, 7, 8)
    } else if k == 3 {
        (0, 3, 6)
    } else if k == 4 {
        (1, 4, 7)
    } else if k == 5 {
        (2, 5, 8)
    } else if k == 6 {
        (0, 4, 8)
    } else {
        (2, 4, 6)
    }
}

/// Whether some winning line of `board` is all `s`.
pub fn is_winner(board: &[Option<Sign>; 9], s: Sign) -> (r: bool)
    ensures
        r == has_won(board@, s),
{
    let mut k: usize = 0;
    while k < 8
        invariant
            k <= 8,
            forall|j: int| 0 <= j < k ==> !#[trigger] holds_line(board@, s, j),
        decreases 8 - k,
    {
        let (a, b, c) = line(k);
        if cell_has(board[a], s) && cell_has(board[b], s) && cell_has(board[c], s) {
            assert(holds_line(board@, s, k as int));
            return true;
        }
        k = k + 1;
    }
    false
}

/// Whether every cell of `board` is marked.
pub fn is_board_full(board: &[Option<Sign>; 9]) -> (r: bool)
    ensures
        r == is_full(board@),
{
    let mut i: usize = 0;
    while i < 9
        invariant
            i <= 9,
            forall|j: int| 0 <= j < i ==> (#[trigger] board@[j]) is Some,
        decreases 9 - i,
    {
        if board[i].is_none() {
            return false;
        }
        i = i + 1;
    }
    true
}

/// The outcome that `board` shows for `players`.
pub fn detect_outcome(board: &[Option<Sign>; 9], players: &[Address; 2]) -> (r: GameState)
    ensures
        r == outcome_of(board@, players@),
{
    if is_winner(board, Sign::X) {
        GameState::Won { winner: players[0] }
    } else if is_winner(board, Sign::O) {
        GameState::Won { winner: players[1] }
    } else if is_board_full(board) {
        GameState::Tie
    } else {
        GameState::Active
    }
}

impl TicTacToeGame {
    /// A fresh game: empty board, turn 1, in progress.
    pub fn new(players: [Address; 2], bump: u8) -> (r: TicTacToeGame)
        ensures
            r@ == GameView::fresh(players@),
            r@.wf(),
            r.bump == bump,
    {
        let r = TicTacToeGame {
            players,
            turn: 1,
            board: [None; 9],
            state: GameState::Active,
            bump,
        };
        proof {
            lemma_fresh_wf(players@);
            assert(r.board@ =~= GameView::fresh(players@).board);
        }
        r
    }

    pub fn is_active(&self) -> (r: bool)
        ensures
            r == !self@.is_terminal(),
    {
        match self.state {
            GameState::Active => true,
            _ => false,
        }
    }

    /// Index of the player whose turn it is.
    pub fn current_player_index(&self) -> (r: usize)
        ensures
            r as int == mover_index(self@.turn),
    {
        if self.turn % 2 == 1 {
            0
        } else {
            1
        }
    }

    pub fn current_player(&self) -> (r: Address)
        ensures
            r == self@.current_player(),
    {
        self.players[self.current_player_index()]
    }

    /// Whether this record satisfies the game invariant: a turn counter in
    /// `1..=10` that counts the marked cells, and a state that agrees with the board.
    pub fn is_well_formed(&self) -> (r: bool)
        ensures
            r == self@.wf(),
    {
        if self.turn < 1 || self.turn > 10 {
            return false;
        }
        let mut count: u8 = 0;
        let mut i: usize = 0;
        while i < 9
            invariant
                i <= 9,
                count as nat == filled_count(self.board@.take(i as int)),
                count <= i,
            decreases 9 - i,
        {
            proof {
                assert(self.board@.take(i + 1).drop_last() =~= self.board@.take(i as int));
            }
            if self.board[i].is_some() {
                count = count + 1;
            }
            i = i + 1;
        }
        proof {
            assert(self.board@.take(9) =~= self.board@);
        }
        if count != self.turn - 1 {
            return false;
        }
        self.state == detect_outcome(&self.board, &self.players)
    }

    /// Checks that `tile` can be played now, and gives its cell.
    pub fn check_move(&self, tile: &Tile) -> (r: Result<usize, TicTacToeError>)
        ensures
            match r {
                Ok(i) => self@.move_error(*tile) is None && i as int == cell_index(*tile),
                Err(e) => self@.move_error(*tile) == Some(e),
            },
    {
        if !self.is_active() {
            return Err(TicTacToeError::GameAlreadyOver);
        }
        if tile.row >= 3 || tile.column >= 3 {
            return Err(TicTacToeError::TileOutOfBounds);
        }
        let i: usize = 3 * (tile.row as usize) + tile.column as usize;
        if self.board[i].is_some() {
            return Err(TicTacToeError::TileAlreadySet);
        }
        Ok(i)
    }

    /// The current player marks `tile`; the turn advances and the outcome is
    /// detected anew. A move that is not legal leaves the game as it was.
    pub fn play(&mut self, tile: &Tile) -> (r: Result<(), TicTacToeError>)
        requires
            old(self)@.wf(),
        ensures
            final(self)@.wf(),
            final(self).bump == old(self).bump,
            r == match old(self)@.move_error(*tile) {
                Some(e) => Err(e),
                None => Ok::<(), TicTacToeError>(()),
            },
            r is Ok ==> final(self)@ == old(self)@.after_move(*tile),
            r is Err ==> *final(self) == *old(self),
            tile.row >= 3 || tile.column >= 3 || old(self)@.board[cell_index(*tile)] is Some
                ==> r is Err && final(self).board == old(self).board,
    {
        let i = match self.check_move(tile) {
            Ok(i) => i,
            Err(e) => return Err(e),
        };
        proof {
            lemma_step_preserves_wf(self@, *tile);
            lemma_active_has_room(self@);
        }
        let sign = if self.current_player_index() == 0 {
            Sign::X
        } else {
            Sign::O
        };
        self.board[i] = Some(sign);
        self.turn = self.turn + 1;
        self.state = detect_outcome(&self.board, &self.players);
        proof {
            assert(self@.board =~= old(self)@.after_move(*tile).board);
        }
        Ok(())
    }
}

} // verus!
