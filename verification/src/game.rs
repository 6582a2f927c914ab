//! The tic-tac-toe board, whose turn it is, and what a placement does.
use vstd::prelude::*;

use crate::players::{PlayerDriver, PlayerDrivers, drivers_of};

verus! {

/// Whose turn it is. X moves first.
#[derive(Clone, Copy, Debug, Hash, PartialEq, Eq, Structural)]
pub enum PlayerTurn {
    X,
    O,
}

impl PlayerTurn {
    /// The player who moves after `self`.
    pub open spec fn spec_next(self) -> PlayerTurn {
        match self {
            PlayerTurn::O => PlayerTurn::X,
            PlayerTurn::X => PlayerTurn::O,
        }
    }

    /// The text that names the player.
    pub open spec fn spec_text(self) -> Seq<char> {
        match self {
            PlayerTurn::X => "X"@,
            PlayerTurn::O => "O"@,
        }
    }

    /// Returns the other player.
    pub fn next(&self) -> (res: PlayerTurn)
        ensures
            res == self.spec_next(),
    {
        match *self {
            PlayerTurn::O => PlayerTurn::X,
            PlayerTurn::X => PlayerTurn::O,
        }
    }
}

impl Default for PlayerTurn {
    /// X starts.
    fn default() -> (res: PlayerTurn)
        ensures
            res == PlayerTurn::X,
    {
        PlayerTurn::X
    }
}

impl From<PlayerTurn> for String {
    /// "X" or "O".
    fn from(val: PlayerTurn) -> (res: String)
        ensures
            res@ == val.spec_text(),
    {
        match val {
            PlayerTurn::X => String::from_str("X"),
            PlayerTurn::O => String::from_str("O"),
        }
    }
}

impl vstd::std_specs::convert::FromSpecImpl<PlayerTurn> for String {
    /// A `String` is compared by its characters only, so the conversion is
    /// described by the `ensures` of `from` over the view.
    open spec fn obeys_from_spec() -> bool {
        false
    }

    open spec fn from_spec(v: PlayerTurn) -> String {
        vstd::pervasive::arbitrary()
    }
}

/// What a cell of the grid holds.
#[derive(Clone, Copy, Debug, PartialEq, Eq, Structural)]
pub enum GridValue {
    X,
    O,
    Empty,
}

impl GridValue {
    /// X counts 1, O counts -1, an empty cell 0.
    pub open spec fn spec_score(self) -> int {
        match self {
            GridValue::X => 1,
            GridValue::O => -1,
            GridValue::Empty => 0,
        }
    }

    /// The piece a player puts down.
    pub open spec fn spec_from_turn(t: PlayerTurn) -> GridValue {
        match t {
            PlayerTurn::O => GridValue::O,
            PlayerTurn::X => GridValue::X,
        }
    }

    pub fn score(&self) -> (s: i32)
        ensures
            s == self.spec_score(),
    {
        match self {
            GridValue::X => 1,
            GridValue::O => -1,
            GridValue::Empty => 0,
        }
    }
}

impl From<PlayerTurn> for GridValue {
    fn from(val: PlayerTurn) -> (res: GridValue)
        ensures
            res == GridValue::spec_from_turn(val),
    {
        match val {
            PlayerTurn::O => GridValue::O,
            PlayerTurn::X => GridValue::X,
        }
    }
}

impl vstd::std_specs::convert::FromSpecImpl<PlayerTurn> for GridValue {
    open spec fn obeys_from_spec() -> bool {
        true
    }

    open spec fn from_spec(v: PlayerTurn) -> GridValue {
        GridValue::spec_from_turn(v)
    }
}

/// A cell of the grid: `x` is the row, `y` the column.
#[derive(Clone, Copy, Debug, PartialEq, Eq, Structural)]
pub struct GridPosition {
    pub x: usize,
    pub y: usize,
}

impl GridPosition {
    /// Both coordinates lie on the 3 by 3 grid.
    pub open spec fn in_grid(self) -> bool {
        self.x < 3 && self.y < 3
    }
}

/// A 3 by 3 board, as rows of cells.
pub type Board = Seq<Seq<GridValue>>;

/// The board on which nothing has been placed.
pub open spec fn empty_board() -> Board {
    Seq::new(3, |i: int| Seq::new(3, |j: int| GridValue::Empty))
}

/// The board `b` with `v` in cell (`x`, `y`).
pub open spec fn board_with(b: Board, x: int, y: int, v: GridValue) -> Board {
    b.update(x, b[x].update(y, v))
}

/// A board of 3 rows of 3 cells.
pub open spec fn is_board(b: Board) -> bool {
    &&& b.len() == 3
    &&& forall|i: int| 0 <= i < 3 ==> #[trigger] b[i].len() == 3
}

/// Every cell holds a piece.
pub open spec fn board_full(b: Board) -> bool {
    forall|x: int, y: int| 0 <= x < 3 && 0 <= y < 3 ==> #[trigger] b[x][y] != GridValue::Empty
}

/// The board of the game.
pub struct Grid {
    pub vals: [[GridValue; 3]; 3],
}

impl View for Grid {
    type V = Board;

    open spec fn view(&self) -> Board {
        Seq::new(3, |i: int| self.vals[i]@)
    }
}

impl Grid {
    /// An empty grid.
    pub fn new() -> (g: Grid)
        ensures
            g@ == empty_board(),
    {
        let g = Grid { vals: [[GridValue::Empty; 3]; 3] };
        assert(g@ =~= empty_board()) by {
            assert forall|i: int| 0 <= i < 3 implies g@[i] =~= empty_board()[i] by {}
        }
        g
    }

    /// The value in cell `pos`.
    pub fn get(&self, pos: GridPosition) -> (v: GridValue)
        requires
            pos.in_grid(),
        ensures
            v == self@[pos.x as int][pos.y as int],
    {
        return self.vals[pos.x][pos.y];
    }

    /// Puts `val` into cell `pos`; the other cells keep their values.
    pub fn set(&mut self, pos: GridPosition, val: GridValue)
        requires
            pos.in_grid(),
        ensures
            final(self)@ == board_with(old(self)@, pos.x as int, pos.y as int, val),
    {
        let mut row = self.vals[pos.x];
        row[pos.y] = val;
        self.vals[pos.x] = row;
        assert(self@ =~= board_with(old(self)@, pos.x as int, pos.y as int, val)) by {
            assert forall|i: int| 0 <= i < 3 implies self@[i] =~= board_with(
                old(self)@,
                pos.x as int,
                pos.y as int,
                val,
            )[i] by {}
        }
    }
}

/// Whose turn it is in the running game.
pub struct GameState {
    pub player_turn: PlayerTurn,
}

impl Default for GameState {
    /// A new game: X to move.
    fn default() -> (res: GameState)
        ensures
            res.player_turn == PlayerTurn::X,
    {
        GameState { player_turn: PlayerTurn::X }
    }
}

/// The state a turn changes: whose turn it is, and who drives each player.
pub struct TurnParams {
    pub game_state: GameState,
    pub players: PlayerDrivers,
}

impl TurnParams {
    /// Changes to the next player and returns the driver of that player,
    /// which becomes the current driver.
    pub fn end_turn(&mut self) -> (driver: PlayerDriver)
        requires
            drivers_of(old(self).players).contains_key(old(self).game_state.player_turn.spec_next()),
        ensures
            final(self).game_state.player_turn == old(self).game_state.player_turn.spec_next(),
            final(self).players == old(self).players,
            driver == drivers_of(old(self).players)[old(self).game_state.player_turn.spec_next()],
    {
        self.game_state.player_turn = self.game_state.player_turn.next();
        self.players.index(self.game_state.player_turn)
    }
}

/// A new text for the status line.
pub struct StatusTextUpdateEvent {
    pub text: String,
}

/// A request to put the current player's piece into a cell.
#[derive(Clone, Copy, Debug, PartialEq, Eq, Structural)]
pub struct TryPlaceEvent {
    pub pos: GridPosition,
}

/// A piece was put into a cell.
#[derive(Clone, Copy, Debug, PartialEq, Eq, Structural)]
pub struct PiecePlacedEvent {
    pub pos: GridPosition,
}

/// The status text for `turn` to move.
pub open spec fn to_move_text(turn: PlayerTurn) -> Seq<char> {
    match turn {
        PlayerTurn::X => "X to move"@,
        PlayerTurn::O => "O to move"@,
    }
}

/// What a placement led to.
pub enum PlaceOutcome {
    /// The cell was taken: nothing changed.
    Rejected { status: StatusTextUpdateEvent },
    /// `player`'s piece now stands in the cell; `driver` is the driver of
    /// the player to move next.
    Placed {
        player: PlayerTurn,
        placed: PiecePlacedEvent,
        driver: PlayerDriver,
        status: StatusTextUpdateEvent,
    },
}

/// Puts the current player's piece into `pos` if that cell is empty, and
/// hands the turn to the other player; an occupied cell leaves everything
/// as it was and answers "Invalid move".
pub fn place_grid_piece(grid: &mut Grid, turn_params: &mut TurnParams, pos: GridPosition) -> (res:
    PlaceOutcome)
    requires
        pos.in_grid(),
        old(grid)@[pos.x as int][pos.y as int] == GridValue::Empty ==> drivers_of(
            old(turn_params).players,
        ).contains_key(old(turn_params).game_state.player_turn.spec_next()),
    ensures
        ({
            let turn = old(turn_params).game_state.player_turn;
            let cell = old(grid)@[pos.x as int][pos.y as int];
            match res {
                PlaceOutcome::Rejected { status } => {
                    &&& cell != GridValue::Empty
                    &&& status.text@ == "Invalid move"@
                    &&& final(grid)@ == old(grid)@
                    &&& final(turn_params).game_state.player_turn == turn
                }
                PlaceOutcome::Placed { player, placed, driver, status } => {
                    &&& cell == GridValue::Empty
                    &&& player == turn
                    &&& placed.pos == pos
                    &&& final(grid)@ == board_with(
                        old(grid)@,
                        pos.x as int,
                        pos.y as int,
                        GridValue::spec_from_turn(turn),
                    )
                    &&& final(turn_params).game_state.player_turn == turn.spec_next()
                    &&& driver == drivers_of(old(turn_params).players)[turn.spec_next()]
                    &&& status.text@ == to_move_text(turn.spec_next())
                }
            }
        }),
        final(turn_params).players == old(turn_params).players,
{
    if grid.get(pos) != GridValue::Empty {
        return PlaceOutcome::Rejected {
            status: StatusTextUpdateEvent { text: String::from_str("Invalid move") },
        };
    }
    let current_player = turn_params.game_state.player_turn;
    grid.set(pos, GridValue::from(current_player));
    let driver = turn_params.end_turn();
    let text = match turn_params.game_state.player_turn {
        PlayerTurn::X => String::from_str("X to move"),
        PlayerTurn::O => String::from_str("O to move"),
    };
    PlaceOutcome::Placed {
        player: current_player,
        placed: PiecePlacedEvent { pos: pos },
        driver,
        status: StatusTextUpdateEvent { text },
    }
}

} // verus!
