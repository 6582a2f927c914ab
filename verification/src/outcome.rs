//! When a placement ends the game, who won and with which cells, and what
//! the end of a game shows.
use vstd::prelude::*;

use crate::game::{
    Board, Grid, GridPosition, GridValue, PiecePlacedEvent, PlayerTurn, StatusTextUpdateEvent,
    board_full,
};
use crate::players::PlayerDriver;
use crate::state::AppState;

verus! {

/// The four lines that a placement at a cell is checked against: its row of
/// equal `y`, its column of equal `x`, and the two diagonals.
#[derive(Clone, Copy, Debug, PartialEq, Eq, Structural)]
pub enum LineKind {
    Horizontal,
    Vertical,
    Diagonal,
    AntiDiagonal,
}

/// The `i`-th cell of the line `kind` checked for a placement at `pos`.
pub open spec fn line_cell(kind: LineKind, pos: GridPosition, i: int) -> (int, int) {
    match kind {
        LineKind::Horizontal => (i, pos.y as int),
        LineKind::Vertical => (pos.x as int, i),
        LineKind::Diagonal => (i, i),
        LineKind::AntiDiagonal => (2 - i, i),
    }
}

pub open spec fn cell_at(b: Board, c: (int, int)) -> GridValue {
    b[c.0][c.1]
}

/// All three cells of the line hold `v`.
pub open spec fn line_filled(b: Board, kind: LineKind, pos: GridPosition, v: GridValue) -> bool {
    &&& cell_at(b, line_cell(kind, pos, 0)) == v
    &&& cell_at(b, line_cell(kind, pos, 1)) == v
    &&& cell_at(b, line_cell(kind, pos, 2)) == v
}

/// The line is complete for one of the two players.
pub open spec fn line_won(b: Board, kind: LineKind, pos: GridPosition) -> bool {
    line_filled(b, kind, pos, GridValue::X) || line_filled(b, kind, pos, GridValue::O)
}

/// (`x`, `y`) is one of the cells of the line.
pub open spec fn on_line(kind: LineKind, pos: GridPosition, x: int, y: int) -> bool {
    ||| line_cell(kind, pos, 0) == (x, y)
    ||| line_cell(kind, pos, 1) == (x, y)
    ||| line_cell(kind, pos, 2) == (x, y)
}

/// One of the four lines checked for `pos` is filled with `v`.
pub open spec fn some_line_filled(b: Board, pos: GridPosition, v: GridValue) -> bool {
    ||| line_filled(b, LineKind::Horizontal, pos, v)
    ||| line_filled(b, LineKind::Vertical, pos, v)
    ||| line_filled(b, LineKind::Diagonal, pos, v)
    ||| line_filled(b, LineKind::AntiDiagonal, pos, v)
}

/// (`x`, `y`) lies on a checked line that one of the players completed.
pub open spec fn victory_cell(b: Board, pos: GridPosition, x: int, y: int) -> bool {
    ||| line_won(b, LineKind::Horizontal, pos) && on_line(LineKind::Horizontal, pos, x, y)
    ||| line_won(b, LineKind::Vertical, pos) && on_line(LineKind::Vertical, pos, x, y)
    ||| line_won(b, LineKind::Diagonal, pos) && on_line(LineKind::Diagonal, pos, x, y)
    ||| line_won(b, LineKind::AntiDiagonal, pos) && on_line(LineKind::AntiDiagonal, pos, x, y)
}

/// The cells of all completed checked lines.
pub open spec fn victory_set(b: Board, pos: GridPosition) -> Set<(usize, usize)> {
    Set::new(|p: (usize, usize)| p.0 < 3 && p.1 < 3 && victory_cell(b, pos, p.0 as int, p.1 as int))
}

/// How a game ended, as a value of the model.
pub enum EndedView {
    Draw,
    Win(PlayerTurn, Set<(usize, usize)>),
}

/// What a placement at `pos` on board `b` means for the game: X wins if a
/// checked line is all X; otherwise O wins if one is all O; otherwise a full
/// board is a draw; otherwise the game goes on (`None`).
pub open spec fn placement_outcome(b: Board, pos: GridPosition) -> Option<EndedView> {
    if some_line_filled(b, pos, GridValue::X) {
        Some(EndedView::Win(PlayerTurn::X, victory_set(b, pos)))
    } else if some_line_filled(b, pos, GridValue::O) {
        Some(EndedView::Win(PlayerTurn::O, victory_set(b, pos)))
    } else if board_full(b) {
        Some(EndedView::Draw)
    } else {
        None
    }
}

/// The outcome of the first of `events` that ends the game.
pub open spec fn first_outcome(b: Board, events: Seq<PiecePlacedEvent>) -> Option<EndedView>
    decreases events.len(),
{
    if events.len() == 0 {
        None
    } else {
        match placement_outcome(b, events[0].pos) {
            Some(o) => Some(o),
            None => first_outcome(b, events.drop_first()),
        }
    }
}

/// The cells that a win highlights.
#[derive(Clone, Copy)]
pub struct VictoryCells {
    cells: [[bool; 3]; 3],
}

impl View for VictoryCells {
    type V = Set<(usize, usize)>;

    closed spec fn view(&self) -> Set<(usize, usize)> {
        Set::new(|p: (usize, usize)| p.0 < 3 && p.1 < 3 && self.cells[p.0 as int][p.1 as int])
    }
}

impl VictoryCells {
    /// No cell.
    pub fn new() -> (res: VictoryCells)
        ensures
            res@ == Set::<(usize, usize)>::empty(),
    {
        let res = VictoryCells { cells: [[false; 3]; 3] };
        assert(res@ =~= Set::<(usize, usize)>::empty());
        res
    }

    /// Adds cell (`x`, `y`).
    pub fn insert(&mut self, x: usize, y: usize)
        requires
            x < 3,
            y < 3,
        ensures
            final(self)@ == old(self)@.insert((x, y)),
    {
        let mut row = self.cells[x];
        row[y] = true;
        self.cells[x] = row;
        assert(self@ =~= old(self)@.insert((x, y)));
    }

    /// Whether (`x`, `y`) is one of the cells.
    pub fn contains(&self, x: usize, y: usize) -> (res: bool)
        ensures
            res == self@.contains((x, y)),
    {
        if x < 3 && y < 3 {
            self.cells[x][y]
        } else {
            false
        }
    }
}

/// Who won, and the cells of the lines that they (or the other player)
/// completed.
pub struct WinState {
    pub player: PlayerTurn,
    pub victory_cells: VictoryCells,
}

/// The game ended in a draw or a win.
pub enum GameEndedEvent {
    Draw,
    Win(WinState),
}

impl View for GameEndedEvent {
    type V = EndedView;

    open spec fn view(&self) -> EndedView {
        match self {
            GameEndedEvent::Draw => EndedView::Draw,
            GameEndedEvent::Win(w) => EndedView::Win(w.player, w.victory_cells@),
        }
    }
}

/// The model of an optional end of the game.
pub open spec fn ended_view(e: Option<GameEndedEvent>) -> Option<EndedView> {
    match e {
        Some(ev) => Some(ev@),
        None => None,
    }
}

/// A line of three sums to 3 exactly when all three cells hold X, and to -3
/// exactly when all three hold O.
pub proof fn lemma_line_sum(a: GridValue, b: GridValue, c: GridValue)
    ensures
        a.spec_score() + b.spec_score() + c.spec_score() == 3 <==> (a == GridValue::X && b
            == GridValue::X && c == GridValue::X),
        a.spec_score() + b.spec_score() + c.spec_score() == -3 <==> (a == GridValue::O && b
            == GridValue::O && c == GridValue::O),
{
}

impl Grid {
    /// Every cell holds a piece.
    pub fn is_full(&self) -> (res: bool)
        ensures
            res == board_full(self@),
            !res <==> exists|x: int, y: int|
                0 <= x < 3 && 0 <= y < 3 && #[trigger] self@[x][y] == GridValue::Empty,
    {
        let mut x: usize = 0;
        while x < 3
            invariant
                x <= 3,
                forall|i: int, j: int| 0 <= i < x && 0 <= j < 3 ==> #[trigger] self@[i][j]
                    != GridValue::Empty,
            decreases 3 - x,
        {
            let mut y: usize = 0;
            while y < 3
                invariant
                    x < 3,
                    y <= 3,
                    forall|i: int, j: int| 0 <= i < x && 0 <= j < 3 ==> #[trigger] self@[i][j]
                        != GridValue::Empty,
                    forall|j: int| 0 <= j < y ==> #[trigger] self@[x as int][j] != GridValue::Empty,
                decreases 3 - y,
            {
                if self.vals[x][y] == GridValue::Empty {
                    return false;
                }
                y = y + 1;
            }
            x = x + 1;
        }
        true
    }
}

/// Checks the lines through the piece just placed at `pos`: a completed line
/// wins (X before O), a full board without one is a draw, and otherwise the
/// game goes on.
#[verifier::rlimit(40)]
pub fn evaluate_placement(grid: &Grid, pos: GridPosition) -> (res: Option<GameEndedEvent>)
    requires
        pos.in_grid(),
    ensures
        ended_view(res) == placement_outcome(grid@, pos),
        res matches Some(GameEndedEvent::Draw) ==> forall|a: int, c: int|
            0 <= a < 3 && 0 <= c < 3 ==> #[trigger] grid@[a][c] != GridValue::Empty,
{
    let b = Ghost(grid@);
    let x = pos.x;
    let y = pos.y;
    let v = &grid.vals;
    let horizontal: i32 = v[0][y].score() + v[1][y].score() + v[2][y].score();
    let vertical: i32 = v[x][0].score() + v[x][1].score() + v[x][2].score();
    let diagonal_one: i32 = v[0][0].score() + v[1][1].score() + v[2][2].score();
    let diagonal_two: i32 = v[2][0].score() + v[1][1].score() + v[0][2].score();
    proof {
        lemma_line_sum(b@[0][y as int], b@[1][y as int], b@[2][y as int]);
        lemma_line_sum(b@[x as int][0], b@[x as int][1], b@[x as int][2]);
        lemma_line_sum(b@[0][0], b@[1][1], b@[2][2]);
        lemma_line_sum(b@[2][0], b@[1][1], b@[0][2]);
    }
    let mut winning_pos = VictoryCells::new();
    if horizontal == 3 || horizontal == -3 {
        winning_pos.insert(0, y);
        winning_pos.insert(1, y);
        winning_pos.insert(2, y);
    }
    if vertical == 3 || vertical == -3 {
        winning_pos.insert(x, 0);
        winning_pos.insert(x, 1);
        winning_pos.insert(x, 2);
    }
    if diagonal_one == 3 || diagonal_one == -3 {
        winning_pos.insert(0, 0);
        winning_pos.insert(1, 1);
        winning_pos.insert(2, 2);
    }
    if diagonal_two == 3 || diagonal_two == -3 {
        winning_pos.insert(2, 0);
        winning_pos.insert(1, 1);
        winning_pos.insert(0, 2);
    }
    assert(winning_pos@ =~= victory_set(b@, pos));
    if horizontal == 3 || vertical == 3 || diagonal_one == 3 || diagonal_two == 3 {
        return Some(GameEndedEvent::Win(WinState { player: PlayerTurn::X, victory_cells: winning_pos }));
    } else if horizontal == -3 || vertical == -3 || diagonal_one == -3 || diagonal_two == -3 {
        return Some(GameEndedEvent::Win(WinState { player: PlayerTurn::O, victory_cells: winning_pos }));
    }
    if grid.is_full() {
        assert(forall|a: int, c: int|
            0 <= a < 3 && 0 <= c < 3 ==> #[trigger] grid@[a][c] != GridValue::Empty);
        return Some(GameEndedEvent::Draw);
    }
    None
}

/// Looks at the pieces placed in order and reports the first that ends the
/// game; `None` when none does. Pieces after the first that ends the game
/// are not looked at.
pub fn check_win_condition(placed: &Vec<PiecePlacedEvent>, grid: &Grid) -> (res: Option<GameEndedEvent>)
    requires
        forall|i: int|
            0 <= i < placed@.len() && (forall|j: int|
                0 <= j < i ==> placement_outcome(grid@, #[trigger] placed@[j].pos) is None)
                ==> (#[trigger] placed@[i]).pos.in_grid(),
    ensures
        ended_view(res) == first_outcome(grid@, placed@),
{
    let mut i: usize = 0;
    assert(placed@.skip(0) =~= placed@);
    while i < placed.len()
        invariant
            i <= placed@.len(),
            forall|k: int|
                0 <= k < placed@.len() && (forall|j: int|
                    0 <= j < k ==> placement_outcome(grid@, #[trigger] placed@[j].pos) is None)
                    ==> (#[trigger] placed@[k]).pos.in_grid(),
            forall|j: int| 0 <= j < i ==> placement_outcome(grid@, #[trigger] placed@[j].pos) is None,
            first_outcome(grid@, placed@) == first_outcome(grid@, placed@.skip(i as int)),
        decreases placed@.len() - i,
    {
        let event = placed[i];
        let res = evaluate_placement(grid, event.pos);
        assert(placed@.skip(i as int)[0] == placed@[i as int]);
        assert(placed@.skip(i as int).drop_first() =~= placed@.skip(i + 1));
        if res.is_some() {
            return res;
        }
        i = i + 1;
    }
    assert(placed@.skip(i as int).len() == 0);
    None
}

/// What the end of a game does: the status text, the state the app moves
/// to, the driver that takes over, and the cells to highlight.
pub struct GameOverOutcome {
    pub status: StatusTextUpdateEvent,
    pub next_state: AppState,
    pub next_driver: PlayerDriver,
    pub highlighted: VictoryCells,
}

/// The status text at the end of a game.
pub open spec fn game_over_text(e: EndedView) -> Seq<char> {
    match e {
        EndedView::Draw => "It's a draw!"@,
        EndedView::Win(PlayerTurn::X, _) => "X wins!"@,
        EndedView::Win(PlayerTurn::O, _) => "O wins!"@,
    }
}

/// Ends the game: announces the result, highlights the winning cells (none
/// for a draw), moves the app to `GameOver` and hands control to nobody.
pub fn handle_game_over(event: &GameEndedEvent) -> (res: GameOverOutcome)
    ensures
        res.status.text@ == game_over_text(event@),
        res.status.text@ == (match event {
            GameEndedEvent::Draw => "It's a draw!"@,
            GameEndedEvent::Win(w) => if w.player == PlayerTurn::X {
                "X wins!"@
            } else {
                "O wins!"@
            },
        }),
        res.next_state == AppState::GameOver,
        res.next_driver == PlayerDriver::Nobody,
        res.highlighted@ == (match event@ {
            EndedView::Draw => Set::<(usize, usize)>::empty(),
            EndedView::Win(_, cells) => cells,
        }),
{
    let (text, highlighted) = match event {
        GameEndedEvent::Draw => (String::from_str("It's a draw!"), VictoryCells::new()),
        GameEndedEvent::Win(win_state) => {
            let text = match win_state.player {
                PlayerTurn::X => String::from_str("X wins!"),
                PlayerTurn::O => String::from_str("O wins!"),
            };
            (text, win_state.victory_cells)
        },
    };
    GameOverOutcome {
        status: StatusTextUpdateEvent { text },
        next_state: AppState::GameOver,
        next_driver: PlayerDriver::Nobody,
        highlighted,
    }
}

} // verus!
