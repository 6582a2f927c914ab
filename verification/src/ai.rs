//! The computer player.
use vstd::prelude::*;

use crate::game::{Board, Grid, GridPosition, GridValue, StatusTextUpdateEvent, TryPlaceEvent, board_full};

verus! {

/// (`a`, `b`) comes before (`x`, `y`) when the grid is read row by row.
pub open spec fn before(a: int, b: int, x: int, y: int) -> bool {
    a < x || (a == x && b < y)
}

/// `pos` is the first empty cell of `b`, reading row by row.
pub open spec fn ai_choice(b: Board, pos: GridPosition) -> bool {
    &&& pos.in_grid()
    &&& b[pos.x as int][pos.y as int] == GridValue::Empty
    &&& forall|a: int, c: int|
        0 <= a < 3 && 0 <= c < 3 && before(a, c, pos.x as int, pos.y as int) ==> #[trigger] b[a][c]
            != GridValue::Empty
}

/// The status text while the computer thinks.
pub fn start_ai_move() -> (res: StatusTextUpdateEvent)
    ensures
        res.text@ == "AI thinking"@,
{
    StatusTextUpdateEvent { text: String::from_str("AI thinking") }
}

/// The computer's move: the first empty cell, reading the grid row by row
/// (all of row 0, then row 1, then row 2); `None` when the grid is full.
pub fn handle_ai_move(grid: &Grid) -> (res: Option<TryPlaceEvent>)
    ensures
        match res {
            Some(ev) => ai_choice(grid@, ev.pos),
            None => board_full(grid@),
        },
        match res {
            Some(ev) => {
                &&& grid@[ev.pos.x as int][ev.pos.y as int] == GridValue::Empty
                &&& forall|a: int, c: int|
                    0 <= a < 3 && 0 <= c < 3 && 3 * a + c < 3 * ev.pos.x + ev.pos.y
                        ==> #[trigger] grid@[a][c] != GridValue::Empty
            },
            None => forall|a: int, c: int|
                0 <= a < 3 && 0 <= c < 3 ==> #[trigger] grid@[a][c] != GridValue::Empty,
        },
{
    let mut x: usize = 0;
    while x < 3
        invariant
            x <= 3,
            forall|i: int, j: int| 0 <= i < x && 0 <= j < 3 ==> #[trigger] grid@[i][j]
                != GridValue::Empty,
        decreases 3 - x,
    {
        let mut y: usize = 0;
        while y < 3
            invariant
                x < 3,
                y <= 3,
                forall|i: int, j: int| 0 <= i < x && 0 <= j < 3 ==> #[trigger] grid@[i][j]
                    != GridValue::Empty,
                forall|j: int| 0 <= j < y ==> #[trigger] grid@[x as int][j] != GridValue::Empty,
            decreases 3 - y,
        {
            if grid.vals[x][y] == GridValue::Empty {
                return Some(TryPlaceEvent { pos: GridPosition { x: x, y: y } });
            }
            y = y + 1;
        }
        x = x + 1;
    }
    None
}

} // verus!
