//! Properties of the game that span its operations.
use vstd::prelude::*;

use crate::ai::ai_choice;
use crate::game::{
    Board, GridPosition, GridValue, PlayerTurn, board_full, board_with, empty_board, is_board,
};
use crate::game::PiecePlacedEvent;
use crate::outcome::{
    EndedView, LineKind, first_outcome, game_over_text, line_cell, line_filled, placement_outcome,
    some_line_filled,
};

verus! {

/// The turn passes back and forth: the player after the next one is the
/// current player again, and the next player is never the current one.
pub proof fn lemma_next_alternates(t: PlayerTurn)
    ensures
        t.spec_next().spec_next() == t,
        t.spec_next() != t,
{
}

/// Each player puts down a piece of their own, never an empty cell; X's
/// counts 1 and O's -1.
pub proof fn lemma_piece_of_player(t: PlayerTurn)
    ensures
        GridValue::spec_from_turn(t) != GridValue::Empty,
        GridValue::spec_from_turn(t).spec_score() == (if t == PlayerTurn::X { 1int } else { -1int }),
        GridValue::spec_from_turn(t) != GridValue::spec_from_turn(t.spec_next()),
{
}

/// A write to a cell is read back from that cell, and leaves every other
/// cell as it was.
pub proof fn lemma_board_read_after_write(b: Board, x: int, y: int, v: GridValue, a: int, c: int)
    requires
        is_board(b),
        0 <= x < 3,
        0 <= y < 3,
        0 <= a < 3,
        0 <= c < 3,
    ensures
        is_board(board_with(b, x, y, v)),
        board_with(b, x, y, v)[a][c] == (if a == x && c == y { v } else { b[a][c] }),
{
}

/// 1 where the cell holds `w`, else 0.
pub open spec fn holds(v: GridValue, w: GridValue) -> int {
    if v == w {
        1
    } else {
        0
    }
}

/// How many cells of a row hold `w`.
pub open spec fn row_count(r: Seq<GridValue>, w: GridValue) -> int {
    holds(r[0], w) + holds(r[1], w) + holds(r[2], w)
}

/// How many cells of the board hold `w`.
pub open spec fn piece_count(b: Board, w: GridValue) -> int {
    row_count(b[0], w) + row_count(b[1], w) + row_count(b[2], w)
}

/// X has placed as many pieces as O when X is to move, and one more when O
/// is to move.
pub open spec fn balanced(b: Board, turn: PlayerTurn) -> bool {
    piece_count(b, GridValue::X) - piece_count(b, GridValue::O) == (if turn == PlayerTurn::O {
        1int
    } else {
        0int
    })
}

/// A new game (an empty grid, X to move) is balanced.
pub proof fn lemma_new_game_balanced()
    ensures
        balanced(empty_board(), PlayerTurn::X),
        is_board(empty_board()),
{
}

/// An accepted placement (the mover's piece into an empty cell, then the
/// other player's turn) keeps the board balanced; a rejected one changes
/// neither the board nor the turn.
pub proof fn lemma_placement_keeps_balance(b: Board, turn: PlayerTurn, x: int, y: int)
    requires
        is_board(b),
        0 <= x < 3,
        0 <= y < 3,
        b[x][y] == GridValue::Empty,
        balanced(b, turn),
    ensures
        balanced(board_with(b, x, y, GridValue::spec_from_turn(turn)), turn.spec_next()),
{
    let v = GridValue::spec_from_turn(turn);
    let nb = board_with(b, x, y, v);
    assert forall|w: GridValue| #[trigger] row_count(nb[x], w) == row_count(b[x], w) - holds(
        GridValue::Empty,
        w,
    ) + holds(v, w) by {
        assert(nb[x] == b[x].update(y, v));
    }
    assert forall|w: GridValue| #[trigger] piece_count(nb, w) == piece_count(b, w) - holds(
        GridValue::Empty,
        w,
    ) + holds(v, w) by {
        assert(row_count(nb[x], w) == row_count(b[x], w) - holds(GridValue::Empty, w) + holds(
            v,
            w,
        ));
    }
    assert(piece_count(nb, GridValue::X) == piece_count(b, GridValue::X) + holds(v, GridValue::X));
    assert(piece_count(nb, GridValue::O) == piece_count(b, GridValue::O) + holds(v, GridValue::O));
}

/// A draw is declared only on a full board where no checked line is
/// complete.
pub proof fn lemma_draw_only_when_full(b: Board, pos: GridPosition)
    requires
        placement_outcome(b, pos) == Some(EndedView::Draw),
    ensures
        board_full(b),
        !some_line_filled(b, pos, GridValue::X),
        !some_line_filled(b, pos, GridValue::O),
{
}

/// The winner has completed one of the checked lines, and every cell of
/// that line is among the highlighted cells.
pub proof fn lemma_winner_line_highlighted(
    b: Board,
    pos: GridPosition,
    p: PlayerTurn,
    cells: Set<(usize, usize)>,
)
    requires
        pos.in_grid(),
        placement_outcome(b, pos) == Some(EndedView::Win(p, cells)),
    ensures
        exists|kind: LineKind|
            #[trigger] line_filled(b, kind, pos, GridValue::spec_from_turn(p)) && forall|i: int|
                0 <= i < 3 ==> cells.contains(
                    (line_cell(kind, pos, i).0 as usize, line_cell(kind, pos, i).1 as usize),
                ),
{
    let v = GridValue::spec_from_turn(p);
    let kind = if line_filled(b, LineKind::Horizontal, pos, v) {
        LineKind::Horizontal
    } else if line_filled(b, LineKind::Vertical, pos, v) {
        LineKind::Vertical
    } else if line_filled(b, LineKind::Diagonal, pos, v) {
        LineKind::Diagonal
    } else {
        LineKind::AntiDiagonal
    };
    assert(line_filled(b, kind, pos, v));
    assert forall|i: int| 0 <= i < 3 implies cells.contains(
        (line_cell(kind, pos, i).0 as usize, line_cell(kind, pos, i).1 as usize),
    ) by {
        let c = line_cell(kind, pos, i);
        assert(c.0 as usize as int == c.0 && c.1 as usize as int == c.1);
    }
}

/// If a placement does not end the game, an empty cell is left, so the
/// computer always has a move.
pub proof fn lemma_game_on_leaves_a_move(b: Board, pos: GridPosition)
    requires
        placement_outcome(b, pos) is None,
    ensures
        exists|x: int, y: int| 0 <= x < 3 && 0 <= y < 3 && #[trigger] b[x][y] == GridValue::Empty,
{
}

/// The computer's move is determined by the board: there is at most one
/// first empty cell, and it is empty, so `place_grid_piece` accepts it.
pub proof fn lemma_ai_choice_unique(b: Board, p: GridPosition, q: GridPosition)
    requires
        ai_choice(b, p),
        ai_choice(b, q),
    ensures
        p == q,
        b[p.x as int][p.y as int] == GridValue::Empty,
{
    if p.x < q.x || (p.x == q.x && p.y < q.y) {
        assert(b[p.x as int][p.y as int] != GridValue::Empty);
    } else if q.x < p.x || (q.x == p.x && q.y < p.y) {
        assert(b[q.x as int][q.y as int] != GridValue::Empty);
    }
}

/// A cell that is still empty means the board is not full: a draw is never
/// declared while a cell is free.
pub proof fn lemma_empty_cell_not_full(b: Board, x: int, y: int, pos: GridPosition)
    requires
        0 <= x < 3,
        0 <= y < 3,
        b[x][y] == GridValue::Empty,
    ensures
        !board_full(b),
        placement_outcome(b, pos) != Some(EndedView::Draw),
{
}

/// A board with no empty cell is full.
pub proof fn lemma_no_empty_cell_full(b: Board)
    requires
        forall|x: int, y: int| 0 <= x < 3 && 0 <= y < 3 ==> #[trigger] b[x][y] != GridValue::Empty,
    ensures
        board_full(b),
{
}

/// None of the four lines checked for `pos` (the cells of equal `y`, the
/// cells of equal `x`, and the two diagonals) holds three equal pieces.
pub open spec fn no_three_in_a_row(b: Board, pos: GridPosition) -> bool {
    let x = pos.x as int;
    let y = pos.y as int;
    &&& !(b[0][y] != GridValue::Empty && b[0][y] == b[1][y] && b[1][y] == b[2][y])
    &&& !(b[x][0] != GridValue::Empty && b[x][0] == b[x][1] && b[x][1] == b[x][2])
    &&& !(b[0][0] != GridValue::Empty && b[0][0] == b[1][1] && b[1][1] == b[2][2])
    &&& !(b[2][0] != GridValue::Empty && b[2][0] == b[1][1] && b[1][1] == b[0][2])
}

/// A full board on which no checked line holds three equal pieces is a
/// draw.
pub proof fn lemma_full_board_without_line_draws(b: Board, pos: GridPosition)
    requires
        pos.in_grid(),
        forall|x: int, y: int| 0 <= x < 3 && 0 <= y < 3 ==> #[trigger] b[x][y] != GridValue::Empty,
        no_three_in_a_row(b, pos),
    ensures
        placement_outcome(b, pos) == Some(EndedView::Draw),
{
}

/// A board with a free cell on which no checked line holds three equal
/// pieces lets the game go on.
pub proof fn lemma_open_board_without_line_goes_on(b: Board, pos: GridPosition, x: int, y: int)
    requires
        pos.in_grid(),
        0 <= x < 3,
        0 <= y < 3,
        b[x][y] == GridValue::Empty,
        no_three_in_a_row(b, pos),
    ensures
        placement_outcome(b, pos) is None,
{
}

/// If the three cells (`x0`, `y0`), (`x1`, `y1`), (`x2`, `y2`) form one of the
/// lines checked for `pos` and all hold `t`'s piece, then `t` wins and those
/// three cells are highlighted. (Any two checked lines share a cell, so the
/// other player cannot have completed one too.)
pub proof fn lemma_completed_line_wins(
    b: Board,
    pos: GridPosition,
    t: PlayerTurn,
    x0: int,
    y0: int,
    x1: int,
    y1: int,
    x2: int,
    y2: int,
)
    requires
        is_board(b),
        pos.in_grid(),
        ({
            let x = pos.x as int;
            let y = pos.y as int;
            ||| (x0, y0, x1, y1, x2, y2) == (0int, y, 1int, y, 2int, y)
            ||| (x0, y0, x1, y1, x2, y2) == (x, 0int, x, 1int, x, 2int)
            ||| (x0, y0, x1, y1, x2, y2) == (0int, 0int, 1int, 1int, 2int, 2int)
            ||| (x0, y0, x1, y1, x2, y2) == (2int, 0int, 1int, 1int, 0int, 2int)
        }),
        b[x0][y0] == GridValue::spec_from_turn(t),
        b[x1][y1] == GridValue::spec_from_turn(t),
        b[x2][y2] == GridValue::spec_from_turn(t),
    ensures
        placement_outcome(b, pos) matches Some(EndedView::Win(p, cells)) && p == t && cells.contains(
            (x0 as usize, y0 as usize),
        ) && cells.contains((x1 as usize, y1 as usize)) && cells.contains(
            (x2 as usize, y2 as usize),
        ),
{
    let o = placement_outcome(b, pos);
    match o {
        Some(EndedView::Win(p, cells)) => {
            assert(cells.contains((x0 as usize, y0 as usize)));
            assert(cells.contains((x1 as usize, y1 as usize)));
            assert(cells.contains((x2 as usize, y2 as usize)));
        },
        _ => {},
    }
}

/// The text at the end of a game names the winner and nothing else: "X
/// wins!" or "O wins!" whatever cells were completed, "It's a draw!" for a
/// draw.
pub proof fn lemma_game_over_text_names_winner(cells: Set<(usize, usize)>)
    ensures
        game_over_text(EndedView::Win(PlayerTurn::X, cells)) == "X wins!"@,
        game_over_text(EndedView::Win(PlayerTurn::O, cells)) == "O wins!"@,
        game_over_text(EndedView::Draw) == "It's a draw!"@,
{
}

/// The computer picks the empty cell of least index `3 * x + y`: every cell
/// of smaller index is taken.
pub proof fn lemma_ai_choice_least_index(b: Board, pos: GridPosition)
    requires
        ai_choice(b, pos),
    ensures
        b[pos.x as int][pos.y as int] == GridValue::Empty,
        forall|a: int, c: int|
            0 <= a < 3 && 0 <= c < 3 && 3 * a + c < 3 * pos.x + pos.y ==> #[trigger] b[a][c]
                != GridValue::Empty,
{
    assert forall|a: int, c: int|
        0 <= a < 3 && 0 <= c < 3 && 3 * a + c < 3 * pos.x + pos.y implies #[trigger] b[a][c]
            != GridValue::Empty by {
        assert(a < pos.x || (a == pos.x && c < pos.y));
    }
}

/// Conversely, the empty cell of least index is the computer's choice.
pub proof fn lemma_least_empty_is_ai_choice(b: Board, pos: GridPosition)
    requires
        pos.in_grid(),
        b[pos.x as int][pos.y as int] == GridValue::Empty,
        forall|a: int, c: int|
            0 <= a < 3 && 0 <= c < 3 && 3 * a + c < 3 * pos.x + pos.y ==> #[trigger] b[a][c]
                != GridValue::Empty,
    ensures
        ai_choice(b, pos),
{
    assert forall|a: int, c: int|
        0 <= a < 3 && 0 <= c < 3 && crate::ai::before(a, c, pos.x as int, pos.y as int)
            implies #[trigger] b[a][c] != GridValue::Empty by {
        assert(3 * a + c < 3 * pos.x + pos.y);
    }
}

/// With a single piece placed, the end of game reported is exactly what
/// that placement means for the game.
pub proof fn lemma_first_outcome_single(b: Board, e: PiecePlacedEvent)
    ensures
        first_outcome(b, seq![e]) == placement_outcome(b, e.pos),
{
    reveal_with_fuel(first_outcome, 2);
    assert(seq![e].drop_first().len() == 0);
}

/// The end of game reported for several pieces is the outcome of the first
/// piece whose placement ends the game, unchanged.
pub proof fn lemma_first_outcome_is_first_ending(b: Board, events: Seq<PiecePlacedEvent>, i: int)
    requires
        0 <= i < events.len(),
        forall|j: int| 0 <= j < i ==> placement_outcome(b, #[trigger] events[j].pos) is None,
        placement_outcome(b, events[i].pos) is Some,
    ensures
        first_outcome(b, events) == placement_outcome(b, events[i].pos),
    decreases i,
{
    if i > 0 {
        let rest = events.drop_first();
        assert forall|j: int| 0 <= j < i - 1 implies placement_outcome(b, #[trigger] rest[j].pos) is None by {
            assert(rest[j] == events[j + 1]);
        }
        assert(placement_outcome(b, events[0].pos) is None);
        lemma_first_outcome_is_first_ending(b, rest, i - 1);
        assert(rest[i - 1] == events[i]);
    }
}

/// When no placed piece ends the game, none is reported.
pub proof fn lemma_first_outcome_none(b: Board, events: Seq<PiecePlacedEvent>)
    requires
        forall|j: int| 0 <= j < events.len() ==> placement_outcome(b, #[trigger] events[j].pos) is None,
    ensures
        first_outcome(b, events) is None,
    decreases events.len(),
{
    if events.len() > 0 {
        let rest = events.drop_first();
        assert forall|j: int| 0 <= j < rest.len() implies placement_outcome(b, #[trigger] rest[j].pos) is None by {
            assert(rest[j] == events[j + 1]);
        }
        assert(placement_outcome(b, events[0].pos) is None);
        lemma_first_outcome_none(b, rest);
    }
}

} // verus!
