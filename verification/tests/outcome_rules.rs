use tictactoe::game::{Grid, GridPosition, GridValue, PiecePlacedEvent, PlayerTurn};
use tictactoe::outcome::{
    check_win_condition, evaluate_placement, handle_game_over, GameEndedEvent, VictoryCells,
    WinState,
};
use tictactoe::players::PlayerDriver;
use tictactoe::state::AppState;

fn pos(x: usize, y: usize) -> GridPosition {
    GridPosition { x, y }
}

fn grid_of(rows: [[char; 3]; 3]) -> Grid {
    let mut g = Grid::new();
    for x in 0..3 {
        for y in 0..3 {
            let v = match rows[x][y] {
                'X' => GridValue::X,
                'O' => GridValue::O,
                _ => GridValue::Empty,
            };
            g.set(pos(x, y), v);
        }
    }
    g
}

fn cells_of(v: &VictoryCells) -> Vec<(usize, usize)> {
    let mut out = Vec::new();
    for x in 0..3 {
        for y in 0..3 {
            if v.contains(x, y) {
                out.push((x, y));
            }
        }
    }
    out
}

fn win(e: Option<GameEndedEvent>) -> (PlayerTurn, Vec<(usize, usize)>) {
    match e {
        Some(GameEndedEvent::Win(w)) => (w.player, cells_of(&w.victory_cells)),
        _ => panic!("expected a win"),
    }
}

#[test]
fn fixed_y_line_wins_for_x() {
    let g = grid_of([['X', 'O', '.'], ['X', 'O', '.'], ['X', '.', '.']]);
    let (p, cells) = win(evaluate_placement(&g, pos(2, 0)));
    assert_eq!(p, PlayerTurn::X);
    assert_eq!(cells, vec![(0, 0), (1, 0), (2, 0)]);
}

#[test]
fn fixed_x_line_wins_for_o() {
    let g = grid_of([['X', 'X', '.'], ['O', 'O', 'O'], ['X', '.', '.']]);
    let (p, cells) = win(evaluate_placement(&g, pos(1, 1)));
    assert_eq!(p, PlayerTurn::O);
    assert_eq!(cells, vec![(1, 0), (1, 1), (1, 2)]);
}

#[test]
fn line_not_through_the_cell_is_not_checked() {
    let g = grid_of([['O', 'O', 'O'], ['X', 'X', '.'], ['.', '.', 'X']]);
    assert!(evaluate_placement(&g, pos(1, 0)).is_none());
}

#[test]
fn diagonals_are_always_checked() {
    let g = grid_of([['X', 'O', '.'], ['O', 'X', '.'], ['.', '.', 'X']]);
    let (p, cells) = win(evaluate_placement(&g, pos(1, 0)));
    assert_eq!(p, PlayerTurn::X);
    assert_eq!(cells, vec![(0, 0), (1, 1), (2, 2)]);
    let g = grid_of([['X', '.', 'O'], ['X', 'O', '.'], ['O', '.', 'X']]);
    let (p, cells) = win(evaluate_placement(&g, pos(0, 2)));
    assert_eq!(p, PlayerTurn::O);
    assert_eq!(cells, vec![(0, 2), (1, 1), (2, 0)]);
}

#[test]
fn winner_follows_the_completed_line() {
    let g = grid_of([['X', 'O', '.'], ['X', 'O', '.'], ['X', 'O', '.']]);
    let (p, cells) = win(evaluate_placement(&g, pos(0, 1)));
    assert_eq!(p, PlayerTurn::O);
    assert_eq!(cells, vec![(0, 1), (1, 1), (2, 1)]);
    let (p, cells) = win(evaluate_placement(&g, pos(0, 0)));
    assert_eq!(p, PlayerTurn::X);
    assert_eq!(cells, vec![(0, 0), (1, 0), (2, 0)]);
}

#[test]
fn two_lines_through_the_cell() {
    let g = grid_of([['X', 'X', 'X'], ['O', 'X', 'O'], ['O', 'X', 'O']]);
    let (p, cells) = win(evaluate_placement(&g, pos(0, 1)));
    assert_eq!(p, PlayerTurn::X);
    assert_eq!(cells, vec![(0, 0), (0, 1), (0, 2), (1, 1), (2, 1)]);
}

#[test]
fn full_board_without_line_is_a_draw() {
    let g = grid_of([['X', 'O', 'X'], ['X', 'O', 'O'], ['O', 'X', 'X']]);
    assert!(matches!(evaluate_placement(&g, pos(2, 2)), Some(GameEndedEvent::Draw)));
}

#[test]
fn game_goes_on_otherwise() {
    let g = grid_of([['X', 'O', 'X'], ['.', 'O', '.'], ['.', '.', '.']]);
    assert!(evaluate_placement(&g, pos(1, 1)).is_none());
    assert!(evaluate_placement(&Grid::new(), pos(0, 0)).is_none());
}

#[test]
fn first_ending_placement_is_reported() {
    let g = grid_of([['X', 'X', 'X'], ['O', 'O', '.'], ['.', '.', '.']]);
    let events = vec![
        PiecePlacedEvent { pos: pos(2, 2) },
        PiecePlacedEvent { pos: pos(0, 1) },
        PiecePlacedEvent { pos: pos(1, 1) },
    ];
    let (p, cells) = win(check_win_condition(&events, &g));
    assert_eq!(p, PlayerTurn::X);
    assert_eq!(cells, vec![(0, 0), (0, 1), (0, 2)]);
    assert!(check_win_condition(&Vec::new(), &g).is_none());
    assert!(check_win_condition(&vec![PiecePlacedEvent { pos: pos(2, 2) }], &g).is_none());
}

#[test]
fn game_over_texts_and_highlights() {
    let d = handle_game_over(&GameEndedEvent::Draw);
    assert_eq!(d.status.text, "It's a draw!");
    assert_eq!(d.next_state, AppState::GameOver);
    assert_eq!(d.next_driver, PlayerDriver::Nobody);
    assert!(cells_of(&d.highlighted).is_empty());

    let mut cells = VictoryCells::new();
    cells.insert(0, 2);
    cells.insert(1, 1);
    cells.insert(2, 0);
    let o = handle_game_over(&GameEndedEvent::Win(WinState { player: PlayerTurn::O, victory_cells: cells }));
    assert_eq!(o.status.text, "O wins!");
    assert_eq!(o.next_state, AppState::GameOver);
    assert_eq!(o.next_driver, PlayerDriver::Nobody);
    assert_eq!(cells_of(&o.highlighted), vec![(0, 2), (1, 1), (2, 0)]);

    let x = handle_game_over(&GameEndedEvent::Win(WinState {
        player: PlayerTurn::X,
        victory_cells: VictoryCells::new(),
    }));
    assert_eq!(x.status.text, "X wins!");
}

#[test]
fn victory_cells_outside_grid_are_absent() {
    let mut cells = VictoryCells::new();
    cells.insert(2, 2);
    assert!(cells.contains(2, 2));
    assert!(!cells.contains(3, 2));
    assert!(!cells.contains(2, 7));
    assert!(!cells.contains(1, 2));
}

#[test]
fn events_after_the_ending_one_are_not_read() {
    let g = grid_of([['X', 'X', 'X'], ['O', 'O', '.'], ['.', '.', '.']]);
    let events = vec![PiecePlacedEvent { pos: pos(0, 0) }, PiecePlacedEvent { pos: pos(3, 0) }];
    let (p, cells) = win(check_win_condition(&events, &g));
    assert_eq!(p, PlayerTurn::X);
    assert_eq!(cells, vec![(0, 0), (0, 1), (0, 2)]);
}
