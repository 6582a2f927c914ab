use tictactoe::ai::{handle_ai_move, start_ai_move};
use tictactoe::game::{
    place_grid_piece, GameState, Grid, GridPosition, GridValue, PlaceOutcome, PlayerTurn,
    TryPlaceEvent, TurnParams,
};
use tictactoe::players::{PlayerDriver, PlayerDrivers};

fn pos(x: usize, y: usize) -> GridPosition {
    GridPosition { x, y }
}

fn new_turn(x: PlayerDriver, o: PlayerDriver) -> TurnParams {
    TurnParams { game_state: GameState::default(), players: PlayerDrivers::new(x, o) }
}

fn count(grid: &Grid, v: GridValue) -> usize {
    let mut n = 0;
    for x in 0..3 {
        for y in 0..3 {
            if grid.get(pos(x, y)) == v {
                n += 1;
            }
        }
    }
    n
}

#[test]
fn next_alternates_between_players() {
    assert_eq!(PlayerTurn::X.next(), PlayerTurn::O);
    assert_eq!(PlayerTurn::O.next(), PlayerTurn::X);
    assert_eq!(PlayerTurn::X.next().next(), PlayerTurn::X);
    assert_eq!(PlayerTurn::default(), PlayerTurn::X);
    assert_eq!(GameState::default().player_turn, PlayerTurn::X);
}

#[test]
fn player_names_and_pieces() {
    assert_eq!(String::from(PlayerTurn::X), "X");
    assert_eq!(String::from(PlayerTurn::O), "O");
    assert_eq!(GridValue::from(PlayerTurn::X), GridValue::X);
    assert_eq!(GridValue::from(PlayerTurn::O), GridValue::O);
    assert_eq!(GridValue::X.score(), 1);
    assert_eq!(GridValue::O.score(), -1);
    assert_eq!(GridValue::Empty.score(), 0);
}

#[test]
fn new_grid_is_empty() {
    let g = Grid::new();
    assert_eq!(count(&g, GridValue::Empty), 9);
}

#[test]
fn set_is_read_back_and_keeps_other_cells() {
    let mut g = Grid::new();
    g.set(pos(2, 1), GridValue::O);
    assert_eq!(g.get(pos(2, 1)), GridValue::O);
    assert_eq!(g.get(pos(1, 2)), GridValue::Empty);
    assert_eq!(count(&g, GridValue::Empty), 8);
    g.set(pos(2, 1), GridValue::X);
    assert_eq!(g.get(pos(2, 1)), GridValue::X);
    assert_eq!(count(&g, GridValue::O), 0);
}

#[test]
fn placement_on_empty_cell_passes_the_turn() {
    let mut g = Grid::new();
    let mut tp = new_turn(PlayerDriver::Input, PlayerDriver::AI);
    match place_grid_piece(&mut g, &mut tp, pos(1, 2)) {
        PlaceOutcome::Placed { player, placed, driver, status } => {
            assert_eq!(player, PlayerTurn::X);
            assert_eq!(placed.pos, pos(1, 2));
            assert_eq!(driver, PlayerDriver::AI);
            assert_eq!(status.text, "O to move");
        }
        PlaceOutcome::Rejected { .. } => panic!("the cell was empty"),
    }
    assert_eq!(g.get(pos(1, 2)), GridValue::X);
    assert_eq!(tp.game_state.player_turn, PlayerTurn::O);
    match place_grid_piece(&mut g, &mut tp, pos(0, 0)) {
        PlaceOutcome::Placed { player, driver, status, .. } => {
            assert_eq!(player, PlayerTurn::O);
            assert_eq!(driver, PlayerDriver::Input);
            assert_eq!(status.text, "X to move");
        }
        PlaceOutcome::Rejected { .. } => panic!("the cell was empty"),
    }
    assert_eq!(g.get(pos(0, 0)), GridValue::O);
    assert_eq!(tp.game_state.player_turn, PlayerTurn::X);
}

#[test]
fn placement_on_taken_cell_is_rejected() {
    let mut g = Grid::new();
    let mut tp = new_turn(PlayerDriver::Input, PlayerDriver::Input);
    place_grid_piece(&mut g, &mut tp, pos(1, 1));
    match place_grid_piece(&mut g, &mut tp, pos(1, 1)) {
        PlaceOutcome::Rejected { status } => assert_eq!(status.text, "Invalid move"),
        PlaceOutcome::Placed { .. } => panic!("the cell was taken"),
    }
    assert_eq!(g.get(pos(1, 1)), GridValue::X);
    assert_eq!(tp.game_state.player_turn, PlayerTurn::O);
    assert_eq!(count(&g, GridValue::Empty), 8);
}

#[test]
fn end_turn_switches_player_and_driver() {
    let mut tp = new_turn(PlayerDriver::AI, PlayerDriver::Input);
    assert_eq!(tp.end_turn(), PlayerDriver::Input);
    assert_eq!(tp.game_state.player_turn, PlayerTurn::O);
    assert_eq!(tp.end_turn(), PlayerDriver::AI);
    assert_eq!(tp.game_state.player_turn, PlayerTurn::X);
}

#[test]
fn drivers_are_kept_per_player() {
    let d = PlayerDrivers::new(PlayerDriver::Nobody, PlayerDriver::AI);
    assert!(d.has_driver(PlayerTurn::X));
    assert!(d.has_driver(PlayerTurn::O));
}

#[test]
fn placements_keep_pieces_balanced() {
    let mut g = Grid::new();
    let mut tp = new_turn(PlayerDriver::Input, PlayerDriver::Input);
    let moves = [pos(0, 0), pos(0, 0), pos(1, 1), pos(2, 2), pos(1, 1), pos(0, 2), pos(2, 0)];
    for m in moves.iter() {
        place_grid_piece(&mut g, &mut tp, *m);
        let x = count(&g, GridValue::X);
        let o = count(&g, GridValue::O);
        let expected = if tp.game_state.player_turn == PlayerTurn::O { 1 } else { 0 };
        assert_eq!(x - o, expected);
    }
    assert_eq!(count(&g, GridValue::X), 3);
    assert_eq!(count(&g, GridValue::O), 2);
}

#[test]
fn ai_takes_first_empty_cell_row_by_row() {
    let mut g = Grid::new();
    assert_eq!(handle_ai_move(&g), Some(TryPlaceEvent { pos: pos(0, 0) }));
    g.set(pos(0, 0), GridValue::X);
    g.set(pos(0, 1), GridValue::O);
    g.set(pos(1, 0), GridValue::O);
    assert_eq!(handle_ai_move(&g), Some(TryPlaceEvent { pos: pos(0, 2) }));
    g.set(pos(0, 2), GridValue::X);
    assert_eq!(handle_ai_move(&g), Some(TryPlaceEvent { pos: pos(1, 1) }));
}

#[test]
fn ai_has_no_move_on_full_grid() {
    let mut g = Grid::new();
    for x in 0..3 {
        for y in 0..3 {
            g.set(pos(x, y), if (x + y) % 2 == 0 { GridValue::X } else { GridValue::O });
        }
    }
    assert_eq!(handle_ai_move(&g), None);
    assert!(g.is_full());
}

#[test]
fn ai_move_is_accepted() {
    let mut g = Grid::new();
    let mut tp = new_turn(PlayerDriver::AI, PlayerDriver::AI);
    for _ in 0..9 {
        let ev = handle_ai_move(&g).unwrap();
        match place_grid_piece(&mut g, &mut tp, ev.pos) {
            PlaceOutcome::Placed { .. } => {}
            PlaceOutcome::Rejected { .. } => panic!("the computer chose a taken cell"),
        }
    }
    assert_eq!(handle_ai_move(&g), None);
}

#[test]
fn ai_announces_thinking() {
    assert_eq!(start_ai_move().text, "AI thinking");
}
