use tictactoe::game::{GridPosition, TryPlaceEvent};
use tictactoe::state::AppState;
use tictactoe::ui::{
    grid_button_name, grid_layout, handle_player_input, menu, GridButtonColor, GridInput,
    Interaction, MenuButtonColor, MenuInput, RowItem,
};

#[test]
fn grid_button_input() {
    let p = GridPosition { x: 2, y: 1 };
    assert_eq!(handle_player_input(Interaction::Clicked, p), GridInput::TryPlace(TryPlaceEvent { pos: p }));
    assert_eq!(handle_player_input(Interaction::Hovered, p), GridInput::Recolor(GridButtonColor::Highlight));
    assert_eq!(handle_player_input(Interaction::Idle, p), GridInput::Recolor(GridButtonColor::Button));
}

#[test]
fn menu_buttons() {
    assert_eq!(menu(Interaction::Clicked, true, false), MenuInput::SetState(AppState::Game));
    assert_eq!(menu(Interaction::Clicked, false, true), MenuInput::SetState(AppState::Test));
    assert_eq!(menu(Interaction::Clicked, false, false), MenuInput::Nothing);
    assert_eq!(menu(Interaction::Hovered, true, false), MenuInput::Recolor(MenuButtonColor::Hover));
    assert_eq!(menu(Interaction::Idle, false, true), MenuInput::Recolor(MenuButtonColor::Button));
}

#[test]
fn button_names() {
    assert_eq!(grid_button_name(GridPosition { x: 1, y: 2 }), "GridButton1-2");
    assert_eq!(grid_button_name(GridPosition { x: 0, y: 0 }), "GridButton0-0");
}

#[test]
fn layout_has_three_rows_of_buttons_and_separators() {
    let rows = grid_layout();
    assert_eq!(rows.len(), 3);
    for (i, row) in rows.iter().enumerate() {
        assert_eq!(row.separator_after, i < 2);
        assert_eq!(row.items.len(), 5);
        for (k, item) in row.items.iter().enumerate() {
            match item {
                RowItem::Button { pos, name } => {
                    assert_eq!(k % 2, 0);
                    assert_eq!(*pos, GridPosition { x: i, y: k / 2 });
                    assert_eq!(*name, format!("GridButton{}-{}", i, k / 2));
                }
                RowItem::VerticalSeparator => assert_eq!(k % 2, 1),
            }
        }
    }
}
