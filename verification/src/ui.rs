//! What the buttons of the menu and of the grid do, and how the grid of
//! buttons is laid out.
use vstd::prelude::*;

use crate::game::{GridPosition, TryPlaceEvent};
use crate::state::AppState;

verus! {

/// The state of a button under the mouse.
#[derive(Clone, Copy, Debug, PartialEq, Eq, Structural)]
pub enum Interaction {
    Clicked,
    Hovered,
    Idle,
}

/// The colour a grid button takes.
#[derive(Clone, Copy, Debug, PartialEq, Eq, Structural)]
pub enum GridButtonColor {
    Highlight,
    Button,
}

/// What an interaction with a grid button asks for.
#[derive(Clone, Copy, Debug, PartialEq, Eq, Structural)]
pub enum GridInput {
    TryPlace(TryPlaceEvent),
    Recolor(GridButtonColor),
}

/// A click on the button of `grid_position` asks to place a piece there;
/// hovering highlights the button; otherwise it takes the button colour.
pub fn handle_player_input(interaction: Interaction, grid_position: GridPosition) -> (res: GridInput)
    ensures
        res == (match interaction {
            Interaction::Clicked => GridInput::TryPlace(TryPlaceEvent { pos: grid_position }),
            Interaction::Hovered => GridInput::Recolor(GridButtonColor::Highlight),
            Interaction::Idle => GridInput::Recolor(GridButtonColor::Button),
        }),
{
    match interaction {
        Interaction::Clicked => GridInput::TryPlace(TryPlaceEvent { pos: grid_position }),
        Interaction::Hovered => GridInput::Recolor(GridButtonColor::Highlight),
        Interaction::Idle => GridInput::Recolor(GridButtonColor::Button),
    }
}

/// The colour a menu button takes.
#[derive(Clone, Copy, Debug, PartialEq, Eq, Structural)]
pub enum MenuButtonColor {
    Hover,
    Button,
}

/// What an interaction with a menu button asks for.
#[derive(Clone, Copy, Debug, PartialEq, Eq, Structural)]
pub enum MenuInput {
    /// Move the app to this state.
    SetState(AppState),
    Recolor(MenuButtonColor),
    /// A click on a button that is neither "Start" nor "Test".
    Nothing,
}

/// A click on "Start" starts a game, a click on "Test" opens the test mode;
/// hovering gives the hover colour, otherwise the button colour. A button is
/// not both "Start" and "Test" (asking for both states at once panics).
pub fn menu(interaction: Interaction, play: bool, test: bool) -> (res: MenuInput)
    requires
        !(interaction == Interaction::Clicked && play && test),
    ensures
        res == (match interaction {
            Interaction::Clicked => if play {
                MenuInput::SetState(AppState::Game)
            } else if test {
                MenuInput::SetState(AppState::Test)
            } else {
                MenuInput::Nothing
            },
            Interaction::Hovered => MenuInput::Recolor(MenuButtonColor::Hover),
            Interaction::Idle => MenuInput::Recolor(MenuButtonColor::Button),
        }),
{
    match interaction {
        Interaction::Clicked => {
            if play {
                MenuInput::SetState(AppState::Game)
            } else if test {
                MenuInput::SetState(AppState::Test)
            } else {
                MenuInput::Nothing
            }
        },
        Interaction::Hovered => MenuInput::Recolor(MenuButtonColor::Hover),
        Interaction::Idle => MenuInput::Recolor(MenuButtonColor::Button),
    }
}

/// The decimal digit of `n < 3`.
pub open spec fn digit_text(n: usize) -> Seq<char> {
    if n == 0 {
        "0"@
    } else if n == 1 {
        "1"@
    } else {
        "2"@
    }
}

/// The name of the button of cell `pos`: "GridButton{x}-{y}".
pub open spec fn button_name_text(pos: GridPosition) -> Seq<char> {
    "GridButton"@ + digit_text(pos.x) + "-"@ + digit_text(pos.y)
}

fn digit(n: usize) -> (res: &'static str)
    requires
        n < 3,
    ensures
        res@ == digit_text(n),
{
    if n == 0 {
        "0"
    } else if n == 1 {
        "1"
    } else {
        "2"
    }
}

/// The name given to the button of cell `pos`.
pub fn grid_button_name(pos: GridPosition) -> (res: String)
    requires
        pos.in_grid(),
    ensures
        res@ == button_name_text(pos),
{
    String::from_str("GridButton").concat(digit(pos.x)).concat("-").concat(digit(pos.y))
}

/// One child of a row of the grid.
pub enum RowItem {
    /// The button of a cell, with its name.
    Button { pos: GridPosition, name: String },
    VerticalSeparator,
}

/// A row of the grid, and whether a horizontal separator follows it.
pub struct RowLayout {
    pub items: Vec<RowItem>,
    pub separator_after: bool,
}

/// The `k`-th child of row `i`: buttons at even places, separators between.
pub open spec fn row_item_matches(item: RowItem, i: usize, k: int) -> bool {
    if k % 2 == 0 {
        item matches RowItem::Button { pos, name } && pos == (GridPosition { x: i, y: (k / 2) as usize })
            && name@ == button_name_text(pos)
    } else {
        item is VerticalSeparator
    }
}

/// Row `i`: the buttons of cells (`i`, 0), (`i`, 1), (`i`, 2) with a vertical
/// separator between each two.
pub fn row_layout(i: usize) -> (res: RowLayout)
    requires
        i < 3,
    ensures
        res.items@.len() == 5,
        forall|k: int| 0 <= k < 5 ==> row_item_matches(#[trigger] res.items@[k], i, k),
        res.separator_after == (i < 2),
{
    let mut items: Vec<RowItem> = Vec::new();
    let mut j: usize = 0;
    while j < 3
        invariant
            i < 3,
            j <= 3,
            items@.len() == if j == 0 { 0 } else { 2 * j - 1 },
            forall|k: int| 0 <= k < items@.len() ==> row_item_matches(#[trigger] items@[k], i, k),
        decreases 3 - j,
    {
        if j > 0 {
            items.push(RowItem::VerticalSeparator);
        }
        let pos = GridPosition { x: i, y: j };
        items.push(RowItem::Button { pos, name: grid_button_name(pos) });
        j = j + 1;
    }
    RowLayout { items, separator_after: i < 2 }
}

/// The three rows of the grid, top to bottom, with a horizontal separator
/// after each row but the last.
pub fn grid_layout() -> (res: Vec<RowLayout>)
    ensures
        res@.len() == 3,
        forall|i: int|
            0 <= i < 3 ==> {
                &&& (#[trigger] res@[i]).items@.len() == 5
                &&& forall|k: int|
                    0 <= k < 5 ==> row_item_matches(#[trigger] res@[i].items@[k], i as usize, k)
                &&& res@[i].separator_after == (i < 2)
            },
{
    let mut rows: Vec<RowLayout> = Vec::new();
    let mut i: usize = 0;
    while i < 3
        invariant
            i <= 3,
            rows@.len() == i,
            forall|r: int|
                0 <= r < i ==> {
                    &&& (#[trigger] rows@[r]).items@.len() == 5
                    &&& forall|k: int|
                        0 <= k < 5 ==> row_item_matches(#[trigger] rows@[r].items@[k], r as usize, k)
                    &&& rows@[r].separator_after == (r < 2)
                },
        decreases 3 - i,
    {
        rows.push(row_layout(i));
        i = i + 1;
    }
    rows
}

} // verus!
