//! The screens of the app.
use vstd::prelude::*;

verus! {

/// Which screen the app shows.
#[derive(Clone, Copy, Debug, Hash, PartialEq, Eq, Structural)]
pub enum AppState {
    Menu,
    Game,
    Test,
    GameOver,
}

} // verus!
