pub mod ai;
pub mod game;
pub mod laws;
pub mod outcome;
pub mod players;
pub mod state;
pub mod ui;
