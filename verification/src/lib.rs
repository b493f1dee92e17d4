//! The pre-game shell of a terminal Battleship game: the start menu that
//! collects a player name and either a choice to host or the address of a
//! peer, the top-level game state that holds it, and the mapping from one key
//! press to its effect on the menu.
//!
//! Every function is stated against a mathematical model of the menu
//! ([`game::StartMenuView`]) and verified against it.

pub mod game;
pub mod input;
pub mod text;
