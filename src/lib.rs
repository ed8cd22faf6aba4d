//! A two-player tic-tac-toe game: a 3×3 board with move validation and
//! win detection, and the turn-by-turn state machine that drives a game.
pub mod field;
pub mod game;
