pub mod board;
pub mod game;
