//! The mathematical side of the library: the game and the snake as values
//! of sequences and integers, the functions that say what each operation
//! makes of them, and the laws proved of those functions.

pub mod game;
pub mod snake;
