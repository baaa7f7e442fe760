//! Core of a noughts-and-crosses (tic-tac-toe) game: the 3x3 board state
//! machine with win/draw detection, the two players with their symbols and
//! seats, the game orchestration, and the parser for textual move input.
//! Console I/O and rendering live outside this library.

pub mod board;
pub mod game;
pub mod game_error;
pub mod game_mode;
pub mod input_error;
pub mod player;
pub mod player_symbol;

pub use board::Board;
pub use game::Game;
pub use game_error::GameError;
pub use game_mode::GameMode;
pub use input_error::{parse_input, InputError};
pub use player::Player;
pub use player_symbol::PlayerSymbol;
