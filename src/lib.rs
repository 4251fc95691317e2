//! Tic-tac-toe between two addresses, with an escrow that holds each
//! player's stake until the game is decided.

pub mod address;
pub mod bet;
pub mod end_game;
pub mod errors;
pub mod game;
pub mod play;
pub mod setup_game;

pub use address::Address;
pub use bet::{deposit, withdraw, Deposit, EscrowAccount, EscrowView, Payout, Withdraw};
pub use errors::TicTacToeError;
pub use game::{GameState, GameView, Sign, TicTacToeGame, Tile};
pub use play::{play, Play};
pub use end_game::{end_game, EndGame};
pub use setup_game::{setup_game, SetupGame};
