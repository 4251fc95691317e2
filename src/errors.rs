use vstd::prelude::*;

verus! {

/// Every way an operation on a game or its escrow can be rejected.
#[derive(Clone, Copy, Debug, PartialEq, Eq, Structural)]
pub enum TicTacToeError {
    TileOutOfBounds,
    TileAlreadySet,
    GameAlreadyOver,
    NotPlayersTurn,
    GameAlreadyStarted,
    GameNotOver,
    UnauthorizedUser,
    AmountMismatch,
    InvalidPlayerOne,
    InvalidPlayerTwo,
    EscrowAlreadyInitialized,
    EscrowNotInitialized,
    EscrowFundsPresent,
}

} // verus!
