use vstd::prelude::*;

use crate::address::Address;
use crate::bet::EscrowAccount;
use crate::errors::TicTacToeError;
use crate::game::TicTacToeGame;

verus! {

/// What closing a game acts on: the two records and the address that closes them.
#[derive(Clone, Copy, Debug)]
pub struct EndGame {
    pub game: TicTacToeGame,
    pub escrow: EscrowAccount,
    pub closer: Address,
}

/// Whether the two records may be closed: the game must be over and both
/// stakes paid out.
pub fn end_game(ctx: &EndGame) -> (r: Result<(), TicTacToeError>)
    ensures
        r == if !ctx.game@.is_terminal() {
            Err(TicTacToeError::GameNotOver)
        } else if ctx.escrow@.amount1 != 0 || ctx.escrow@.amount2 != 0 {
            Err(TicTacToeError::EscrowFundsPresent)
        } else {
            Ok::<(), TicTacToeError>(())
        },
{
    if ctx.game.is_active() {
        return Err(TicTacToeError::GameNotOver);
    }
    if ctx.escrow.holds_funds() {
        return Err(TicTacToeError::EscrowFundsPresent);
    }
    Ok(())
}

} // verus!
