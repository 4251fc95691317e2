use vstd::prelude::*;

use crate::address::Address;
use crate::bet::{EscrowAccount, EscrowView};
use crate::errors::TicTacToeError;
use crate::game::{GameView, TicTacToeGame};

verus! {

/// What setting up a game acts on: the game and escrow records to fill, the
/// two players, and the storage bumps of the two records.
#[derive(Clone, Copy, Debug)]
pub struct SetupGame {
    pub game: TicTacToeGame,
    pub escrow: EscrowAccount,
    pub player_one: Address,
    pub player_two: Address,
    pub game_bump: u8,
    pub escrow_bump: u8,
}

/// Starts a game between `ctx.player_one` (who moves first) and
/// `ctx.player_two`, and opens its escrow with both stakes at zero.
pub fn setup_game(ctx: &mut SetupGame) -> (r: Result<(), TicTacToeError>)
    ensures
        old(ctx).escrow@.initialized ==> r == Err::<(), TicTacToeError>(
            TicTacToeError::EscrowAlreadyInitialized,
        ) && *final(ctx) == *old(ctx),
        !old(ctx).escrow@.initialized ==> r is Ok && final(ctx).game@ == GameView::fresh(
            seq![old(ctx).player_one, old(ctx).player_two],
        ) && final(ctx).game@.wf() && final(ctx).game.bump == old(ctx).game_bump
            && final(ctx).escrow@ == (EscrowView {
            amount1: 0,
            amount2: 0,
            bump: old(ctx).escrow_bump,
            player_one: old(ctx).player_one,
            player_two: old(ctx).player_two,
            initialized: true,
        }),
        final(ctx).player_one == old(ctx).player_one,
        final(ctx).player_two == old(ctx).player_two,
        final(ctx).game_bump == old(ctx).game_bump,
        final(ctx).escrow_bump == old(ctx).escrow_bump,
{
    if ctx.escrow.is_initialized() {
        return Err(TicTacToeError::EscrowAlreadyInitialized);
    }
    let players = [ctx.player_one, ctx.player_two];
    proof {
        assert(players@ =~= seq![ctx.player_one, ctx.player_two]);
    }
    ctx.game = TicTacToeGame::new(players, ctx.game_bump);
    ctx.escrow.initialize(ctx.player_one, ctx.player_two, ctx.escrow_bump)
}

} // verus!
