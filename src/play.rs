use vstd::prelude::*;

use crate::address::Address;
use crate::errors::TicTacToeError;
use crate::game::{cell_index, GameView, TicTacToeGame, Tile};

verus! {

/// What a move acts on: the game and the address that signed the move.
#[derive(Clone, Copy, Debug)]
pub struct Play {
    pub game: TicTacToeGame,
    pub player: Address,
}

/// Why `player` cannot play `tile` now, checked in this order; `None` if the
/// move is legal.
pub open spec fn play_error(game: GameView, player: Address, tile: Tile) -> Option<TicTacToeError> {
    match game.move_error(tile) {
        Some(e) => Some(e),
        None => if player != game.current_player() {
            Some(TicTacToeError::NotPlayersTurn)
        } else {
            None
        },
    }
}

/// `ctx.player` marks `tile`, provided the game is in progress, the cell lies
/// on the board and is empty, and it is that player's turn.
pub fn play(ctx: &mut Play, tile: Tile) -> (r: Result<(), TicTacToeError>)
    requires
        old(ctx).game@.wf(),
    ensures
        r == match play_error(old(ctx).game@, old(ctx).player, tile) {
            Some(e) => Err(e),
            None => Ok::<(), TicTacToeError>(()),
        },
        r is Ok ==> final(ctx).game@ == old(ctx).game@.after_move(tile),
        r is Err ==> *final(ctx) == *old(ctx),
        old(ctx).player != old(ctx).game@.current_player() ==> r is Err,
        tile.row >= 3 || tile.column >= 3 || old(ctx).game@.board[cell_index(tile)] is Some
            ==> r is Err && final(ctx).game.board == old(ctx).game.board,
        final(ctx).game@.wf(),
        final(ctx).game.bump == old(ctx).game.bump,
        final(ctx).player == old(ctx).player,
{
    if let Err(e) = ctx.game.check_move(&tile) {
        return Err(e);
    }
    if !ctx.player.same(&ctx.game.current_player()) {
        return Err(TicTacToeError::NotPlayersTurn);
    }
    ctx.game.play(&tile)
}

} // verus!
