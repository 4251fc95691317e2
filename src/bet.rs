use vstd::prelude::*;

use crate::address::Address;
use crate::errors::TicTacToeError;
use crate::game::{GameState, GameView, TicTacToeGame};

verus! {

/// The escrow record of one game: what each player has staked.
#[derive(Clone, Copy, Debug)]
pub struct EscrowAccount {
    pub amount1: u64,
    pub amount2: u64,
    pub bump: u8,
    player_one: Address,
    player_two: Address,
    initialized: bool,
}

/// The mathematical model of an escrow record.
pub struct EscrowView {
    pub amount1: u64,
    pub amount2: u64,
    pub bump: u8,
    pub player_one: Address,
    pub player_two: Address,
    pub initialized: bool,
}

impl EscrowView {
    /// The record once `amount` is recorded as `user`'s stake.
    pub open spec fn with_stake(self, user: Address, amount: u64) -> EscrowView {
        if user == self.player_one {
            EscrowView { amount1: amount, ..self }
        } else {
            EscrowView { amount2: amount, ..self }
        }
    }

    /// The record with both stakes paid out.
    pub open spec fn cleared(self) -> EscrowView {
        EscrowView { amount1: 0, amount2: 0, ..self }
    }
}

impl View for EscrowAccount {
    type V = EscrowView;

    closed spec fn view(&self) -> EscrowView {
        EscrowView {
            amount1: self.amount1,
            amount2: self.amount2,
            bump: self.bump,
            player_one: self.player_one,
            player_two: self.player_two,
            initialized: self.initialized,
        }
    }
}

impl EscrowAccount {
    /// A blank record, as storage hands it out before `initialize`.
    pub fn new() -> (r: EscrowAccount)
        ensures
            r@.amount1 == 0,
            r@.amount2 == 0,
            r@.bump == 0,
            r@.player_one.bytes@ == Seq::new(32, |i: int| 0u8),
            r@.player_two.bytes@ == Seq::new(32, |i: int| 0u8),
            !r@.initialized,
    {
        EscrowAccount {
            amount1: 0,
            amount2: 0,
            bump: 0,
            player_one: Address::new([0u8; 32]),
            player_two: Address::new([0u8; 32]),
            initialized: false,
        }
    }

    /// A record with the given contents, as read back from storage.
    pub fn from_parts(
        amount1: u64,
        amount2: u64,
        bump: u8,
        player_one: Address,
        player_two: Address,
        initialized: bool,
    ) -> (r: EscrowAccount)
        ensures
            r@ == (EscrowView { amount1, amount2, bump, player_one, player_two, initialized }),
    {
        EscrowAccount { amount1, amount2, bump, player_one, player_two, initialized }
    }

    /// Records the two players; allowed once.
    pub fn initialize(&mut self, player_one: Address, player_two: Address, bump: u8) -> (r: Result<
        (),
        TicTacToeError,
    >)
        ensures
            old(self)@.initialized ==> r == Err::<(), TicTacToeError>(
                TicTacToeError::EscrowAlreadyInitialized,
            ) && *final(self) == *old(self),
            !old(self)@.initialized ==> r is Ok && final(self)@ == (EscrowView {
                amount1: 0,
                amount2: 0,
                bump,
                player_one,
                player_two,
                initialized: true,
            }),
    {
        if self.initialized {
            return Err(TicTacToeError::EscrowAlreadyInitialized);
        }
        self.player_one = player_one;
        self.player_two = player_two;
        self.bump = bump;
        self.amount1 = 0;
        self.amount2 = 0;
        self.initialized = true;
        Ok(())
    }

    pub fn get_player_one(&self) -> (r: Address)
        ensures
            r == self@.player_one,
    {
        self.player_one
    }

    pub fn get_player_two(&self) -> (r: Address)
        ensures
            r == self@.player_two,
    {
        self.player_two
    }

    /// Whether either player still has a stake recorded.
    pub fn holds_funds(&self) -> (r: bool)
        ensures
            r == (self@.amount1 != 0 || self@.amount2 != 0),
    {
        self.amount1 != 0 || self.amount2 != 0
    }

    pub fn is_initialized(&self) -> (r: bool)
        ensures
            r == self@.initialized,
    {
        self.initialized
    }
}

/// What a deposit acts on: the game, the depositing address, and the escrow.
#[derive(Clone, Copy, Debug)]
pub struct Deposit {
    pub game: TicTacToeGame,
    pub user: Address,
    pub escrow: EscrowAccount,
}

/// Why a deposit by `user` is refused, checked in this order; `None` if it is accepted.
pub open spec fn deposit_error(game: GameView, user: Address, escrow: EscrowView) -> Option<
    TicTacToeError,
> {
    if game.turn != 1 {
        Some(TicTacToeError::GameAlreadyStarted)
    } else if user != game.players[0] && user != game.players[1] {
        Some(TicTacToeError::UnauthorizedUser)
    } else if !escrow.initialized {
        Some(TicTacToeError::EscrowNotInitialized)
    } else if user != escrow.player_one && user != escrow.player_two {
        Some(TicTacToeError::UnauthorizedUser)
    } else {
        None
    }
}

/// Records `amount` as the stake of `ctx.user`. On success the caller moves
/// `amount` from the user into the escrow's custody; on failure nothing changes
/// and nothing is to be moved.
pub fn deposit(ctx: &mut Deposit, amount: u64) -> (r: Result<(), TicTacToeError>)
    ensures
        r == match deposit_error(old(ctx).game@, old(ctx).user, old(ctx).escrow@) {
            Some(e) => Err(e),
            None => Ok::<(), TicTacToeError>(()),
        },
        old(ctx).game.turn > 1 ==> r == Err::<(), TicTacToeError>(
            TicTacToeError::GameAlreadyStarted,
        ),
        r is Ok ==> final(ctx).escrow@ == old(ctx).escrow@.with_stake(old(ctx).user, amount),
        r is Err ==> *final(ctx) == *old(ctx),
        final(ctx).game == old(ctx).game,
        final(ctx).user == old(ctx).user,
{
    if ctx.game.turn != 1 {
        return Err(TicTacToeError::GameAlreadyStarted);
    }
    let user = ctx.user;
    if !(user.same(&ctx.game.players[0]) || user.same(&ctx.game.players[1])) {
        return Err(TicTacToeError::UnauthorizedUser);
    }
    if !ctx.escrow.is_initialized() {
        return Err(TicTacToeError::EscrowNotInitialized);
    }
    if ctx.escrow.get_player_one().same(&user) {
        ctx.escrow.amount1 = amount;
    } else if ctx.escrow.get_player_two().same(&user) {
        ctx.escrow.amount2 = amount;
    } else {
        return Err(TicTacToeError::UnauthorizedUser);
    }
    Ok(())
}

/// The transfers that settle a game: `from_escrow` leaves the escrow, and the
/// two targets receive `to_player_one` and `to_player_two`.
#[derive(Clone, Copy, Debug, PartialEq, Eq, Structural)]
pub struct Payout {
    pub from_escrow: u64,
    pub to_player_one: u64,
    pub to_player_two: u64,
}

/// What a withdrawal acts on: the escrow, the game, the two target addresses,
/// and whether unequal stakes are to be refused.
#[derive(Clone, Copy, Debug)]
pub struct Withdraw {
    pub escrow: EscrowAccount,
    pub game: TicTacToeGame,
    pub player_one: Address,
    pub player_two: Address,
    pub require_equal_stakes: bool,
}

/// The settlement of `escrow` for a game in `state`: a tie splits the total in
/// two halves rounded down, a win hands the whole total to the winner's target.
pub open spec fn withdraw_result(
    escrow: EscrowView,
    state: GameState,
    player_one: Address,
    player_two: Address,
    require_equal_stakes: bool,
) -> Result<Payout, TicTacToeError> {
    let total = (escrow.amount1 + escrow.amount2) as u64;
    if state is Active {
        Err(TicTacToeError::GameNotOver)
    } else if player_one != escrow.player_one {
        Err(TicTacToeError::InvalidPlayerOne)
    } else if player_two != escrow.player_two {
        Err(TicTacToeError::InvalidPlayerTwo)
    } else if require_equal_stakes && escrow.amount1 != escrow.amount2 {
        Err(TicTacToeError::AmountMismatch)
    } else {
        match state {
            GameState::Won { winner } => {
                if winner == player_one {
                    Ok(Payout { from_escrow: total, to_player_one: total, to_player_two: 0 })
                } else if winner == player_two {
                    Ok(Payout { from_escrow: total, to_player_one: 0, to_player_two: total })
                } else {
                    Err(TicTacToeError::UnauthorizedUser)
                }
            },
            _ => Ok(Payout { from_escrow: total, to_player_one: total / 2, to_player_two: total / 2 }),
        }
    }
}

/// Settles a finished game: returns the transfers to make and zeroes both
/// stakes. On failure nothing changes and nothing is to be moved. The stakes
/// of a finished game are amounts held in custody, so their total fits in a `u64`.
pub fn withdraw(ctx: &mut Withdraw) -> (r: Result<Payout, TicTacToeError>)
    requires
        old(ctx).game.state is Active || old(ctx).escrow@.amount1 + old(ctx).escrow@.amount2
            <= u64::MAX,
    ensures
        r == withdraw_result(
            old(ctx).escrow@,
            old(ctx).game.state,
            old(ctx).player_one,
            old(ctx).player_two,
            old(ctx).require_equal_stakes,
        ),
        old(ctx).game.state is Active ==> r == Err::<Payout, TicTacToeError>(
            TicTacToeError::GameNotOver,
        ),
        r is Ok ==> final(ctx).escrow@ == old(ctx).escrow@.cleared(),
        r is Err ==> *final(ctx) == *old(ctx),
        final(ctx).game == old(ctx).game,
        final(ctx).player_one == old(ctx).player_one,
        final(ctx).player_two == old(ctx).player_two,
        final(ctx).require_equal_stakes == old(ctx).require_equal_stakes,
{
    if let GameState::Active = ctx.game.state {
        return Err(TicTacToeError::GameNotOver);
    }
    if !ctx.player_one.same(&ctx.escrow.get_player_one()) {
        return Err(TicTacToeError::InvalidPlayerOne);
    }
    if !ctx.player_two.same(&ctx.escrow.get_player_two()) {
        return Err(TicTacToeError::InvalidPlayerTwo);
    }
    if ctx.require_equal_stakes && ctx.escrow.amount1 != ctx.escrow.amount2 {
        return Err(TicTacToeError::AmountMismatch);
    }
    let total = ctx.escrow.amount1 + ctx.escrow.amount2;
    let payout = match ctx.game.state {
        GameState::Won { winner } => {
            if winner.same(&ctx.player_one) {
                Payout { from_escrow: total, to_player_one: total, to_player_two: 0 }
            } else if winner.same(&ctx.player_two) {
                Payout { from_escrow: total, to_player_one: 0, to_player_two: total }
            } else {
                return Err(TicTacToeError::UnauthorizedUser);
            }
        },
        _ => {
            let half = total / 2;
            Payout { from_escrow: total, to_player_one: half, to_player_two: half }
        },
    };
    ctx.escrow.amount1 = 0;
    ctx.escrow.amount2 = 0;
    Ok(payout)
}

/// A withdrawal that succeeded leaves both stakes at zero, and a second
/// withdrawal on the same game then pays nothing to anyone.
pub proof fn lemma_second_withdraw_pays_nothing(
    escrow: EscrowView,
    state: GameState,
    player_one: Address,
    player_two: Address,
    require_equal_stakes: bool,
)
    requires
        withdraw_result(escrow, state, player_one, player_two, require_equal_stakes) is Ok,
    ensures
        escrow.cleared().amount1 == 0,
        escrow.cleared().amount2 == 0,
        withdraw_result(escrow.cleared(), state, player_one, player_two, require_equal_stakes)
            == Ok::<Payout, TicTacToeError>(
            Payout { from_escrow: 0, to_player_one: 0, to_player_two: 0 },
        ),
{
}

} // verus!
