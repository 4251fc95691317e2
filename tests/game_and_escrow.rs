use tictactoe::bet::EscrowAccount;
use tictactoe::game::{detect_outcome, is_board_full, is_winner};
use tictactoe::{
    deposit, end_game, play, setup_game, withdraw, Address, Deposit, EndGame, GameState, Payout,
    Play, SetupGame, Sign, TicTacToeError, TicTacToeGame, Tile, Withdraw,
};

fn player0() -> Address {
    Address::new([1u8; 32])
}

fn player1() -> Address {
    Address::new([2u8; 32])
}

fn stranger() -> Address {
    Address::new([9u8; 32])
}

fn fresh_setup() -> SetupGame {
    let mut ctx = SetupGame {
        game: TicTacToeGame::new([Address::new([0u8; 32]), Address::new([0u8; 32])], 0),
        escrow: EscrowAccount::new(),
        player_one: player0(),
        player_two: player1(),
        game_bump: 7,
        escrow_bump: 8,
    };
    assert_eq!(setup_game(&mut ctx), Ok(()));
    ctx
}

fn tile(row: u8, column: u8) -> Tile {
    Tile { row, column }
}

fn count_filled(game: &TicTacToeGame) -> usize {
    game.board.iter().filter(|c| c.is_some()).count()
}

/// Plays `moves` alternately, player 0 first, expecting each to succeed.
fn play_all(game: TicTacToeGame, moves: &[(u8, u8)]) -> TicTacToeGame {
    let mut ctx = Play { game, player: player0() };
    for &(r, c) in moves {
        ctx.player = ctx.game.current_player();
        assert_eq!(play(&mut ctx, tile(r, c)), Ok(()));
    }
    ctx.game
}

#[test]
fn setup_creates_empty_active_game() {
    let ctx = fresh_setup();
    assert_eq!(ctx.game.turn, 1);
    assert_eq!(ctx.game.players, [player0(), player1()]);
    assert!(ctx.game.board.iter().all(|c| c.is_none()));
    assert_eq!(ctx.game.state, GameState::Active);
    assert_eq!(ctx.game.bump, 7);
    assert!(ctx.escrow.is_initialized());
    assert_eq!(ctx.escrow.get_player_one(), player0());
    assert_eq!(ctx.escrow.get_player_two(), player1());
    assert_eq!(ctx.escrow.bump, 8);
    assert_eq!(ctx.escrow.amount1, 0);
    assert_eq!(ctx.escrow.amount2, 0);
    assert!(ctx.game.is_well_formed());
}

#[test]
fn setup_twice_fails_escrow_already_initialized() {
    let mut ctx = fresh_setup();
    let before = ctx.escrow;
    assert_eq!(setup_game(&mut ctx), Err(TicTacToeError::EscrowAlreadyInitialized));
    assert_eq!(ctx.escrow.get_player_one(), before.get_player_one());
}

#[test]
fn initialize_twice_fails() {
    let mut escrow = EscrowAccount::new();
    assert_eq!(escrow.initialize(player0(), player1(), 3), Ok(()));
    assert_eq!(
        escrow.initialize(player1(), player0(), 4),
        Err(TicTacToeError::EscrowAlreadyInitialized)
    );
    assert_eq!(escrow.get_player_one(), player0());
    assert_eq!(escrow.bump, 3);
}

#[test]
fn row_completed_by_player0_wins() {
    let game = fresh_setup().game;
    let game = play_all(game, &[(0, 0), (1, 0), (0, 1), (1, 1), (0, 2)]);
    assert_eq!(game.state, GameState::Won { winner: player0() });
    assert_eq!(game.turn, 6);
}

#[test]
fn full_board_without_line_is_tie() {
    let game = fresh_setup().game;
    // X O X / X O O / O X X
    let game = play_all(
        game,
        &[(0, 0), (0, 1), (0, 2), (1, 1), (1, 0), (1, 2), (2, 1), (2, 0), (2, 2)],
    );
    assert_eq!(game.state, GameState::Tie);
    assert_eq!(game.turn, 10);
    assert!(game.is_well_formed());
}

#[test]
fn column_completed_by_player1_wins() {
    let game = fresh_setup().game;
    let game = play_all(game, &[(0, 0), (0, 1), (2, 2), (1, 1), (2, 0), (2, 1)]);
    assert_eq!(game.state, GameState::Won { winner: player1() });
}

#[test]
fn marked_cells_track_turn() {
    let mut game = fresh_setup().game;
    let moves = [(1, 1), (0, 0), (2, 2), (0, 2), (0, 1), (2, 1)];
    assert_eq!(count_filled(&game), 0);
    for &(r, c) in moves.iter() {
        let mut ctx = Play { game, player: game.current_player() };
        assert_eq!(play(&mut ctx, tile(r, c)), Ok(()));
        let _ = play(&mut ctx, tile(r, c));
        let _ = play(&mut ctx, tile(5, 0));
        game = ctx.game;
        assert_eq!(count_filled(&game), game.turn as usize - 1);
        assert!(game.is_well_formed());
    }
}

#[test]
fn out_of_range_move_leaves_board() {
    let game = play_all(fresh_setup().game, &[(0, 0)]);
    let mut ctx = Play { game, player: player1() };
    assert_eq!(play(&mut ctx, tile(3, 0)), Err(TicTacToeError::TileOutOfBounds));
    assert_eq!(play(&mut ctx, tile(0, 3)), Err(TicTacToeError::TileOutOfBounds));
    assert_eq!(ctx.game.board, game.board);
    assert_eq!(ctx.game.turn, 2);
}

#[test]
fn occupied_move_leaves_board() {
    let game = play_all(fresh_setup().game, &[(0, 0)]);
    let mut ctx = Play { game, player: player1() };
    assert_eq!(play(&mut ctx, tile(0, 0)), Err(TicTacToeError::TileAlreadySet));
    assert_eq!(ctx.game.board, game.board);
    assert_eq!(ctx.game.board[0], Some(Sign::X));
    assert_eq!(ctx.game.turn, 2);
}

#[test]
fn move_out_of_turn_fails() {
    let game = fresh_setup().game;
    let mut ctx = Play { game, player: player1() };
    assert_eq!(play(&mut ctx, tile(1, 1)), Err(TicTacToeError::NotPlayersTurn));
    ctx.player = stranger();
    assert_eq!(play(&mut ctx, tile(1, 1)), Err(TicTacToeError::NotPlayersTurn));
    assert_eq!(ctx.game.turn, 1);
    assert!(ctx.game.board.iter().all(|c| c.is_none()));
}

#[test]
fn move_after_game_over_fails() {
    let game = play_all(fresh_setup().game, &[(0, 0), (1, 0), (0, 1), (1, 1), (0, 2)]);
    let mut ctx = Play { game, player: player1() };
    assert_eq!(play(&mut ctx, tile(2, 2)), Err(TicTacToeError::GameAlreadyOver));
    assert_eq!(ctx.game.board, game.board);
}

#[test]
fn detection_symmetric_under_relabeling() {
    let x = Some(Sign::X);
    let o = Some(Sign::O);
    let board = [x, x, x, o, o, None, None, None, None];
    let flipped = [o, o, o, x, x, None, None, None, None];
    assert_eq!(
        detect_outcome(&board, &[player0(), player1()]),
        GameState::Won { winner: player0() }
    );
    assert_eq!(
        detect_outcome(&flipped, &[player1(), player0()]),
        GameState::Won { winner: player0() }
    );
    let tie = [x, o, x, x, o, o, o, x, x];
    let tie_flipped = [o, x, o, o, x, x, x, o, o];
    assert_eq!(detect_outcome(&tie, &[player0(), player1()]), GameState::Tie);
    assert_eq!(detect_outcome(&tie_flipped, &[player1(), player0()]), GameState::Tie);
    assert!(is_board_full(&tie_flipped));
    assert!(!is_winner(&tie, Sign::X));
    assert!(is_winner(&[x, o, None, o, x, None, None, None, x], Sign::X));
}

#[test]
fn deposit_records_stakes() {
    let s = fresh_setup();
    let mut ctx = Deposit { game: s.game, user: player0(), escrow: s.escrow };
    assert_eq!(deposit(&mut ctx, 100), Ok(()));
    ctx.user = player1();
    assert_eq!(deposit(&mut ctx, 150), Ok(()));
    assert_eq!(ctx.escrow.amount1, 100);
    assert_eq!(ctx.escrow.amount2, 150);
}

#[test]
fn deposit_after_first_move_fails() {
    let s = fresh_setup();
    let mut dep = Deposit { game: s.game, user: player0(), escrow: s.escrow };
    assert_eq!(deposit(&mut dep, 100), Ok(()));
    let mut p = Play { game: dep.game, player: player0() };
    assert_eq!(play(&mut p, tile(1, 1)), Ok(()));
    let mut dep2 = Deposit { game: p.game, user: player1(), escrow: dep.escrow };
    assert_eq!(deposit(&mut dep2, 100), Err(TicTacToeError::GameAlreadyStarted));
    assert_eq!(dep2.escrow.amount2, 0);
    dep2.user = stranger();
    assert_eq!(deposit(&mut dep2, 100), Err(TicTacToeError::GameAlreadyStarted));
    dep2.user = player0();
    assert_eq!(deposit(&mut dep2, 5), Err(TicTacToeError::GameAlreadyStarted));
    assert_eq!(dep2.escrow.amount1, 100);
}

#[test]
fn deposit_by_stranger_fails() {
    let s = fresh_setup();
    let mut ctx = Deposit { game: s.game, user: stranger(), escrow: s.escrow };
    assert_eq!(deposit(&mut ctx, 100), Err(TicTacToeError::UnauthorizedUser));
    assert_eq!(ctx.escrow.amount1, 0);
    assert_eq!(ctx.escrow.amount2, 0);
}

#[test]
fn deposit_into_uninitialized_escrow_fails() {
    let s = fresh_setup();
    let mut ctx = Deposit { game: s.game, user: player0(), escrow: EscrowAccount::new() };
    assert_eq!(deposit(&mut ctx, 100), Err(TicTacToeError::EscrowNotInitialized));
}

#[test]
fn deposit_into_other_games_escrow_fails() {
    let s = fresh_setup();
    let other = EscrowAccount::from_parts(0, 0, 0, stranger(), Address::new([8u8; 32]), true);
    let mut ctx = Deposit { game: s.game, user: player0(), escrow: other };
    assert_eq!(deposit(&mut ctx, 100), Err(TicTacToeError::UnauthorizedUser));
}

fn withdraw_ctx(game: TicTacToeGame, amount1: u64, amount2: u64) -> Withdraw {
    Withdraw {
        escrow: EscrowAccount::from_parts(amount1, amount2, 0, player0(), player1(), true),
        game,
        player_one: player0(),
        player_two: player1(),
        require_equal_stakes: false,
    }
}

#[test]
fn withdraw_while_active_fails() {
    let game = play_all(fresh_setup().game, &[(0, 0)]);
    let mut ctx = withdraw_ctx(game, 100, 100);
    assert_eq!(withdraw(&mut ctx), Err(TicTacToeError::GameNotOver));
    assert_eq!(ctx.escrow.amount1, 100);
    assert_eq!(ctx.escrow.amount2, 100);
    let mut huge = withdraw_ctx(game, u64::MAX, u64::MAX);
    huge.player_one = stranger();
    assert_eq!(withdraw(&mut huge), Err(TicTacToeError::GameNotOver));
}

#[test]
fn tie_splits_stakes() {
    let game = play_all(
        fresh_setup().game,
        &[(0, 0), (0, 1), (0, 2), (1, 1), (1, 0), (1, 2), (2, 1), (2, 0), (2, 2)],
    );
    let mut ctx = withdraw_ctx(game, 100, 100);
    assert_eq!(
        withdraw(&mut ctx),
        Ok(Payout { from_escrow: 200, to_player_one: 100, to_player_two: 100 })
    );
    assert_eq!(ctx.escrow.amount1, 0);
    assert_eq!(ctx.escrow.amount2, 0);
}

#[test]
fn tie_with_odd_total_rounds_down() {
    let game = play_all(
        fresh_setup().game,
        &[(0, 0), (0, 1), (0, 2), (1, 1), (1, 0), (1, 2), (2, 1), (2, 0), (2, 2)],
    );
    let mut ctx = withdraw_ctx(game, 50, 51);
    assert_eq!(
        withdraw(&mut ctx),
        Ok(Payout { from_escrow: 101, to_player_one: 50, to_player_two: 50 })
    );
}

#[test]
fn winner_takes_unequal_pot() {
    let game = play_all(fresh_setup().game, &[(0, 0), (1, 0), (0, 1), (1, 1), (0, 2)]);
    let mut ctx = withdraw_ctx(game, 50, 150);
    assert_eq!(
        withdraw(&mut ctx),
        Ok(Payout { from_escrow: 200, to_player_one: 200, to_player_two: 0 })
    );
}

#[test]
fn player_two_winner_takes_pot() {
    let game = play_all(fresh_setup().game, &[(0, 0), (0, 1), (2, 2), (1, 1), (2, 0), (2, 1)]);
    let mut ctx = withdraw_ctx(game, 30, 40);
    assert_eq!(
        withdraw(&mut ctx),
        Ok(Payout { from_escrow: 70, to_player_one: 0, to_player_two: 70 })
    );
}

#[test]
fn second_withdraw_pays_nothing() {
    let game = play_all(fresh_setup().game, &[(0, 0), (1, 0), (0, 1), (1, 1), (0, 2)]);
    let mut ctx = withdraw_ctx(game, 50, 150);
    assert!(withdraw(&mut ctx).is_ok());
    assert_eq!(
        withdraw(&mut ctx),
        Ok(Payout { from_escrow: 0, to_player_one: 0, to_player_two: 0 })
    );
    assert_eq!(ctx.escrow.amount1, 0);
    assert_eq!(ctx.escrow.amount2, 0);
}

#[test]
fn withdraw_to_wrong_targets_fails() {
    let game = play_all(fresh_setup().game, &[(0, 0), (1, 0), (0, 1), (1, 1), (0, 2)]);
    let mut ctx = withdraw_ctx(game, 10, 10);
    ctx.player_one = stranger();
    assert_eq!(withdraw(&mut ctx), Err(TicTacToeError::InvalidPlayerOne));
    ctx.player_one = player0();
    ctx.player_two = stranger();
    assert_eq!(withdraw(&mut ctx), Err(TicTacToeError::InvalidPlayerTwo));
    assert_eq!(ctx.escrow.amount1, 10);
}

#[test]
fn withdraw_with_unknown_winner_fails() {
    let mut game = play_all(fresh_setup().game, &[(0, 0), (1, 0), (0, 1), (1, 1), (0, 2)]);
    game.state = GameState::Won { winner: stranger() };
    let mut ctx = withdraw_ctx(game, 10, 10);
    assert_eq!(withdraw(&mut ctx), Err(TicTacToeError::UnauthorizedUser));
    assert_eq!(ctx.escrow.amount2, 10);
}

#[test]
fn unequal_stakes_refused_when_required() {
    let game = play_all(fresh_setup().game, &[(0, 0), (1, 0), (0, 1), (1, 1), (0, 2)]);
    let mut ctx = withdraw_ctx(game, 50, 150);
    ctx.require_equal_stakes = true;
    assert_eq!(withdraw(&mut ctx), Err(TicTacToeError::AmountMismatch));
    let mut equal = withdraw_ctx(game, 75, 75);
    equal.require_equal_stakes = true;
    assert_eq!(
        withdraw(&mut equal),
        Ok(Payout { from_escrow: 150, to_player_one: 150, to_player_two: 0 })
    );
}

#[test]
fn end_game_requires_finished_and_empty() {
    let active = play_all(fresh_setup().game, &[(0, 0)]);
    let escrow = EscrowAccount::from_parts(0, 0, 0, player0(), player1(), true);
    let ctx = EndGame { game: active, escrow, closer: player0() };
    assert_eq!(end_game(&ctx), Err(TicTacToeError::GameNotOver));

    let won = play_all(fresh_setup().game, &[(0, 0), (1, 0), (0, 1), (1, 1), (0, 2)]);
    let funded = EscrowAccount::from_parts(0, 5, 0, player0(), player1(), true);
    let ctx = EndGame { game: won, escrow: funded, closer: player1() };
    assert_eq!(end_game(&ctx), Err(TicTacToeError::EscrowFundsPresent));
    assert!(funded.holds_funds());

    let ctx = EndGame { game: won, escrow, closer: player1() };
    assert_eq!(end_game(&ctx), Ok(()));
}

#[test]
fn malformed_record_detected() {
    let mut game = fresh_setup().game;
    assert!(game.is_well_formed());
    game.turn = 3;
    assert!(!game.is_well_formed());
    let mut game = play_all(fresh_setup().game, &[(0, 0), (1, 0), (0, 1), (1, 1), (0, 2)]);
    game.state = GameState::Active;
    assert!(!game.is_well_formed());
}

#[test]
fn address_equality_is_bytewise() {
    let mut bytes = [1u8; 32];
    assert!(Address::new(bytes).same(&player0()));
    bytes[31] = 0;
    assert!(!Address::new(bytes).same(&player0()));
    assert_eq!(Address::new(bytes).to_bytes(), bytes);
}
