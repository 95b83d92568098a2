use dice_game::{DiceGameContract, Game, GameBook, GameError, Identity};
use soroban_sdk::testutils::Address as _;
use soroban_sdk::{Address, Env};

#[test]
fn error_messages() {
    assert_eq!(GameError::NotFound.message(), "Game not found!");
    assert_eq!(GameError::AlreadyCompleted.message(), "Game already completed!");
    assert_eq!(GameError::AuthenticationFailure.message(), "Authentication failed!");
}

#[test]
fn key_names_its_game() {
    assert_eq!(GameBook::Game(7).game_id(), 7);
    assert_eq!(GameBook::Game(0).game_id(), 0);
    assert_eq!(GameBook::Game(7), GameBook::Game(7));
    assert_ne!(GameBook::Game(7), GameBook::Game(8));
}

#[test]
fn record_join_seats_the_player() {
    let env = Env::default();
    let player1 = Address::generate(&env);
    let player2 = Address::generate(&env);
    let mut game = Game::open(3, player1.clone(), 40);

    assert_eq!(game.join(player2.clone()), Ok(()));

    assert_eq!(game.game_id, 3);
    assert_eq!(game.player1, Identity::Account(player1));
    assert_eq!(game.player2, Identity::Account(player2));
    assert_eq!(game.stake_amount, 40);
    assert_eq!(game.is_completed, false);
}

#[test]
fn record_resolve_fills_rolls_and_winner() {
    let env = Env::default();
    let player1 = Address::generate(&env);
    let player2 = Address::generate(&env);
    let mut game = Game::open(3, player1.clone(), 40);
    game.join(player2.clone()).unwrap();

    assert_eq!(game.resolve(13), Ok(Identity::Account(player1.clone())));

    assert_eq!(
        game,
        Game {
            game_id: 3,
            player1: Identity::Account(player1.clone()),
            player2: Identity::Account(player2),
            stake_amount: 40,
            player1_roll: 4,
            player2_roll: 3,
            winner: Identity::Account(player1),
            is_completed: true,
        }
    );
    assert!(game.has_settled_rolls());
}

#[test]
fn absent_record_refuses_players_and_dice() {
    let env = Env::default();
    let mut game = Game::missing();

    assert_eq!(game.join(Address::generate(&env)), Err(GameError::NotFound));
    assert_eq!(game.resolve(9), Err(GameError::NotFound));
    assert_eq!(game, Game::missing());
}

#[test]
fn resolved_record_refuses_players_and_dice() {
    let env = Env::default();
    let mut game = Game::open(1, Address::generate(&env), 1);
    game.resolve(0).unwrap();
    let resolved = game.clone();

    assert_eq!(game.join(Address::generate(&env)), Err(GameError::AlreadyCompleted));
    assert_eq!(game.resolve(1337), Err(GameError::AlreadyCompleted));
    assert_eq!(game, resolved);
    assert_eq!(resolved.winner, Identity::Tie);
}

#[test]
fn settled_rolls_are_zero_before_and_dice_sums_after() {
    let env = Env::default();
    let open = Game::open(1, Address::generate(&env), 1);
    assert!(open.has_settled_rolls());

    let mut early = open.clone();
    early.player1_roll = 5;
    assert!(!early.has_settled_rolls());

    let mut done = open.clone();
    done.is_completed = true;
    assert!(!done.has_settled_rolls());
    done.player1_roll = 2;
    done.player2_roll = 12;
    assert!(done.has_settled_rolls());
    done.player2_roll = 13;
    assert!(!done.has_settled_rolls());
    done.player2_roll = 12;
    done.player1_roll = 1;
    assert!(!done.has_settled_rolls());
}

#[test]
fn restore_without_record_keeps_the_counter() {
    let env = Env::default();
    let mut contract = DiceGameContract::restore(41, None).unwrap();

    assert_eq!(contract.game_count(), 41);
    assert_eq!(contract.view_game(41).game_id, 0);
    assert_eq!(contract.create_game(Address::generate(&env), 9, true), Ok(42));
    assert_eq!(contract.game_count(), 42);
    assert_eq!(contract.view_game(42).stake_amount, 9);
}

#[test]
fn restore_with_record_serves_it() {
    let env = Env::default();
    let player1 = Address::generate(&env);
    let player2 = Address::generate(&env);
    let stored = Game::open(4, player1, 600);

    let mut contract = DiceGameContract::restore(6, Some((GameBook::Game(4), stored.clone()))).unwrap();

    assert_eq!(contract.game_count(), 6);
    assert_eq!(contract.view_game(4), stored);
    assert_eq!(contract.lookup(GameBook::Game(4)), Some(stored));
    assert_eq!(contract.view_game(5).game_id, 0);
    assert_eq!(contract.join_game(4, player2.clone(), true), Ok(()));
    assert_eq!(contract.play_game_at(4, 42), Ok(Identity::Account(player2)));
    assert_eq!(contract.play_game_at(4, 42), Err(GameError::AlreadyCompleted));
    assert_eq!(contract.game_count(), 6);
}

#[test]
fn restore_refuses_a_record_that_cannot_belong() {
    let env = Env::default();
    let player1 = Address::generate(&env);

    let beyond_counter = Game::open(7, player1.clone(), 1);
    assert!(DiceGameContract::restore(6, Some((GameBook::Game(7), beyond_counter))).is_none());

    assert!(DiceGameContract::restore(6, Some((GameBook::Game(0), Game::missing()))).is_none());

    let under_wrong_key = Game::open(3, player1.clone(), 1);
    assert!(DiceGameContract::restore(6, Some((GameBook::Game(2), under_wrong_key))).is_none());

    let mut early_rolls = Game::open(2, player1.clone(), 1);
    early_rolls.player2_roll = 3;
    assert!(DiceGameContract::restore(6, Some((GameBook::Game(2), early_rolls))).is_none());

    let mut bad_rolls = Game::open(2, player1.clone(), 1);
    bad_rolls.is_completed = true;
    bad_rolls.player1_roll = 13;
    bad_rolls.player2_roll = 4;
    assert!(DiceGameContract::restore(6, Some((GameBook::Game(2), bad_rolls))).is_none());

    let at_counter = Game::open(6, player1, 1);
    assert!(DiceGameContract::restore(6, Some((GameBook::Game(6), at_counter))).is_some());
}

#[test]
fn copies_of_identities_equal_what_was_copied() {
    let env = Env::default();
    let account = Identity::Account(Address::generate(&env));
    let other = Identity::Account(Address::generate(&env));

    assert_eq!(account.clone(), account);
    assert_ne!(account.clone(), other);
    assert_eq!(Identity::Pending.clone(), Identity::Pending);
    assert_eq!(Identity::Nobody.clone(), Identity::Nobody);
    assert_eq!(Identity::Tie.clone(), Identity::Tie);
    assert_ne!(Identity::Pending, Identity::Nobody);
    assert_ne!(account, Identity::Tie);
}
