//! End-to-end games: decisive wins, draws, timeout cancellation, and the
//! replay of a fresh game on the same configuration.

use rock_paper_scissors::game::RockPaperScissorsContract;
use rock_paper_scissors::hash::commitment;
use rock_paper_scissors::types::{Error, GameResult, Move, Party, Player, TimeStamp, Transfer};

/// The balance of `who` after replaying the ledger's instructions on top of
/// `initial`, with custody transfers applied to the named accounts.
fn balance(ledger: &Vec<Transfer>, who: &[u8], initial: i128) -> i128 {
    let mut b = initial;
    for t in ledger {
        if let Party::Account(a) = &t.from {
            if a.as_slice() == who {
                b -= t.amount;
            }
        }
        if let Party::Account(a) = &t.to {
            if a.as_slice() == who {
                b += t.amount;
            }
        }
    }
    b
}

#[test]
fn test_rock_wins() {
    let mut game = RockPaperScissorsContract::new();
    let mut ledger: Vec<Transfer> = Vec::new();
    let admin = b"admin-account".to_vec();
    let u1 = b"u1-account".to_vec();

    let token = vec![7u8; 32];
    assert!(game.initialize(token, 10, TimeStamp(3600)).is_ok());

    let val = commitment(&admin, Move::Rock, &b"mysecret".to_vec());
    assert!(game
        .make_move(&mut ledger, admin.clone(), val, TimeStamp(100))
        .is_ok());

    let u1_val = commitment(&u1, Move::Scissors, &b"u1mysecret".to_vec());
    assert!(game
        .make_move(&mut ledger, u1.clone(), u1_val, TimeStamp(100))
        .is_ok());

    let move_pre = game.reveal_move(Player::One, Move::Rock, b"mysecret".to_vec());
    assert!(matches!(move_pre, Ok(Move::Rock)));
    let u1_move_pre = game.reveal_move(Player::Two, Move::Scissors, b"u1mysecret".to_vec());
    assert!(matches!(u1_move_pre, Ok(Move::Scissors)));

    assert!(matches!(
        game.evaluate(&mut ledger),
        Ok(GameResult::Winner(Player::One))
    ));
    assert_eq!(balance(&ledger, &admin, 10), 20);
    assert_eq!(balance(&ledger, &u1, 10), 0);
}

#[test]
fn test_draw() {
    let mut game = RockPaperScissorsContract::new();
    let mut ledger: Vec<Transfer> = Vec::new();
    let admin = b"admin-account".to_vec();
    let u1 = b"u1-account".to_vec();

    assert!(game.initialize(vec![7u8; 32], 10, TimeStamp(3600)).is_ok());

    let val = commitment(&admin, Move::Rock, &b"mysecret".to_vec());
    assert!(game
        .make_move(&mut ledger, admin.clone(), val, TimeStamp(100))
        .is_ok());
    let u1_val = commitment(&u1, Move::Rock, &b"u1mysecret".to_vec());
    assert!(game
        .make_move(&mut ledger, u1.clone(), u1_val, TimeStamp(100))
        .is_ok());

    assert!(matches!(
        game.reveal_move(Player::One, Move::Rock, b"mysecret".to_vec()),
        Ok(Move::Rock)
    ));
    assert!(matches!(
        game.reveal_move(Player::Two, Move::Rock, b"u1mysecret".to_vec()),
        Ok(Move::Rock)
    ));

    assert!(matches!(game.evaluate(&mut ledger), Ok(GameResult::Draw)));
    assert_eq!(balance(&ledger, &admin, 10), 10);
    assert_eq!(balance(&ledger, &u1, 10), 10);
    assert!(!game.check_player(Player::One));
    assert!(!game.check_player(Player::Two));
}

#[test]
fn test_paper_wins() {
    let mut game = RockPaperScissorsContract::new();
    let mut ledger: Vec<Transfer> = Vec::new();
    let admin = b"admin-account".to_vec();
    let u1 = b"u1-account".to_vec();

    assert!(game.initialize(vec![7u8; 32], 10, TimeStamp(3600)).is_ok());

    let val = commitment(&admin, Move::Paper, &b"mysecret".to_vec());
    assert!(game
        .make_move(&mut ledger, admin.clone(), val, TimeStamp(100))
        .is_ok());
    let u1_val = commitment(&u1, Move::Rock, &b"u1mysecret".to_vec());
    assert!(game
        .make_move(&mut ledger, u1.clone(), u1_val, TimeStamp(100))
        .is_ok());

    assert!(matches!(
        game.reveal_move(Player::One, Move::Paper, b"mysecret".to_vec()),
        Ok(Move::Paper)
    ));
    assert!(matches!(
        game.reveal_move(Player::Two, Move::Rock, b"u1mysecret".to_vec()),
        Ok(Move::Rock)
    ));

    assert!(matches!(
        game.evaluate(&mut ledger),
        Ok(GameResult::Winner(Player::One))
    ));
    assert_eq!(balance(&ledger, &admin, 10), 20);
    assert_eq!(balance(&ledger, &u1, 10), 0);
}

/// Plays one full game and returns the outcome together with the final
/// balances of the two players, each starting from `wager`.
fn play(a: Move, b: Move) -> (GameResult, i128, i128) {
    let mut game = RockPaperScissorsContract::new();
    let mut ledger: Vec<Transfer> = Vec::new();
    let one = b"first-player".to_vec();
    let two = b"second-player".to_vec();
    let wager: i128 = 25;

    game.initialize(b"asset".to_vec(), wager, TimeStamp(60)).unwrap();
    let c1 = commitment(&one, a, &b"s1".to_vec());
    game.make_move(&mut ledger, one.clone(), c1, TimeStamp(5)).unwrap();
    let c2 = commitment(&two, b, &b"s2".to_vec());
    game.make_move(&mut ledger, two.clone(), c2, TimeStamp(5)).unwrap();
    game.reveal_move(Player::One, a, b"s1".to_vec()).unwrap();
    game.reveal_move(Player::Two, b, b"s2".to_vec()).unwrap();
    let outcome = game.evaluate(&mut ledger).unwrap();
    (
        outcome,
        balance(&ledger, &one, wager),
        balance(&ledger, &two, wager),
    )
}

#[test]
fn test_outcome_table() {
    let moves = [Move::Rock, Move::Paper, Move::Scissors];
    for &a in &moves {
        for &b in &moves {
            let (outcome, bal_one, bal_two) = play(a, b);
            // the cyclic rule: b beats a exactly when b's rank succeeds a's
            let a_rank = match a {
                Move::Rock => 0,
                Move::Paper => 1,
                _ => 2,
            };
            let b_rank = match b {
                Move::Rock => 0,
                Move::Paper => 1,
                _ => 2,
            };
            if a_rank == b_rank {
                assert_eq!(outcome, GameResult::Draw);
                assert_eq!(bal_one, 25);
                assert_eq!(bal_two, 25);
            } else if (a_rank + 1) % 3 == b_rank {
                assert_eq!(outcome, GameResult::Winner(Player::Two));
                assert_eq!(bal_one, 0);
                assert_eq!(bal_two, 50);
            } else {
                assert_eq!(outcome, GameResult::Winner(Player::One));
                assert_eq!(bal_one, 50);
                assert_eq!(bal_two, 0);
            }
        }
    }
}

#[test]
fn test_cancel_pays_the_revealer() {
    let mut game = RockPaperScissorsContract::new();
    let mut ledger: Vec<Transfer> = Vec::new();
    let a = b"revealer".to_vec();
    let b = b"absentee".to_vec();

    assert!(game.initialize(vec![7u8; 32], 10, TimeStamp(3600)).is_ok());
    let ca = commitment(&a, Move::Paper, &b"secret-a".to_vec());
    assert!(game
        .make_move(&mut ledger, a.clone(), ca, TimeStamp(1_000))
        .is_ok());
    let cb = commitment(&b, Move::Rock, &b"secret-b".to_vec());
    // the second commit anchors the timer at 2_000
    assert!(game
        .make_move(&mut ledger, b.clone(), cb, TimeStamp(2_000))
        .is_ok());
    assert!(matches!(
        game.reveal_move(Player::One, Move::Paper, b"secret-a".to_vec()),
        Ok(Move::Paper)
    ));

    // one second before the grace period has elapsed
    assert_eq!(
        game.cancel(&mut ledger, TimeStamp(2_000 + 3599)),
        Err(Error::LimitNotReached)
    );
    // exactly at the timeout the revealer recovers both stakes
    assert_eq!(game.cancel(&mut ledger, TimeStamp(2_000 + 3600)), Ok(()));
    assert_eq!(balance(&ledger, &a, 10), 20);
    assert_eq!(balance(&ledger, &b, 10), 0);
    assert!(!game.check_player(Player::One));
    assert!(!game.check_player(Player::Two));
}

#[test]
fn test_replay_after_cancel() {
    let mut game = RockPaperScissorsContract::new();
    let mut ledger: Vec<Transfer> = Vec::new();
    let a = b"admin-account".to_vec();
    let b = b"u1-account".to_vec();

    assert!(game.initialize(vec![7u8; 32], 10, TimeStamp(3600)).is_ok());
    let ca = commitment(&a, Move::Paper, &b"mysecret".to_vec());
    assert!(game
        .make_move(&mut ledger, a.clone(), ca.clone(), TimeStamp(0))
        .is_ok());
    let cb = commitment(&b, Move::Rock, &b"u1mysecret".to_vec());
    assert!(game
        .make_move(&mut ledger, b.clone(), cb.clone(), TimeStamp(1_000))
        .is_ok());
    assert!(game
        .reveal_move(Player::One, Move::Paper, b"mysecret".to_vec())
        .is_ok());
    assert_eq!(game.cancel(&mut ledger, TimeStamp(4_600)), Ok(()));
    assert_eq!(balance(&ledger, &a, 10), 20);
    assert_eq!(balance(&ledger, &b, 10), 0);

    // the configuration persists, so a fresh pair of commits replays the game
    assert!(game.game_started());
    assert!(game
        .make_move(&mut ledger, a.clone(), ca, TimeStamp(5_000))
        .is_ok());
    assert!(game
        .make_move(&mut ledger, b.clone(), cb, TimeStamp(5_000))
        .is_ok());
    assert!(game
        .reveal_move(Player::One, Move::Paper, b"mysecret".to_vec())
        .is_ok());
    assert!(game
        .reveal_move(Player::Two, Move::Rock, b"u1mysecret".to_vec())
        .is_ok());
    assert!(matches!(
        game.evaluate(&mut ledger),
        Ok(GameResult::Winner(Player::One))
    ));
    assert_eq!(balance(&ledger, &a, 10), 30);
    // the second player funded the replayed stake with another 10
    assert_eq!(balance(&ledger, &b, 20), 0);
}
