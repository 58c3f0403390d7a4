use battleship::record::{
    is_zero_hash, BOARD_SIDE, FLEET_CELLS, SONAR_CELLS, SONAR_UNLOCK_TURNS, STATUS_COMPLETED,
    STATUS_CREATED, STATUS_IN_PROGRESS,
};
use battleship::{Address, Game, GameError};

fn alice() -> Address {
    Address::from_str("GALICE")
}

fn bob() -> Address {
    Address::from_str("GBOB")
}

fn carol() -> Address {
    Address::from_str("GCAROL")
}

fn seated() -> Game {
    let mut game = Game::new(alice(), 7);
    assert_eq!(game.join_game(bob()), Ok(()));
    game
}

fn started() -> Game {
    let mut game = seated();
    assert_eq!(game.commit_board(&alice(), [1u8; 32]), Ok(false));
    assert_eq!(game.commit_board(&bob(), [2u8; 32]), Ok(true));
    game
}

fn miss_rounds(game: &mut Game, rounds: u32) {
    for i in 0..rounds {
        assert_eq!(game.take_shot(&alice(), i % 10, i / 10), Ok(()));
        assert_eq!(game.report_result(&bob(), false), Ok(()));
        assert_eq!(game.take_shot(&bob(), i % 10, i / 10), Ok(()));
        assert_eq!(game.report_result(&alice(), false), Ok(()));
    }
}

fn bookkeeping_holds(game: &Game) -> bool {
    let present = (game.board_hash1 != [0u8; 32]) as u32 + (game.board_hash2 != [0u8; 32]) as u32;
    game.boards_committed == present
        && ((game.status == 1) == (game.boards_committed == 2 && game.status != 2))
        && !(game.awaiting_report && game.awaiting_sonar)
        && (!(game.awaiting_report || game.awaiting_sonar) || game.status == 1)
        && (game.turn == 1 || game.turn == 2)
        && (!game.p1_sonar_used || game.p1_turns_taken > 3)
        && (!game.p2_sonar_used || game.p2_turns_taken > 3)
}

#[test]
fn constants_are_the_rules_of_the_game() {
    assert_eq!(BOARD_SIDE, 10);
    assert_eq!(FLEET_CELLS, 17);
    assert_eq!(FLEET_CELLS, 5 + 4 + 3 + 3 + 2);
    assert_eq!(SONAR_UNLOCK_TURNS, 3);
    assert_eq!(SONAR_CELLS, 9);
    assert_eq!((STATUS_CREATED, STATUS_IN_PROGRESS, STATUS_COMPLETED), (0, 1, 2));
}

#[test]
fn fresh_record_has_the_initial_values() {
    let game = Game::new(alice(), 7);
    assert_eq!(game.player1, alice());
    assert_eq!(game.player2, alice());
    assert_eq!(game.board_hash1, [0u8; 32]);
    assert_eq!(game.board_hash2, [0u8; 32]);
    assert_eq!(game.boards_committed, 0);
    assert_eq!(game.turn, 1);
    assert_eq!(game.p1_hits, 0);
    assert_eq!(game.p2_hits, 0);
    assert_eq!(game.status, 0);
    assert_eq!(game.session_id, 7);
    assert!(!game.awaiting_report);
    assert_eq!(game.last_shot_x, 0);
    assert_eq!(game.last_shot_y, 0);
    assert_eq!(game.p1_turns_taken, 0);
    assert_eq!(game.p2_turns_taken, 0);
    assert!(!game.p1_sonar_used);
    assert!(!game.p2_sonar_used);
    assert!(!game.awaiting_sonar);
    assert_eq!(game.sonar_center_x, 0);
    assert_eq!(game.sonar_center_y, 0);
    assert_eq!(game.last_sonar_count, 0);
    assert!(bookkeeping_holds(&game));
}

#[test]
fn clone_keeps_every_field() {
    let mut game = started();
    miss_rounds(&mut game, 3);
    assert_eq!(game.use_sonar(&alice(), 4, 6), Ok(()));
    assert_eq!(game.clone(), game);
}

#[test]
fn addresses_compare_by_key() {
    assert_eq!(alice(), Address::from_str("GALICE"));
    assert_ne!(alice(), bob());
    assert_eq!(alice().as_str(), "GALICE");
    assert_eq!(alice().clone(), alice());
    assert_ne!(Address::from_str(""), Address::from_str(" "));
}

#[test]
fn zero_hash_is_recognised() {
    assert!(is_zero_hash(&[0u8; 32]));
    assert!(!is_zero_hash(&[1u8; 32]));
    let mut first = [0u8; 32];
    first[0] = 1;
    assert!(!is_zero_hash(&first));
    let mut last = [0u8; 32];
    last[31] = 255;
    assert!(!is_zero_hash(&last));
}

#[test]
fn join_fills_the_open_seat() {
    let mut game = Game::new(alice(), 1);
    assert_eq!(game.join_game(bob()), Ok(()));
    assert_eq!(game.player1, alice());
    assert_eq!(game.player2, bob());
    assert_eq!(game.status, 0);
    assert!(bookkeeping_holds(&game));
}

#[test]
fn join_own_game_is_refused() {
    let mut game = Game::new(alice(), 1);
    let before = game.clone();
    assert_eq!(game.join_game(alice()), Err(GameError::SelfJoin));
    assert_eq!(game, before);
}

#[test]
fn join_taken_seat_is_refused() {
    let mut game = seated();
    let before = game.clone();
    assert_eq!(game.join_game(carol()), Err(GameError::SeatTaken));
    assert_eq!(game.join_game(bob()), Err(GameError::SeatTaken));
    assert_eq!(game.join_game(alice()), Err(GameError::SeatTaken));
    assert_eq!(game, before);
}

#[test]
fn join_after_setup_is_refused() {
    let mut game = started();
    assert_eq!(game.join_game(carol()), Err(GameError::NotInSetup));
}

#[test]
fn open_seat_commits_only_for_the_creator() {
    let mut game = Game::new(alice(), 1);
    assert_eq!(game.commit_board(&bob(), [2u8; 32]), Err(GameError::NotAPlayerInGame));
    assert_eq!(game.boards_committed, 0);

    assert_eq!(game.commit_board(&alice(), [1u8; 32]), Ok(false));
    assert_eq!(game.board_hash1, [1u8; 32]);
    assert_eq!(game.board_hash2, [0u8; 32]);
    assert_eq!(game.boards_committed, 1);
    assert_eq!(game.status, 0);

    assert_eq!(game.commit_board(&alice(), [3u8; 32]), Err(GameError::BoardAlreadyCommitted));
    assert_eq!(game.board_hash1, [1u8; 32]);
    assert_eq!(game.board_hash2, [0u8; 32]);
    assert_eq!(game.boards_committed, 1);
    assert!(bookkeeping_holds(&game));
}

#[test]
fn commit_in_either_order_starts_the_play() {
    let mut game = seated();
    assert_eq!(game.commit_board(&bob(), [2u8; 32]), Ok(false));
    assert_eq!(game.board_hash1, [0u8; 32]);
    assert_eq!(game.board_hash2, [2u8; 32]);
    assert_eq!(game.status, 0);
    assert!(bookkeeping_holds(&game));
    assert_eq!(game.commit_board(&bob(), [4u8; 32]), Err(GameError::BoardAlreadyCommitted));
    assert_eq!(game.commit_board(&alice(), [1u8; 32]), Ok(true));
    assert_eq!(game.boards_committed, 2);
    assert_eq!(game.status, 1);
    assert_eq!(game.turn, 1);
    assert!(bookkeeping_holds(&game));
}

#[test]
fn commit_by_a_stranger_is_refused() {
    let mut game = seated();
    assert_eq!(game.commit_board(&carol(), [3u8; 32]), Err(GameError::NotAPlayerInGame));
}

#[test]
fn commit_after_setup_is_refused() {
    let mut game = started();
    assert_eq!(game.commit_board(&alice(), [3u8; 32]), Err(GameError::NotInSetup));
    assert_eq!(game.commit_board(&carol(), [3u8; 32]), Err(GameError::NotInSetup));
}

#[test]
fn zero_hash_is_no_commitment() {
    let mut game = Game::new(alice(), 1);
    let before = game.clone();
    assert_eq!(game.commit_board(&alice(), [0u8; 32]), Err(GameError::ZeroBoardHash));
    assert_eq!(game, before);
    assert_eq!(game.boards_committed, 0);
    assert_eq!(game.status, 0);

    assert_eq!(game.join_game(bob()), Ok(()));
    let before = game.clone();
    assert_eq!(game.commit_board(&bob(), [0u8; 32]), Err(GameError::ZeroBoardHash));
    assert_eq!(game.commit_board(&alice(), [0u8; 32]), Err(GameError::ZeroBoardHash));
    assert_eq!(game, before);
    assert!(bookkeeping_holds(&game));

    let mut almost = [0u8; 32];
    almost[31] = 1;
    assert_eq!(game.commit_board(&bob(), almost), Ok(false));
    assert_eq!(game.boards_committed, 1);
    assert!(bookkeeping_holds(&game));
}

#[test]
fn zero_hash_is_told_after_the_faults_that_come_first() {
    let mut game = seated();
    assert_eq!(game.commit_board(&carol(), [0u8; 32]), Err(GameError::NotAPlayerInGame));
    assert_eq!(game.commit_board(&alice(), [1u8; 32]), Ok(false));
    assert_eq!(game.commit_board(&alice(), [0u8; 32]), Err(GameError::BoardAlreadyCommitted));
    assert_eq!(game.commit_board(&bob(), [2u8; 32]), Ok(true));
    assert_eq!(game.commit_board(&bob(), [0u8; 32]), Err(GameError::NotInSetup));
}

#[test]
fn the_creator_alone_cannot_start_the_play() {
    let mut game = Game::new(alice(), 1);
    assert_eq!(game.commit_board(&alice(), [1u8; 32]), Ok(false));
    assert_eq!(game.commit_board(&alice(), [1u8; 32]), Err(GameError::BoardAlreadyCommitted));
    assert_eq!(game.commit_board(&alice(), [0u8; 32]), Err(GameError::BoardAlreadyCommitted));
    assert_eq!(game.boards_committed, 1);
    assert_eq!(game.status, 0);
    assert!(bookkeeping_holds(&game));
}

#[test]
fn play_before_start_is_refused() {
    let mut game = seated();
    assert_eq!(game.take_shot(&alice(), 0, 0), Err(GameError::NotInProgress));
    assert_eq!(game.report_result(&bob(), true), Err(GameError::NotInProgress));
    assert_eq!(game.use_sonar(&alice(), 0, 0), Err(GameError::NotInProgress));
    assert_eq!(game.report_sonar(&bob(), 0), Err(GameError::NotInProgress));
    assert_eq!(game.claim_victory(&alice()), Err(GameError::NotInProgress));
    assert!(!game.sonar_available(&alice()));
}

#[test]
fn shot_coordinates_run_from_zero_to_nine() {
    for (x, y) in [(0, 0), (9, 9), (0, 9), (9, 0)] {
        let mut game = started();
        assert_eq!(game.take_shot(&alice(), x, y), Ok(()));
        assert_eq!((game.last_shot_x, game.last_shot_y), (x, y));
    }
    for (x, y) in [(10, 0), (0, 10), (10, 10), (u32::MAX, 3)] {
        let mut game = started();
        let before = game.clone();
        assert_eq!(game.take_shot(&alice(), x, y), Err(GameError::ShotOutOfBounds));
        assert_eq!(game, before);
    }
}

#[test]
fn out_of_bounds_is_told_before_wrong_turn() {
    let mut game = started();
    assert_eq!(game.take_shot(&bob(), 10, 0), Err(GameError::ShotOutOfBounds));
    assert_eq!(game.take_shot(&bob(), 9, 0), Err(GameError::NotYourTurn));
    assert_eq!(game.take_shot(&carol(), 9, 0), Err(GameError::NotYourTurn));
}

#[test]
fn second_shot_waits_for_the_report() {
    let mut game = started();
    assert_eq!(game.take_shot(&alice(), 1, 1), Ok(()));
    assert_eq!(game.take_shot(&alice(), 2, 2), Err(GameError::AwaitingHitReport));
    assert_eq!(game.take_shot(&bob(), 2, 2), Err(GameError::AwaitingHitReport));
    assert_eq!(game.use_sonar(&alice(), 2, 2), Err(GameError::AwaitingHitReport));
    assert_eq!((game.last_shot_x, game.last_shot_y), (1, 1));
    assert_eq!(game.p1_turns_taken, 1);
}

#[test]
fn after_a_shot_only_the_defender_report_is_accepted() {
    let mut game = started();
    assert_eq!(game.take_shot(&alice(), 1, 1), Ok(()));
    let owed = game.clone();

    assert_eq!(game.join_game(carol()), Err(GameError::NotInSetup));
    assert_eq!(game.commit_board(&alice(), [5u8; 32]), Err(GameError::NotInSetup));
    assert_eq!(game.take_shot(&alice(), 2, 2), Err(GameError::AwaitingHitReport));
    assert_eq!(game.use_sonar(&alice(), 2, 2), Err(GameError::AwaitingHitReport));
    assert_eq!(game.report_sonar(&bob(), 1), Err(GameError::NoSonarToReport));
    assert_eq!(game.claim_victory(&alice()), Err(GameError::NotEnoughHits));
    assert_eq!(game.report_result(&alice(), true), Err(GameError::WrongReporter));
    assert_eq!(game.report_result(&carol(), true), Err(GameError::WrongReporter));
    assert_eq!(game, owed);

    assert_eq!(game.report_result(&bob(), true), Ok(()));
    assert!(bookkeeping_holds(&game));
}

#[test]
fn after_a_scan_only_the_defender_count_is_accepted() {
    let mut game = started();
    miss_rounds(&mut game, 3);
    assert_eq!(game.use_sonar(&alice(), 5, 5), Ok(()));
    let owed = game.clone();

    assert_eq!(game.join_game(carol()), Err(GameError::NotInSetup));
    assert_eq!(game.commit_board(&alice(), [5u8; 32]), Err(GameError::NotInSetup));
    assert_eq!(game.use_sonar(&alice(), 2, 2), Err(GameError::AwaitingSonarReport));
    assert_eq!(game.report_result(&bob(), true), Err(GameError::NoShotToReport));
    assert_eq!(game.claim_victory(&alice()), Err(GameError::NotEnoughHits));
    assert_eq!(game.report_sonar(&alice(), 1), Err(GameError::WrongReporter));
    assert_eq!(game.report_sonar(&carol(), 1), Err(GameError::WrongReporter));
    assert_eq!(game.take_shot(&bob(), 1, 1), Err(GameError::NotYourTurn));
    assert_eq!(game.take_shot(&alice(), 1, 1), Err(GameError::AwaitingSonarReport));
    assert_eq!(game, owed);

    assert_eq!(game.report_sonar(&bob(), 1), Ok(()));
    assert!(bookkeeping_holds(&game));
}

#[test]
fn report_without_a_shot_is_refused() {
    let mut game = started();
    assert_eq!(game.report_result(&bob(), true), Err(GameError::NoShotToReport));
    assert_eq!(game.report_sonar(&bob(), 1), Err(GameError::NoSonarToReport));
}

#[test]
fn a_shot_round_passes_the_turn_once() {
    let mut game = started();
    assert_eq!(game.turn, 1);
    assert_eq!(game.take_shot(&alice(), 1, 1), Ok(()));
    assert_eq!(game.turn, 1);
    assert_eq!(game.report_result(&bob(), false), Ok(()));
    assert_eq!(game.turn, 2);
    assert_eq!(game.take_shot(&bob(), 1, 1), Ok(()));
    assert_eq!(game.turn, 2);
    assert_eq!(game.report_result(&alice(), true), Ok(()));
    assert_eq!(game.turn, 1);
    assert_eq!((game.p1_hits, game.p2_hits), (0, 1));
    assert_eq!((game.p1_turns_taken, game.p2_turns_taken), (1, 1));
}

#[test]
fn a_scan_round_passes_the_turn_once() {
    let mut game = started();
    miss_rounds(&mut game, 3);
    assert_eq!(game.take_shot(&alice(), 1, 1), Ok(()));
    assert_eq!(game.report_result(&bob(), false), Ok(()));
    assert_eq!(game.turn, 2);
    assert_eq!(game.use_sonar(&bob(), 0, 9), Ok(()));
    assert_eq!(game.turn, 2);
    assert_eq!((game.sonar_center_x, game.sonar_center_y), (0, 9));
    assert!(game.p2_sonar_used);
    assert!(!game.p1_sonar_used);
    assert_eq!(game.p2_turns_taken, 4);
    assert_eq!(game.report_sonar(&alice(), 9), Ok(()));
    assert_eq!(game.turn, 1);
    assert_eq!(game.last_sonar_count, 9);
    assert!(bookkeeping_holds(&game));
}

#[test]
fn sonar_unlocks_with_the_third_action() {
    let mut game = started();
    for taken in 0..3u32 {
        assert_eq!(game.p1_turns_taken, taken);
        assert!(!game.sonar_available(&alice()));
        let before = game.clone();
        assert_eq!(game.use_sonar(&alice(), 5, 5), Err(GameError::SonarNotAvailable));
        assert_eq!(game, before);
        miss_rounds(&mut game, 1);
    }
    assert_eq!(game.p1_turns_taken, 3);
    assert!(game.sonar_available(&alice()));
    assert!(!game.sonar_available(&bob()));
    assert!(!game.sonar_available(&carol()));
    assert_eq!(game.use_sonar(&alice(), 5, 5), Ok(()));
}

#[test]
fn sonar_for_the_second_side() {
    let mut game = started();
    miss_rounds(&mut game, 2);
    assert_eq!(game.take_shot(&alice(), 0, 0), Ok(()));
    assert_eq!(game.report_result(&bob(), false), Ok(()));
    assert_eq!(game.p2_turns_taken, 2);
    assert!(!game.sonar_available(&bob()));
    assert_eq!(game.use_sonar(&bob(), 1, 1), Err(GameError::SonarNotAvailable));
    assert_eq!(game.take_shot(&bob(), 0, 0), Ok(()));
    assert_eq!(game.report_result(&alice(), false), Ok(()));
    assert_eq!(game.take_shot(&alice(), 0, 0), Ok(()));
    assert_eq!(game.report_result(&bob(), false), Ok(()));
    assert!(game.sonar_available(&bob()));
    assert!(!game.sonar_available(&alice()));
    assert_eq!(game.use_sonar(&alice(), 1, 1), Err(GameError::NotYourTurn));
    assert_eq!(game.use_sonar(&bob(), 1, 1), Ok(()));
    assert_eq!(game.use_sonar(&bob(), 1, 1), Err(GameError::AwaitingSonarReport));
}

#[test]
fn sonar_centre_runs_from_zero_to_nine() {
    for (x, y) in [(0, 0), (9, 9)] {
        let mut game = started();
        miss_rounds(&mut game, 3);
        assert_eq!(game.use_sonar(&alice(), x, y), Ok(()));
        assert_eq!((game.sonar_center_x, game.sonar_center_y), (x, y));
    }
    for (x, y) in [(10, 0), (0, 10)] {
        let mut game = started();
        miss_rounds(&mut game, 3);
        let before = game.clone();
        assert_eq!(game.use_sonar(&alice(), x, y), Err(GameError::SonarOutOfBounds));
        assert_eq!(game, before);
    }
}

#[test]
fn sonar_count_runs_from_zero_to_nine() {
    for count in [0u32, 9] {
        let mut game = started();
        miss_rounds(&mut game, 3);
        assert_eq!(game.use_sonar(&alice(), 5, 5), Ok(()));
        assert_eq!(game.report_sonar(&bob(), count), Ok(()));
        assert_eq!(game.last_sonar_count, count);
        assert!(!game.awaiting_sonar);
    }
    let mut game = started();
    miss_rounds(&mut game, 3);
    assert_eq!(game.use_sonar(&alice(), 5, 5), Ok(()));
    let before = game.clone();
    assert_eq!(game.report_sonar(&bob(), 10), Err(GameError::InvalidSonarCount));
    assert_eq!(game.report_sonar(&alice(), 10), Err(GameError::InvalidSonarCount));
    assert_eq!(game, before);
}

#[test]
fn spent_sonar_stays_spent() {
    let mut game = started();
    miss_rounds(&mut game, 3);
    assert_eq!(game.use_sonar(&alice(), 5, 5), Ok(()));
    assert_eq!(game.report_sonar(&bob(), 2), Ok(()));
    for _ in 0..5 {
        assert!(game.p1_sonar_used);
        assert_eq!(game.take_shot(&bob(), 8, 8), Ok(()));
        assert!(game.p1_sonar_used);
        assert_eq!(game.report_result(&alice(), false), Ok(()));
        assert!(game.p1_sonar_used);
        assert!(!game.sonar_available(&alice()));
        assert_eq!(game.use_sonar(&alice(), 3, 3), Err(GameError::SonarAlreadyUsed));
        assert_eq!(game.take_shot(&alice(), 8, 8), Ok(()));
        assert_eq!(game.report_result(&bob(), false), Ok(()));
    }
    assert!(game.p1_sonar_used);
    assert!(!game.p2_sonar_used);
}

#[test]
fn status_only_moves_forward() {
    let mut game = Game::new(alice(), 1);
    let mut seen = vec![game.status];
    assert_eq!(game.join_game(bob()), Ok(()));
    seen.push(game.status);
    assert_eq!(game.commit_board(&alice(), [1u8; 32]), Ok(false));
    seen.push(game.status);
    assert_eq!(game.commit_board(&bob(), [2u8; 32]), Ok(true));
    seen.push(game.status);
    for _ in 0..17 {
        assert_eq!(game.take_shot(&alice(), 0, 0), Ok(()));
        seen.push(game.status);
        assert_eq!(game.report_result(&bob(), true), Ok(()));
        seen.push(game.status);
        assert_eq!(game.take_shot(&bob(), 0, 0), Ok(()));
        seen.push(game.status);
        assert_eq!(game.report_result(&alice(), false), Ok(()));
        seen.push(game.status);
    }
    assert_eq!(game.claim_victory(&alice()), Ok(true));
    seen.push(game.status);
    assert!(seen.windows(2).all(|pair| pair[0] <= pair[1]));
    assert_eq!(seen[0], 0);
    assert_eq!(seen[seen.len() - 1], 2);
}

#[test]
fn victory_needs_seventeen_hits() {
    let mut game = started();
    for round in 0..17u32 {
        assert_eq!(game.p1_hits, round);
        assert_eq!(game.claim_victory(&alice()), Err(GameError::NotEnoughHits));
        assert_eq!(game.take_shot(&alice(), round % 10, round / 10), Ok(()));
        assert_eq!(game.report_result(&bob(), true), Ok(()));
        assert_eq!(game.take_shot(&bob(), 9, 9), Ok(()));
        assert_eq!(game.report_result(&alice(), false), Ok(()));
        assert!(bookkeeping_holds(&game));
    }
    assert_eq!(game.p1_hits, 17);
    assert_eq!(game.p1_hits + game.p2_hits, 17);
    assert_eq!(game.claim_victory(&carol()), Err(GameError::NotAPlayer));
    assert_eq!(game.claim_victory(&bob()), Err(GameError::NotEnoughHits));
    assert_eq!(game.status, 1);
    assert_eq!(game.claim_victory(&alice()), Ok(true));
    assert_eq!(game.status, 2);
    assert!(bookkeeping_holds(&game));
}

#[test]
fn a_completed_match_is_terminal() {
    let mut game = started();
    for _ in 0..17 {
        assert_eq!(game.take_shot(&alice(), 0, 0), Ok(()));
        assert_eq!(game.report_result(&bob(), true), Ok(()));
        assert_eq!(game.take_shot(&bob(), 0, 0), Ok(()));
        assert_eq!(game.report_result(&alice(), false), Ok(()));
    }
    assert_eq!(game.claim_victory(&alice()), Ok(true));
    let done = game.clone();

    assert_eq!(game.join_game(carol()), Err(GameError::NotInSetup));
    assert_eq!(game.commit_board(&alice(), [1u8; 32]), Err(GameError::NotInSetup));
    assert_eq!(game.take_shot(&alice(), 0, 0), Err(GameError::NotInProgress));
    assert_eq!(game.report_result(&bob(), true), Err(GameError::NotInProgress));
    assert_eq!(game.use_sonar(&alice(), 0, 0), Err(GameError::NotInProgress));
    assert_eq!(game.report_sonar(&bob(), 0), Err(GameError::NotInProgress));
    assert_eq!(game.claim_victory(&alice()), Err(GameError::NotInProgress));
    assert!(!game.sonar_available(&alice()));
    assert_eq!(game, done);
}

#[test]
fn hits_can_pass_seventeen_when_nobody_claims() {
    let mut game = started();
    for _ in 0..18 {
        assert_eq!(game.take_shot(&alice(), 0, 0), Ok(()));
        assert_eq!(game.report_result(&bob(), true), Ok(()));
        assert_eq!(game.take_shot(&bob(), 0, 0), Ok(()));
        assert_eq!(game.report_result(&alice(), false), Ok(()));
    }
    assert_eq!(game.p1_hits, 18);
    assert_eq!(game.claim_victory(&alice()), Ok(true));
}

#[test]
fn a_shot_waits_for_the_scan_report() {
    let mut game = started();
    miss_rounds(&mut game, 3);
    assert_eq!(game.use_sonar(&alice(), 5, 5), Ok(()));
    let owed = game.clone();

    assert_eq!(game.take_shot(&alice(), 0, 0), Err(GameError::AwaitingSonarReport));
    assert_eq!(game.take_shot(&alice(), 10, 0), Err(GameError::ShotOutOfBounds));
    assert_eq!(game.take_shot(&bob(), 0, 0), Err(GameError::NotYourTurn));
    assert_eq!(game, owed);
    assert!(game.awaiting_sonar);
    assert!(!game.awaiting_report);
    assert_eq!(game.p1_turns_taken, 4);
    assert_eq!(game.last_shot_x, 2);
    assert!(bookkeeping_holds(&game));

    assert_eq!(game.report_sonar(&bob(), 4), Ok(()));
    assert_eq!(game.take_shot(&bob(), 0, 0), Ok(()));
}

fn with_seventeen_hits_each() -> Game {
    let mut game = started();
    for _ in 0..17 {
        assert_eq!(game.take_shot(&alice(), 0, 0), Ok(()));
        assert_eq!(game.report_result(&bob(), true), Ok(()));
        assert_eq!(game.take_shot(&bob(), 0, 0), Ok(()));
        assert_eq!(game.report_result(&alice(), true), Ok(()));
    }
    assert_eq!((game.p1_hits, game.p2_hits), (17, 17));
    game
}

#[test]
fn a_claim_waits_for_the_hit_report() {
    let mut game = with_seventeen_hits_each();
    assert_eq!(game.take_shot(&alice(), 1, 1), Ok(()));
    let owed = game.clone();

    assert_eq!(game.claim_victory(&alice()), Err(GameError::AwaitingHitReport));
    assert_eq!(game.claim_victory(&bob()), Err(GameError::AwaitingHitReport));
    assert_eq!(game.claim_victory(&carol()), Err(GameError::NotAPlayer));
    assert_eq!(game, owed);
    assert_eq!(game.status, 1);
    assert!(bookkeeping_holds(&game));

    assert_eq!(game.report_result(&bob(), false), Ok(()));
    assert_eq!(game.claim_victory(&bob()), Ok(false));
    assert_eq!(game.status, 2);
    assert!(!game.awaiting_report && !game.awaiting_sonar);
    assert!(bookkeeping_holds(&game));
}

#[test]
fn a_claim_waits_for_the_scan_report() {
    let mut game = with_seventeen_hits_each();
    assert_eq!(game.use_sonar(&alice(), 1, 1), Ok(()));
    let owed = game.clone();

    assert_eq!(game.claim_victory(&alice()), Err(GameError::AwaitingSonarReport));
    assert_eq!(game.claim_victory(&bob()), Err(GameError::AwaitingSonarReport));
    assert_eq!(game, owed);

    assert_eq!(game.report_sonar(&bob(), 0), Ok(()));
    assert_eq!(game.claim_victory(&alice()), Ok(true));
    assert!(bookkeeping_holds(&game));
}

#[test]
fn too_few_hits_is_told_before_the_owed_report() {
    let mut game = started();
    assert_eq!(game.take_shot(&alice(), 1, 1), Ok(()));
    assert_eq!(game.claim_victory(&alice()), Err(GameError::NotEnoughHits));
    assert_eq!(game.claim_victory(&bob()), Err(GameError::NotEnoughHits));
}

#[test]
fn room_is_told_from_the_counters() {
    let mut game = started();
    assert!(game.has_room());
    game.p1_turns_taken = u32::MAX;
    assert!(!game.has_room());
    game.p1_turns_taken = u32::MAX - 1;
    assert!(game.has_room());
    assert_eq!(game.take_shot(&alice(), 0, 0), Ok(()));
    assert_eq!(game.p1_turns_taken, u32::MAX);
    assert!(!game.has_room());
    game.p1_turns_taken = 0;
    game.p2_hits = u32::MAX;
    assert!(!game.has_room());
    game.p2_hits = 0;
    game.boards_committed = u32::MAX;
    assert!(!game.has_room());
}

#[test]
fn every_fault_has_its_message() {
    let all = [
        (GameError::AlreadyInitialized, "already initialized"),
        (GameError::GameNotFound, "game not found"),
        (GameError::NotInSetup, "game not in setup phase"),
        (GameError::NotInProgress, "game not in progress"),
        (GameError::SeatTaken, "player 2 already joined"),
        (GameError::SelfJoin, "cannot join your own game"),
        (GameError::BoardAlreadyCommitted, "board already committed"),
        (GameError::ZeroBoardHash, "board hash is all zero"),
        (GameError::NotAPlayerInGame, "not a player in this game"),
        (GameError::NotYourTurn, "not your turn"),
        (GameError::AwaitingHitReport, "waiting for hit report"),
        (GameError::AwaitingSonarReport, "waiting for sonar report"),
        (GameError::NoShotToReport, "no shot to report on"),
        (GameError::NoSonarToReport, "no sonar to report on"),
        (GameError::WrongReporter, "wrong player reporting"),
        (GameError::ShotOutOfBounds, "shot out of bounds"),
        (GameError::SonarOutOfBounds, "sonar out of bounds"),
        (GameError::InvalidSonarCount, "invalid sonar count"),
        (GameError::SonarNotAvailable, "sonar not available this turn"),
        (GameError::SonarAlreadyUsed, "sonar already used"),
        (GameError::NotEnoughHits, "not enough hits to win"),
        (GameError::NotAPlayer, "not a player"),
        (GameError::Unauthorized, "unauthorized"),
    ];
    for (fault, text) in all {
        assert_eq!(fault.message(), text);
    }
    for (i, (first, _)) in all.iter().enumerate() {
        for (second, _) in all.iter().skip(i + 1) {
            assert_ne!(first, second);
            assert_ne!(first.message(), second.message());
        }
    }
}
