use rps::contract::RpsContract;
use rps::error::Error;
use rps::game::Game;
use rps::hub::{Consent, HubCall};
use rps::identity::Address;
use rps::moves::{resolve, Outcome, PlayerMove, Seat};
use rps::session;
use rps::session::Reveal;
use rps::store::{SessionStore, GAME_TTL_LEDGERS};

const ALICE: &str = "GAAAAAAAAAAAAAAAAAAAAAAAAAAAAAAAAAAAAAAAAAAAAAAAAAAAAWHF";
const BOB: &str = "CAAAAAAAAAAAAAAAAAAAAAAAAAAAAAAAAAAAAAAAAAAAAAAAAAAAFCT4";
const CAROL: &str = "GBZXN7PIRZGNMHGA7MUUUF4GWPY5AYPV6LY4UV2GL6VJGIQRXFDNMADI";
const DAVE: &str = "CDLZFC3SYJYDZT7K67VZ75HPJVIEUVNIXF47ZG2FB2RMQQVU2HHGCYSC";

fn who(strkey: &str) -> Address {
    Address::from_str(strkey)
}

fn controller() -> RpsContract {
    RpsContract::new(who(CAROL), who(DAVE))
}

fn open_game() -> Game {
    Game::new(who(ALICE), who(BOB), 100, 100)
}

#[test]
fn resolve_ties_on_equal_moves() {
    assert_eq!(resolve(PlayerMove::Rock, PlayerMove::Rock), Outcome::Tie);
    assert_eq!(resolve(PlayerMove::Paper, PlayerMove::Paper), Outcome::Tie);
    assert_eq!(resolve(PlayerMove::Scissors, PlayerMove::Scissors), Outcome::Tie);
}

#[test]
fn resolve_gives_player1_the_three_winning_pairs() {
    let won = Outcome::Decisive(Seat::Player1);
    assert_eq!(resolve(PlayerMove::Rock, PlayerMove::Scissors), won);
    assert_eq!(resolve(PlayerMove::Scissors, PlayerMove::Paper), won);
    assert_eq!(resolve(PlayerMove::Paper, PlayerMove::Rock), won);
}

#[test]
fn resolve_gives_player2_the_three_losing_pairs() {
    let lost = Outcome::Decisive(Seat::Player2);
    assert_eq!(resolve(PlayerMove::Scissors, PlayerMove::Rock), lost);
    assert_eq!(resolve(PlayerMove::Paper, PlayerMove::Scissors), lost);
    assert_eq!(resolve(PlayerMove::Rock, PlayerMove::Paper), lost);
}

#[test]
fn has_moved_tells_unset_from_the_rest() {
    assert!(!PlayerMove::Unset.has_moved());
    assert!(PlayerMove::Rock.has_moved());
    assert!(PlayerMove::Paper.has_moved());
    assert!(PlayerMove::Scissors.has_moved());
}

#[test]
fn error_codes_are_one_to_five() {
    assert_eq!(Error::GameNotFound.code(), 1);
    assert_eq!(Error::NotPlayer.code(), 2);
    assert_eq!(Error::AlreadyMoved.code(), 3);
    assert_eq!(Error::BothPlayersNotMoved.code(), 4);
    assert_eq!(Error::GameAlreadyEnded.code(), 5);
}

#[test]
fn error_from_code_inverts_code() {
    for code in 1u32..=5 {
        assert_eq!(Error::from_code(code).unwrap().code(), code);
    }
    assert_eq!(Error::from_code(0), None);
    assert_eq!(Error::from_code(6), None);
    assert_eq!(Error::from_code(u32::MAX), None);
}

#[test]
fn identity_keeps_its_strkey() {
    let alice = who(ALICE);
    assert_eq!(alice.as_str(), ALICE);
    assert_eq!(alice, who(ALICE));
    assert_ne!(alice, who(BOB));
    assert_eq!(alice.clone(), alice);
}

#[test]
fn identity_survives_the_ledger() {
    let env = soroban_sdk::Env::default();
    for strkey in [ALICE, BOB, CAROL, DAVE] {
        let on_ledger = soroban_sdk::Address::from_str(&env, strkey);
        let here = Address::from_str(&on_ledger.to_string().to_string());
        assert_eq!(here, who(strkey));
        assert_eq!(soroban_sdk::Address::from_str(&env, here.as_str()), on_ledger);
    }
}

#[test]
fn new_game_is_fresh() {
    let game = Game::new(who(ALICE), who(BOB), 200_0000000, 50_0000000);
    assert_eq!(game.player1, who(ALICE));
    assert_eq!(game.player2, who(BOB));
    assert_eq!(game.player1_points, 200_0000000);
    assert_eq!(game.player2_points, 50_0000000);
    assert_eq!(game.player1_move, PlayerMove::Unset);
    assert_eq!(game.player2_move, PlayerMove::Unset);
    assert_eq!(game.winner, None);
    assert!(!game.has_ended());
    assert!(game.is_player(&who(ALICE)));
    assert!(game.is_player(&who(BOB)));
    assert!(!game.is_player(&who(CAROL)));
}

#[test]
fn start_names_consents_hub_call_and_record() {
    let opening = session::start_game(9, who(ALICE), who(BOB), 30, 70);
    assert_eq!(
        opening.consent1,
        Consent { who: who(ALICE), session_id: 9, points: 30 }
    );
    assert_eq!(
        opening.consent2,
        Consent { who: who(BOB), session_id: 9, points: 70 }
    );
    assert_eq!(
        opening.hub_call,
        HubCall::StartGame {
            session_id: 9,
            player1: who(ALICE),
            player2: who(BOB),
            player1_points: 30,
            player2_points: 70,
        }
    );
    assert_eq!(opening.game, Game::new(who(ALICE), who(BOB), 30, 70));
}

#[test]
fn submit_without_a_record_is_not_found() {
    let result = session::submit_move(None, &who(ALICE), PlayerMove::Rock);
    assert_eq!(result, Err(Error::GameNotFound));
}

#[test]
fn submit_writes_the_callers_move_only() {
    let after = session::submit_move(Some(open_game()), &who(BOB), PlayerMove::Paper).unwrap();
    let mut expected = open_game();
    expected.player2_move = PlayerMove::Paper;
    assert_eq!(after, expected);

    let after = session::submit_move(Some(after), &who(ALICE), PlayerMove::Scissors).unwrap();
    expected.player1_move = PlayerMove::Scissors;
    assert_eq!(after, expected);
}

#[test]
fn submit_refuses_a_stranger() {
    let result = session::submit_move(Some(open_game()), &who(CAROL), PlayerMove::Rock);
    assert_eq!(result, Err(Error::NotPlayer));
}

#[test]
fn submit_refuses_a_second_move() {
    let mut game = open_game();
    game.player2_move = PlayerMove::Rock;
    let result = session::submit_move(Some(game), &who(BOB), PlayerMove::Paper);
    assert_eq!(result, Err(Error::AlreadyMoved));
}

#[test]
fn submit_refuses_everyone_once_the_session_has_ended() {
    let mut game = open_game();
    game.winner = Some(who(ALICE));
    for player in [ALICE, BOB, CAROL] {
        let result = session::submit_move(Some(game.clone()), &who(player), PlayerMove::Rock);
        assert_eq!(result, Err(Error::GameAlreadyEnded));
    }
}

#[test]
fn submit_of_unset_leaves_the_seat_free() {
    let after = session::submit_move(Some(open_game()), &who(ALICE), PlayerMove::Unset).unwrap();
    assert_eq!(after, open_game());
    let after = session::submit_move(Some(after), &who(ALICE), PlayerMove::Rock).unwrap();
    assert_eq!(after.player1_move, PlayerMove::Rock);
}

#[test]
fn reveal_without_a_record_is_not_found() {
    assert!(matches!(session::reveal_winner(None, 4), Err(Error::GameNotFound)));
}

#[test]
fn reveal_needs_both_moves() {
    assert!(matches!(
        session::reveal_winner(Some(open_game()), 4),
        Err(Error::BothPlayersNotMoved)
    ));
    let mut game = open_game();
    game.player2_move = PlayerMove::Rock;
    assert!(matches!(
        session::reveal_winner(Some(game), 4),
        Err(Error::BothPlayersNotMoved)
    ));
}

#[test]
fn reveal_of_a_tie_takes_both_moves_back() {
    let mut game = open_game();
    game.player1_move = PlayerMove::Paper;
    game.player2_move = PlayerMove::Paper;
    match session::reveal_winner(Some(game), 4) {
        Ok(Reveal::Tied { game }) => assert_eq!(game, open_game()),
        other => panic!("expected a tie, got {:?}", other),
    }
}

#[test]
fn reveal_decides_for_the_stronger_move() {
    let mut game = open_game();
    game.player1_move = PlayerMove::Scissors;
    game.player2_move = PlayerMove::Rock;
    let mut expected = game.clone();
    expected.winner = Some(who(BOB));
    match session::reveal_winner(Some(game), 4) {
        Ok(Reveal::Decided { game, winner, hub_call }) => {
            assert_eq!(game, expected);
            assert_eq!(winner, who(BOB));
            assert_eq!(hub_call, HubCall::EndGame { session_id: 4, player1_won: false });
        }
        other => panic!("expected a decision, got {:?}", other),
    }
}

#[test]
fn reveal_of_an_ended_session_repeats_the_winner() {
    let mut game = open_game();
    game.winner = Some(who(ALICE));
    match session::reveal_winner(Some(game), 4) {
        Ok(Reveal::Settled { winner }) => assert_eq!(winner, who(ALICE)),
        other => panic!("expected the settled winner, got {:?}", other),
    }
}

#[test]
fn store_starts_empty_with_thirty_days_of_retention() {
    let store: SessionStore<Game> = SessionStore::new();
    assert_eq!(GAME_TTL_LEDGERS, 518_400);
    assert_eq!(store.retention_floor(), 518_400);
    assert!(!store.contains(1));
    assert_eq!(store.get(1), None);
    assert_eq!(store.retention_of(1), None);
}

#[test]
fn store_put_overwrites_and_renews_retention() {
    let mut store = SessionStore::with_retention(77);
    store.put(1, open_game());
    assert!(store.contains(1));
    assert_eq!(store.get(1), Some(&open_game()));
    assert_eq!(store.retention_of(1), Some(77));

    let mut moved = open_game();
    moved.player1_move = PlayerMove::Rock;
    store.put(1, moved.clone());
    assert_eq!(store.get(1), Some(&moved));
    assert_eq!(store.retention_of(1), Some(77));
    assert_eq!(store.get(2), None);
}

#[test]
fn store_create_fails_on_a_live_record() {
    let mut store = SessionStore::new();
    assert!(store.create(1, open_game()));
    let other = Game::new(who(CAROL), who(DAVE), 1, 2);
    assert!(!store.create(1, other.clone()));
    assert_eq!(store.get(1), Some(&open_game()));
    assert!(store.create(2, other.clone()));
    assert_eq!(store.get(2), Some(&other));
    assert_eq!(store.retention_of(2), Some(GAME_TTL_LEDGERS));
}

#[test]
fn controller_keeps_its_configuration() {
    let mut contract = controller();
    assert_eq!(contract.get_admin(), who(CAROL));
    assert_eq!(contract.get_hub(), who(DAVE));
    contract.set_admin(who(ALICE));
    assert_eq!(contract.get_admin(), who(ALICE));
    assert_eq!(contract.get_hub(), who(DAVE));
    contract.set_hub(who(BOB));
    assert_eq!(contract.get_admin(), who(ALICE));
    assert_eq!(contract.get_hub(), who(BOB));
    assert!(contract.hub_calls().is_empty());
}

#[test]
fn every_write_renews_the_retention() {
    let mut contract = controller();
    assert_eq!(contract.retention_of(1), None);
    contract.start_game(1, who(ALICE), who(BOB), 100, 100).unwrap();
    assert_eq!(contract.retention_of(1), Some(518_400));
    contract.submit_move(1, who(ALICE), PlayerMove::Rock).unwrap();
    contract.submit_move(1, who(BOB), PlayerMove::Rock).unwrap();
    assert_eq!(contract.reveal_winner(1), Ok(None));
    assert_eq!(contract.retention_of(1), Some(518_400));
    assert_eq!(contract.retention_of(2), None);
}

#[test]
fn start_then_get_is_a_fresh_record() {
    let mut contract = controller();
    assert!(!contract.has_game(1));
    assert_eq!(contract.get_game(1), Err(Error::GameNotFound));
    assert_eq!(contract.start_game(1, who(ALICE), who(BOB), 100, 100), Ok(()));
    assert!(contract.has_game(1));
    assert_eq!(contract.get_game(1), Ok(open_game()));
}

#[test]
fn end_to_end_rock_beats_scissors_then_the_session_is_closed() {
    let mut contract = controller();
    contract.start_game(1, who(ALICE), who(BOB), 100, 100).unwrap();
    assert_eq!(contract.submit_move(1, who(ALICE), PlayerMove::Rock), Ok(()));
    assert_eq!(contract.submit_move(1, who(BOB), PlayerMove::Scissors), Ok(()));
    assert_eq!(contract.reveal_winner(1), Ok(Some(who(ALICE))));
    assert_eq!(
        contract.submit_move(1, who(ALICE), PlayerMove::Paper),
        Err(Error::GameAlreadyEnded)
    );
}

#[test]
fn hub_hears_of_start_and_of_the_end_once() {
    let mut contract = controller();
    contract.start_game(1, who(ALICE), who(BOB), 100, 40).unwrap();
    contract.submit_move(1, who(ALICE), PlayerMove::Paper).unwrap();
    contract.submit_move(1, who(BOB), PlayerMove::Scissors).unwrap();
    assert_eq!(contract.reveal_winner(1), Ok(Some(who(BOB))));
    assert_eq!(contract.reveal_winner(1), Ok(Some(who(BOB))));
    assert_eq!(contract.reveal_winner(1), Ok(Some(who(BOB))));
    let expected = vec![
        HubCall::StartGame {
            session_id: 1,
            player1: who(ALICE),
            player2: who(BOB),
            player1_points: 100,
            player2_points: 40,
        },
        HubCall::EndGame { session_id: 1, player1_won: false },
    ];
    assert_eq!(contract.hub_calls(), &expected);
}

#[test]
fn a_tie_tells_the_hub_nothing() {
    let mut contract = controller();
    contract.start_game(1, who(ALICE), who(BOB), 100, 100).unwrap();
    contract.submit_move(1, who(ALICE), PlayerMove::Paper).unwrap();
    contract.submit_move(1, who(BOB), PlayerMove::Paper).unwrap();
    assert_eq!(contract.reveal_winner(1), Ok(None));
    assert_eq!(contract.hub_calls().len(), 1);
    assert_eq!(contract.get_game(1), Ok(open_game()));
}

#[test]
fn tie_loop_reaches_a_winner() {
    let mut contract = controller();
    contract.start_game(1, who(ALICE), who(BOB), 100, 100).unwrap();
    contract.submit_move(1, who(ALICE), PlayerMove::Scissors).unwrap();
    contract.submit_move(1, who(BOB), PlayerMove::Scissors).unwrap();
    assert_eq!(contract.reveal_winner(1), Ok(None));
    assert_eq!(contract.submit_move(1, who(BOB), PlayerMove::Rock), Ok(()));
    assert_eq!(contract.submit_move(1, who(ALICE), PlayerMove::Paper), Ok(()));
    assert_eq!(contract.reveal_winner(1), Ok(Some(who(ALICE))));
}

#[test]
fn a_stranger_changes_nothing() {
    let mut contract = controller();
    contract.start_game(1, who(ALICE), who(BOB), 100, 100).unwrap();
    contract.submit_move(1, who(ALICE), PlayerMove::Rock).unwrap();
    let before = contract.get_game(1).unwrap();
    assert_eq!(
        contract.submit_move(1, who(CAROL), PlayerMove::Paper),
        Err(Error::NotPlayer)
    );
    assert_eq!(contract.get_game(1), Ok(before));
    assert_eq!(contract.hub_calls().len(), 1);
}

#[test]
fn a_second_move_leaves_the_first() {
    let mut contract = controller();
    contract.start_game(1, who(ALICE), who(BOB), 100, 100).unwrap();
    contract.submit_move(1, who(BOB), PlayerMove::Rock).unwrap();
    assert_eq!(
        contract.submit_move(1, who(BOB), PlayerMove::Paper),
        Err(Error::AlreadyMoved)
    );
    contract.submit_move(1, who(ALICE), PlayerMove::Scissors).unwrap();
    assert_eq!(
        contract.submit_move(1, who(BOB), PlayerMove::Paper),
        Err(Error::AlreadyMoved)
    );
    assert_eq!(
        contract.submit_move(1, who(ALICE), PlayerMove::Paper),
        Err(Error::AlreadyMoved)
    );
    let game = contract.get_game(1).unwrap();
    assert_eq!(game.player1_move, PlayerMove::Scissors);
    assert_eq!(game.player2_move, PlayerMove::Rock);
    assert_eq!(contract.reveal_winner(1), Ok(Some(who(BOB))));
}

#[test]
fn sessions_do_not_see_each_other() {
    let mut contract = controller();
    contract.start_game(1, who(ALICE), who(BOB), 100, 100).unwrap();
    contract.start_game(2, who(CAROL), who(DAVE), 5, 6).unwrap();
    let untouched = contract.get_game(2).unwrap();

    contract.submit_move(1, who(ALICE), PlayerMove::Rock).unwrap();
    assert_eq!(contract.get_game(2), Ok(untouched.clone()));
    contract.submit_move(1, who(BOB), PlayerMove::Scissors).unwrap();
    assert_eq!(contract.reveal_winner(1), Ok(Some(who(ALICE))));
    assert_eq!(contract.get_game(2), Ok(untouched));

    assert_eq!(
        contract.submit_move(2, who(ALICE), PlayerMove::Rock),
        Err(Error::NotPlayer)
    );
    assert_eq!(contract.reveal_winner(2), Err(Error::BothPlayersNotMoved));
    assert_eq!(contract.submit_move(2, who(DAVE), PlayerMove::Paper), Ok(()));
    assert_eq!(contract.get_game(1).unwrap().winner, Some(who(ALICE)));
}

#[test]
fn template_refuses_a_stranger_and_a_second_finish() {
    let mut contract =
        rps::template::TemplateGameContract::new(who(CAROL), who(DAVE));
    assert!(!contract.has_game(7));
    contract.start_game(7, who(ALICE), who(BOB), 10, 12).unwrap();
    assert!(contract.has_game(7));
    assert_eq!(
        contract.finish_game(7, who(CAROL), true),
        Err(rps::template::Error::NotPlayer)
    );
    assert_eq!(contract.get_game(7).unwrap().winner, None);
    assert_eq!(contract.finish_game(7, who(BOB), false), Ok(()));
    assert_eq!(contract.get_game(7).unwrap().winner, Some(who(BOB)));
    assert_eq!(
        contract.finish_game(7, who(ALICE), true),
        Err(rps::template::Error::GameAlreadyEnded)
    );
    assert_eq!(
        contract.finish_game(7, who(CAROL), true),
        Err(rps::template::Error::GameAlreadyEnded)
    );
    assert_eq!(contract.get_game(7).unwrap().winner, Some(who(BOB)));
    let expected = vec![
        HubCall::StartGame {
            session_id: 7,
            player1: who(ALICE),
            player2: who(BOB),
            player1_points: 10,
            player2_points: 12,
        },
        HubCall::EndGame { session_id: 7, player1_won: false },
    ];
    assert_eq!(contract.hub_calls(), &expected);
}

#[test]
fn template_error_codes_are_one_to_three() {
    assert_eq!(rps::template::Error::GameNotFound.code(), 1);
    assert_eq!(rps::template::Error::NotPlayer.code(), 2);
    assert_eq!(rps::template::Error::GameAlreadyEnded.code(), 3);
}

#[test]
fn template_finish_names_record_and_hub_call() {
    let opening = rps::template::start_game(3, who(ALICE), who(BOB), 1, 2);
    assert_eq!(opening.consent1, Consent { who: who(ALICE), session_id: 3, points: 1 });
    assert_eq!(opening.consent2, Consent { who: who(BOB), session_id: 3, points: 2 });
    let finish =
        rps::template::finish_game(Some(opening.game.clone()), 3, &who(ALICE), true).unwrap();
    assert_eq!(finish.hub_call, HubCall::EndGame { session_id: 3, player1_won: true });
    assert_eq!(finish.game.winner, Some(who(ALICE)));
    assert_eq!(finish.game.player1, opening.game.player1);
    assert!(matches!(
        rps::template::finish_game(None, 3, &who(ALICE), true),
        Err(rps::template::Error::GameNotFound)
    ));
}
