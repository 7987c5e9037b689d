//! The life of one session: opened, moves collected, resolved, reported.
//!
//! Each step takes the record that was found under the session's identifier
//! and says what becomes of it, what is handed back to the caller, and what
//! the hub is owed. Where a step refuses, nothing is to be written.

use vstd::prelude::*;
use crate::error::Error;
use crate::game::{fresh_game, Game, GameView};
use crate::hub::{Consent, ConsentView, HubCall, HubCallView};
use crate::identity::Address;
use crate::moves::{outcome_of, resolve, Outcome, PlayerMove, Seat};

verus! {

/// What opening a session takes, in the order in which it is due: the
/// consent of both players, the hub's agreement, and only then the record.
#[derive(Debug)]
pub struct Opening {
    pub consent1: Consent,
    pub consent2: Consent,
    pub hub_call: HubCall,
    pub game: Game,
}

/// What a reveal found.
#[derive(Debug)]
pub enum Reveal {
    /// The session had been decided before. Nothing is written and the hub
    /// is not told again.
    Settled { winner: Address },
    /// The round was a tie. The record, with both moves taken back, is
    /// written and the players go again.
    Tied { game: Game },
    /// The round has a winner. The record is written and the hub is told,
    /// both or neither.
    Decided { game: Game, winner: Address, hub_call: HubCall },
}

/// A reveal with its identities as text.
pub enum RevealView {
    Settled { winner: Seq<char> },
    Tied { game: GameView },
    Decided { game: GameView, winner: Seq<char>, hub_call: HubCallView },
}

impl View for Reveal {
    type V = RevealView;

    open spec fn view(&self) -> RevealView {
        match *self {
            Reveal::Settled { winner } => RevealView::Settled { winner: winner@ },
            Reveal::Tied { game } => RevealView::Tied { game: game@ },
            Reveal::Decided { game, winner, hub_call } => RevealView::Decided {
                game: game@,
                winner: winner@,
                hub_call: hub_call@,
            },
        }
    }
}

impl RevealView {
    /// The winner that the caller is told of; none after a tie.
    pub open spec fn winner(self) -> Option<Seq<char>> {
        match self {
            RevealView::Settled { winner } => Some(winner),
            RevealView::Tied { .. } => None,
            RevealView::Decided { winner, .. } => Some(winner),
        }
    }

    /// The record as it stands after the reveal, given the one before it.
    pub open spec fn record(self, before: GameView) -> GameView {
        match self {
            RevealView::Settled { .. } => before,
            RevealView::Tied { game } => game,
            RevealView::Decided { game, .. } => game,
        }
    }
}

/// The consents that opening a session calls for: each player's own, for
/// this session and for the points that this player stakes.
pub open spec fn consent_of(who: Seq<char>, session_id: u32, points: i128) -> ConsentView {
    ConsentView { who, session_id, points }
}

/// What becomes of a session when `player` puts `game_move` down.
pub open spec fn submitted(found: Option<GameView>, player: Seq<char>, game_move: PlayerMove) -> Result<
    GameView,
    Error,
> {
    match found {
        None => Err(Error::GameNotFound),
        Some(game) => {
            if game.ended() {
                Err(Error::GameAlreadyEnded)
            } else if player == game.player1 {
                if game.player1_move.is_set() {
                    Err(Error::AlreadyMoved)
                } else {
                    Ok(GameView { player1_move: game_move, ..game })
                }
            } else if player == game.player2 {
                if game.player2_move.is_set() {
                    Err(Error::AlreadyMoved)
                } else {
                    Ok(GameView { player2_move: game_move, ..game })
                }
            } else {
                Err(Error::NotPlayer)
            }
        },
    }
}

/// What a reveal finds in the session stored under `session_id`.
pub open spec fn revealed(found: Option<GameView>, session_id: u32) -> Result<RevealView, Error> {
    match found {
        None => Err(Error::GameNotFound),
        Some(game) => {
            if let Some(winner) = game.winner {
                Ok(RevealView::Settled { winner })
            } else if !game.both_moved() {
                Err(Error::BothPlayersNotMoved)
            } else {
                match outcome_of(game.player1_move, game.player2_move) {
                    Outcome::Tie => Ok(
                        RevealView::Tied {
                            game: GameView {
                                player1_move: PlayerMove::Unset,
                                player2_move: PlayerMove::Unset,
                                ..game
                            },
                        },
                    ),
                    Outcome::Decisive(Seat::Player1) => Ok(
                        RevealView::Decided {
                            game: GameView { winner: Some(game.player1), ..game },
                            winner: game.player1,
                            hub_call: HubCallView::EndGame { session_id, player1_won: true },
                        },
                    ),
                    Outcome::Decisive(Seat::Player2) => Ok(
                        RevealView::Decided {
                            game: GameView { winner: Some(game.player2), ..game },
                            winner: game.player2,
                            hub_call: HubCallView::EndGame { session_id, player1_won: false },
                        },
                    ),
                }
            }
        },
    }
}

/// Opens a session between two different players. The result names, in
/// order, what has to happen: both consents are checked, the hub accepts
/// the call, and the record is stored.
pub fn start_game(
    session_id: u32,
    player1: Address,
    player2: Address,
    player1_points: i128,
    player2_points: i128,
) -> (opening: Opening)
    requires
        player1@ != player2@,
    ensures
        opening.consent1@ == consent_of(player1@, session_id, player1_points),
        opening.consent2@ == consent_of(player2@, session_id, player2_points),
        opening.hub_call@ == (HubCallView::StartGame {
            session_id,
            player1: player1@,
            player2: player2@,
            player1_points,
            player2_points,
        }),
        opening.game@ == fresh_game(player1@, player2@, player1_points, player2_points),
        opening.game@.wf(),
{
    let consent1 = Consent { who: player1.clone(), session_id, points: player1_points };
    let consent2 = Consent { who: player2.clone(), session_id, points: player2_points };
    let hub_call = HubCall::StartGame {
        session_id,
        player1: player1.clone(),
        player2: player2.clone(),
        player1_points,
        player2_points,
    };
    let game = Game::new(player1, player2, player1_points, player2_points);
    Opening { consent1, consent2, hub_call, game }
}

/// Puts `game_move` down for `player` in the session that was found. On
/// success the result is the record to write; on refusal nothing changes.
pub fn submit_move(found: Option<Game>, player: &Address, game_move: PlayerMove) -> (result: Result<
    Game,
    Error,
>)
    ensures
        match submitted(opt_game_view(found), player@, game_move) {
            Ok(game) => result matches Ok(g) && g@ == game,
            Err(error) => result == Err::<Game, Error>(error),
        },
        found is Some && found->Some_0@.wf() && result is Ok ==> result->Ok_0@.wf(),
{
    let mut game = match found {
        Some(game) => game,
        None => { return Err(Error::GameNotFound); },
    };
    if game.has_ended() {
        return Err(Error::GameAlreadyEnded);
    }
    if *player == game.player1 {
        if game.player1_move.has_moved() {
            return Err(Error::AlreadyMoved);
        }
        game.player1_move = game_move;
    } else if *player == game.player2 {
        if game.player2_move.has_moved() {
            return Err(Error::AlreadyMoved);
        }
        game.player2_move = game_move;
    } else {
        return Err(Error::NotPlayer);
    }
    Ok(game)
}

/// Looks at the session that was found under `session_id` and settles the
/// round if both moves are on the table.
pub fn reveal_winner(found: Option<Game>, session_id: u32) -> (result: Result<Reveal, Error>)
    ensures
        match revealed(opt_game_view(found), session_id) {
            Ok(expected) => result matches Ok(r) && r@ == expected,
            Err(error) => result matches Err(e) && e == error,
        },
        found is Some && found->Some_0@.wf() && result is Ok ==> result->Ok_0@.record(
            found->Some_0@,
        ).wf(),
{
    let mut game = match found {
        Some(game) => game,
        None => { return Err(Error::GameNotFound); },
    };
    if let Some(winner) = &game.winner {
        return Ok(Reveal::Settled { winner: winner.clone() });
    }
    if !game.player1_move.has_moved() || !game.player2_move.has_moved() {
        return Err(Error::BothPlayersNotMoved);
    }
    match resolve(game.player1_move, game.player2_move) {
        Outcome::Tie => {
            game.player1_move = PlayerMove::Unset;
            game.player2_move = PlayerMove::Unset;
            Ok(Reveal::Tied { game })
        },
        Outcome::Decisive(seat) => {
            let player1_won = match seat {
                Seat::Player1 => true,
                Seat::Player2 => false,
            };
            let winner = if player1_won {
                game.player1.clone()
            } else {
                game.player2.clone()
            };
            game.winner = Some(winner.clone());
            let hub_call = HubCall::EndGame { session_id, player1_won };
            Ok(Reveal::Decided { game, winner, hub_call })
        },
    }
}

/// The text form of a record that may be missing.
pub open spec fn opt_game_view(found: Option<Game>) -> Option<GameView> {
    match found {
        Some(game) => Some(game@),
        None => None,
    }
}

} // verus!
