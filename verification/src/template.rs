//! The plainest game a hub can serve: a session is opened, and one of its
//! players reports who won. There are no moves and no second round.

use vstd::prelude::*;
use crate::contract::{
    calls_view,
    completions,
    lemma_completions_push,
    lemma_openings_push,
    openings,
};
use crate::hub::{Consent, HubCall, HubCallView};
use crate::identity::{clone_opt, opt_view, Address};
use crate::session::consent_of;
use crate::store::{lookup, SessionStore, GAME_TTL_LEDGERS};

verus! {

/// The refusals a caller can recover from. Each leaves the session exactly
/// as it was.
#[derive(Clone, Copy, Debug, PartialEq, Eq, Structural)]
pub enum Error {
    /// No session is stored under the identifier.
    GameNotFound,
    /// The caller holds neither seat of the session.
    NotPlayer,
    /// The session has a winner.
    GameAlreadyEnded,
}

impl Error {
    /// The number under which the refusal is reported on the ledger.
    pub open spec fn spec_code(self) -> u32 {
        match self {
            Error::GameNotFound => 1,
            Error::NotPlayer => 2,
            Error::GameAlreadyEnded => 3,
        }
    }

    /// The number under which the refusal is reported on the ledger.
    pub fn code(&self) -> (c: u32)
        ensures
            c == self.spec_code(),
            1 <= c <= 3,
    {
        match self {
            Error::GameNotFound => 1,
            Error::NotPlayer => 2,
            Error::GameAlreadyEnded => 3,
        }
    }
}

/// One session between two players.
#[derive(Debug, PartialEq, Eq)]
pub struct Game {
    pub player1: Address,
    pub player2: Address,
    pub player1_points: i128,
    pub player2_points: i128,
    pub winner: Option<Address>,
}

/// A session record with its identities as text.
pub struct GameView {
    pub player1: Seq<char>,
    pub player2: Seq<char>,
    pub player1_points: i128,
    pub player2_points: i128,
    pub winner: Option<Seq<char>>,
}

impl View for Game {
    type V = GameView;

    open spec fn view(&self) -> GameView {
        GameView {
            player1: self.player1@,
            player2: self.player2@,
            player1_points: self.player1_points,
            player2_points: self.player2_points,
            winner: opt_view(self.winner),
        }
    }
}

impl Clone for Game {
    fn clone(&self) -> (r: Game)
        ensures
            r@ == self@,
    {
        Game {
            player1: self.player1.clone(),
            player2: self.player2.clone(),
            player1_points: self.player1_points,
            player2_points: self.player2_points,
            winner: clone_opt(&self.winner),
        }
    }
}

impl GameView {
    /// What every record of a session that was opened here satisfies: two
    /// different players, and a winner, if there is one, among them.
    pub open spec fn wf(self) -> bool {
        &&& self.player1 != self.player2
        &&& self.winner is Some ==> self.winner->Some_0 == self.player1 || self.winner->Some_0
            == self.player2
    }

    /// Whether the session has come to its end.
    pub open spec fn ended(self) -> bool {
        self.winner is Some
    }
}

/// The record of a session that has just been opened.
pub open spec fn fresh_game(
    player1: Seq<char>,
    player2: Seq<char>,
    player1_points: i128,
    player2_points: i128,
) -> GameView {
    GameView { player1, player2, player1_points, player2_points, winner: None }
}

/// The text form of a record that may be missing.
pub open spec fn opt_game_view(found: Option<Game>) -> Option<GameView> {
    match found {
        Some(game) => Some(game@),
        None => None,
    }
}

/// What becomes of a session when `player` reports that it is over and
/// who won.
pub open spec fn finished(found: Option<GameView>, player: Seq<char>, player1_won: bool) -> Result<
    GameView,
    Error,
> {
    match found {
        None => Err(Error::GameNotFound),
        Some(game) => {
            if game.ended() {
                Err(Error::GameAlreadyEnded)
            } else if player != game.player1 && player != game.player2 {
                Err(Error::NotPlayer)
            } else {
                Ok(
                    GameView {
                        winner: Some(
                            if player1_won {
                                game.player1
                            } else {
                                game.player2
                            },
                        ),
                        ..game
                    },
                )
            }
        },
    }
}

/// What opening a session takes, in the order in which it is due: the
/// consent of both players, the hub's agreement, and only then the record.
#[derive(Debug)]
pub struct Opening {
    pub consent1: Consent,
    pub consent2: Consent,
    pub hub_call: HubCall,
    pub game: Game,
}

/// What the end of a session takes: the hub is told, and the record is
/// written, both or neither.
#[derive(Debug)]
pub struct Finish {
    pub hub_call: HubCall,
    pub game: Game,
}

/// Opens a session between two different players. The result names, in
/// order, what has to happen: both consents are checked, the hub accepts
/// the call, and the record is stored.
pub fn start_game(
    session_id: u32,
    player1: Address,
    player2: Address,
    player1_points: i128,
    player2_points: i128,
) -> (opening: Opening)
    requires
        player1@ != player2@,
    ensures
        opening.consent1@ == consent_of(player1@, session_id, player1_points),
        opening.consent2@ == consent_of(player2@, session_id, player2_points),
        opening.hub_call@ == (HubCallView::StartGame {
            session_id,
            player1: player1@,
            player2: player2@,
            player1_points,
            player2_points,
        }),
        opening.game@ == fresh_game(player1@, player2@, player1_points, player2_points),
        opening.game@.wf(),
{
    let consent1 = Consent { who: player1.clone(), session_id, points: player1_points };
    let consent2 = Consent { who: player2.clone(), session_id, points: player2_points };
    let hub_call = HubCall::StartGame {
        session_id,
        player1: player1.clone(),
        player2: player2.clone(),
        player1_points,
        player2_points,
    };
    let game = Game { player1, player2, player1_points, player2_points, winner: None };
    Opening { consent1, consent2, hub_call, game }
}

/// Ends the session that was found under `session_id`, on the word of one
/// of its players. On refusal nothing is written and the hub is not told.
pub fn finish_game(found: Option<Game>, session_id: u32, player: &Address, player1_won: bool) -> (result:
    Result<Finish, Error>)
    ensures
        match finished(opt_game_view(found), player@, player1_won) {
            Ok(game) => result is Ok && result->Ok_0.game@ == game && result->Ok_0.hub_call@ == (
            HubCallView::EndGame { session_id, player1_won }),
            Err(error) => result is Err && result->Err_0 == error,
        },
        found is Some && found->Some_0@.wf() && result is Ok ==> result->Ok_0.game@.wf(),
{
    let mut game = match found {
        Some(game) => game,
        None => { return Err(Error::GameNotFound); },
    };
    if game.winner.is_some() {
        return Err(Error::GameAlreadyEnded);
    }
    if *player != game.player1 && *player != game.player2 {
        return Err(Error::NotPlayer);
    }
    let winner = if player1_won {
        game.player1.clone()
    } else {
        game.player2.clone()
    };
    game.winner = Some(winner);
    Ok(Finish { hub_call: HubCall::EndGame { session_id, player1_won }, game })
}

/// The sessions of the game, its administrator, the hub it reports to, and
/// every call made to that hub so far, oldest first.
pub struct TemplateGameContract {
    admin: Address,
    hub: Address,
    games: SessionStore<Game>,
    hub_calls: Vec<HubCall>,
}

/// The state of the controller with its identities as text.
pub struct ContractView {
    pub admin: Seq<char>,
    pub hub: Seq<char>,
    pub games: Map<u32, GameView>,
    /// For how many ledgers each record is kept at least, counted from
    /// its last write.
    pub retention: Map<u32, u32>,
    /// The retention that every write grants.
    pub retention_floor: u32,
    pub hub_calls: Seq<HubCallView>,
}

/// Whether a call to the hub agrees with the records: an opening names the
/// players and stakes of the session, a completion names its winner.
pub open spec fn agrees(call: HubCallView, games: Map<u32, GameView>) -> bool {
    match call {
        HubCallView::StartGame { session_id, player1, player2, player1_points, player2_points } => {
            &&& games.contains_key(session_id)
            &&& games[session_id].player1 == player1
            &&& games[session_id].player2 == player2
            &&& games[session_id].player1_points == player1_points
            &&& games[session_id].player2_points == player2_points
        },
        HubCallView::EndGame { session_id, player1_won } => {
            &&& games.contains_key(session_id)
            &&& games[session_id].winner == Some(
                if player1_won {
                    games[session_id].player1
                } else {
                    games[session_id].player2
                },
            )
        },
    }
}

impl ContractView {
    /// What holds of every state that the operations can reach. A session
    /// has a winner exactly if the hub was told so, and it was told once;
    /// every session was announced to the hub once; what the hub was told
    /// is what the records say; and every record is kept for the full
    /// retention from its last write.
    pub open spec fn wf(self) -> bool {
        &&& forall|id: u32| #[trigger] self.games.contains_key(id) ==> self.games[id].wf()
        &&& forall|id: u32| #[trigger]
            self.games.contains_key(id) ==> lookup(self.retention, id) == Some(
                self.retention_floor,
            )
        &&& forall|id: u32| #[trigger]
            completions(self.hub_calls, id) == if self.games.contains_key(id)
                && self.games[id].ended() {
                1nat
            } else {
                0nat
            }
        &&& forall|id: u32| #[trigger]
            openings(self.hub_calls, id) == if self.games.contains_key(id) {
                1nat
            } else {
                0nat
            }
        &&& forall|i: int|
            0 <= i < self.hub_calls.len() ==> agrees(#[trigger] self.hub_calls[i], self.games)
    }

    /// The state after a session was opened.
    pub open spec fn started(
        self,
        session_id: u32,
        player1: Seq<char>,
        player2: Seq<char>,
        player1_points: i128,
        player2_points: i128,
    ) -> ContractView {
        ContractView {
            games: self.games.insert(
                session_id,
                fresh_game(player1, player2, player1_points, player2_points),
            ),
            retention: self.retention.insert(session_id, self.retention_floor),
            hub_calls: self.hub_calls.push(
                HubCallView::StartGame {
                    session_id,
                    player1,
                    player2,
                    player1_points,
                    player2_points,
                },
            ),
            ..self
        }
    }

    /// What a player is told who reports the end of a session.
    pub open spec fn finish_result(self, session_id: u32, player: Seq<char>, player1_won: bool) -> Result<
        (),
        Error,
    > {
        match finished(lookup(self.games, session_id), player, player1_won) {
            Ok(_) => Ok(()),
            Err(error) => Err(error),
        }
    }

    /// The state after a player reported the end of a session.
    pub open spec fn finished(self, session_id: u32, player: Seq<char>, player1_won: bool) -> ContractView {
        match finished(lookup(self.games, session_id), player, player1_won) {
            Ok(game) => ContractView {
                games: self.games.insert(session_id, game),
                retention: self.retention.insert(session_id, self.retention_floor),
                hub_calls: self.hub_calls.push(HubCallView::EndGame { session_id, player1_won }),
                ..self
            },
            Err(_) => self,
        }
    }
}

impl View for TemplateGameContract {
    type V = ContractView;

    closed spec fn view(&self) -> ContractView {
        ContractView {
            admin: self.admin@,
            hub: self.hub@,
            games: self.games@,
            retention: self.games.retentions(),
            retention_floor: self.games.floor(),
            hub_calls: calls_view(self.hub_calls@),
        }
    }
}

impl TemplateGameContract {
    /// A controller without sessions, under `admin`, reporting to
    /// `game_hub`.
    pub fn new(admin: Address, game_hub: Address) -> (contract: TemplateGameContract)
        ensures
            contract@ == (ContractView {
                admin: admin@,
                hub: game_hub@,
                games: Map::<u32, GameView>::empty(),
                retention: Map::<u32, u32>::empty(),
                retention_floor: GAME_TTL_LEDGERS,
                hub_calls: Seq::<HubCallView>::empty(),
            }),
            contract@.wf(),
    {
        let contract = TemplateGameContract {
            admin,
            hub: game_hub,
            games: SessionStore::new(),
            hub_calls: Vec::new(),
        };
        assert(calls_view(contract.hub_calls@) =~= Seq::<HubCallView>::empty());
        contract
    }

    /// Whether a session is stored under `session_id`.
    pub fn has_game(&self, session_id: u32) -> (r: bool)
        ensures
            r == self@.games.contains_key(session_id),
    {
        self.games.contains(session_id)
    }

    fn find(&self, session_id: u32) -> (found: Option<Game>)
        ensures
            opt_game_view(found) == lookup(self@.games, session_id),
    {
        match self.games.get(session_id) {
            Some(game) => Some(game.clone()),
            None => None,
        }
    }

    /// The retention that the record of the session `session_id` was
    /// last granted, if there is one.
    pub fn retention_of(&self, session_id: u32) -> (r: Option<u32>)
        ensures
            r == lookup(self@.retention, session_id),
    {
        self.games.retention_of(session_id)
    }

    /// Every call made to the hub so far, oldest first.
    pub fn hub_calls(&self) -> (calls: &Vec<HubCall>)
        ensures
            calls_view(calls@) == self@.hub_calls,
    {
        &self.hub_calls
    }

    /// Opens the session `session_id` between two different players and
    /// announces it to the hub. The identifier must be free.
    pub fn start_game(
        &mut self,
        session_id: u32,
        player1: Address,
        player2: Address,
        player1_points: i128,
        player2_points: i128,
    ) -> (result: Result<(), Error>)
        requires
            player1@ != player2@,
            !old(self)@.games.contains_key(session_id),
        ensures
            result is Ok,
            final(self)@ == old(self)@.started(
                session_id,
                player1@,
                player2@,
                player1_points,
                player2_points,
            ),
            old(self)@.wf() ==> final(self)@.wf(),
    {
        let opening = start_game(session_id, player1, player2, player1_points, player2_points);
        proof {
            if self@.wf() {
                lemma_started_keeps_wf(
                    self@,
                    session_id,
                    player1@,
                    player2@,
                    player1_points,
                    player2_points,
                );
            }
            assert(calls_view(self.hub_calls@.push(opening.hub_call)) =~= calls_view(
                self.hub_calls@,
            ).push(opening.hub_call@));
        }
        self.hub_calls.push(opening.hub_call);
        self.games.put(session_id, opening.game);
        Ok(())
    }

    /// Ends the session `session_id` on the word of `player` and tells the
    /// hub. A refusal leaves everything as it was.
    pub fn finish_game(&mut self, session_id: u32, player: Address, player1_won: bool) -> (result:
        Result<(), Error>)
        ensures
            result == old(self)@.finish_result(session_id, player@, player1_won),
            final(self)@ == old(self)@.finished(session_id, player@, player1_won),
            result is Err ==> final(self)@ == old(self)@,
            old(self)@.wf() ==> final(self)@.wf(),
    {
        proof {
            if self@.wf() {
                lemma_finished_keeps_wf(self@, session_id, player@, player1_won);
            }
        }
        match finish_game(self.find(session_id), session_id, &player, player1_won) {
            Ok(finish) => {
                proof {
                    assert(calls_view(self.hub_calls@.push(finish.hub_call)) =~= calls_view(
                        self.hub_calls@,
                    ).push(finish.hub_call@));
                }
                self.hub_calls.push(finish.hub_call);
                self.games.put(session_id, finish.game);
                Ok(())
            },
            Err(error) => Err(error),
        }
    }

    /// A copy of the record of the session `session_id`.
    pub fn get_game(&self, session_id: u32) -> (result: Result<Game, Error>)
        ensures
            match lookup(self@.games, session_id) {
                Some(game) => result is Ok && result->Ok_0@ == game,
                None => result is Err && result->Err_0 == Error::GameNotFound,
            },
    {
        match self.find(session_id) {
            Some(game) => Ok(game),
            None => Err(Error::GameNotFound),
        }
    }
}

/// Opening a session under a free identifier keeps the book and the
/// records in step.
pub proof fn lemma_started_keeps_wf(
    state: ContractView,
    session_id: u32,
    player1: Seq<char>,
    player2: Seq<char>,
    player1_points: i128,
    player2_points: i128,
)
    requires
        state.wf(),
        player1 != player2,
        !state.games.contains_key(session_id),
    ensures
        state.started(session_id, player1, player2, player1_points, player2_points).wf(),
{
    let after = state.started(session_id, player1, player2, player1_points, player2_points);
    let call = after.hub_calls.last();
    assert forall|id: u32| #[trigger]
        completions(after.hub_calls, id) == if after.games.contains_key(id)
            && after.games[id].ended() {
            1nat
        } else {
            0nat
        } by {
        lemma_completions_push(state.hub_calls, call, id);
        assert(completions(state.hub_calls, id) == if state.games.contains_key(id)
            && state.games[id].ended() {
            1nat
        } else {
            0nat
        });
    }
    assert forall|id: u32| #[trigger]
        openings(after.hub_calls, id) == if after.games.contains_key(id) {
            1nat
        } else {
            0nat
        } by {
        lemma_openings_push(state.hub_calls, call, id);
        assert(openings(state.hub_calls, id) == if state.games.contains_key(id) {
            1nat
        } else {
            0nat
        });
    }
    assert forall|i: int| 0 <= i < after.hub_calls.len() implies agrees(
        #[trigger] after.hub_calls[i],
        after.games,
    ) by {
        if i < state.hub_calls.len() {
            assert(agrees(state.hub_calls[i], state.games));
        }
    }
}

/// The end of a session, reported or refused, keeps the book and the
/// records in step.
pub proof fn lemma_finished_keeps_wf(
    state: ContractView,
    session_id: u32,
    player: Seq<char>,
    player1_won: bool,
)
    requires
        state.wf(),
    ensures
        state.finished(session_id, player, player1_won).wf(),
{
    let after = state.finished(session_id, player, player1_won);
    if finished(lookup(state.games, session_id), player, player1_won) is Ok {
        let call = HubCallView::EndGame { session_id, player1_won };
        assert(state.games.contains_key(session_id));
        assert(state.games[session_id].wf());
        assert(!state.games[session_id].ended());
        assert forall|id: u32| #[trigger]
            completions(after.hub_calls, id) == if after.games.contains_key(id)
                && after.games[id].ended() {
                1nat
            } else {
                0nat
            } by {
            lemma_completions_push(state.hub_calls, call, id);
            assert(completions(state.hub_calls, id) == if state.games.contains_key(id)
                && state.games[id].ended() {
                1nat
            } else {
                0nat
            });
        }
        assert forall|id: u32| #[trigger]
            openings(after.hub_calls, id) == if after.games.contains_key(id) {
                1nat
            } else {
                0nat
            } by {
            lemma_openings_push(state.hub_calls, call, id);
            assert(openings(state.hub_calls, id) == if state.games.contains_key(id) {
                1nat
            } else {
                0nat
            });
        }
        assert forall|i: int| 0 <= i < after.hub_calls.len() implies agrees(
            #[trigger] after.hub_calls[i],
            after.games,
        ) by {
            if i < state.hub_calls.len() {
                assert(agrees(state.hub_calls[i], state.games));
            }
        }
    }
}

/// A session that has ended stays as it is: a second report of its end is
/// refused, whoever makes it and whatever it says, and the hub is not told
/// again.
pub proof fn law_finish_happens_once(
    state: ContractView,
    session_id: u32,
    player: Seq<char>,
    player1_won: bool,
    again: Seq<char>,
    again_won: bool,
)
    requires
        state.wf(),
        state.finish_result(session_id, player, player1_won) is Ok,
    ensures
        ({
            let once = state.finished(session_id, player, player1_won);
            &&& once.finish_result(session_id, again, again_won) == Err::<(), Error>(
                Error::GameAlreadyEnded,
            )
            &&& once.finished(session_id, again, again_won) == once
            &&& completions(once.hub_calls, session_id) == 1
        }),
{
    lemma_finished_keeps_wf(state, session_id, player, player1_won);
    let once = state.finished(session_id, player, player1_won);
    assert(once.games.contains_key(session_id));
    assert(once.games[session_id].ended());
}

} // verus!
