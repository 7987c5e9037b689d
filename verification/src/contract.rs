//! The controller of all sessions: it keeps the records, lets the players
//! act on them in the order the rules allow, and keeps the book of what
//! the hub was told.
//!
//! Consent is not decided here. Whoever calls an operation has made sure
//! that the acting identity agreed to it.

use vstd::prelude::*;
use crate::error::Error;
use crate::game::{fresh_game, Game, GameView};
use crate::hub::{HubCall, HubCallView};
use crate::identity::Address;
use crate::moves::PlayerMove;
use crate::session;
use crate::session::{opt_game_view, Reveal, RevealView};
use crate::store::{lookup, SessionStore, GAME_TTL_LEDGERS};

verus! {

/// The sessions of one game, its administrator, the hub it reports to, and
/// every call made to that hub so far, oldest first.
pub struct RpsContract {
    admin: Address,
    hub: Address,
    games: SessionStore<Game>,
    hub_calls: Vec<HubCall>,
}

/// The state of the controller with its identities as text.
pub struct ContractView {
    pub admin: Seq<char>,
    pub hub: Seq<char>,
    pub games: Map<u32, GameView>,
    /// For how many ledgers each record is kept at least, counted from
    /// its last write.
    pub retention: Map<u32, u32>,
    /// The retention that every write grants.
    pub retention_floor: u32,
    pub hub_calls: Seq<HubCallView>,
}

/// How often the hub was told that the session `session_id` is over.
pub open spec fn completions(calls: Seq<HubCallView>, session_id: u32) -> nat
    decreases calls.len(),
{
    if calls.len() == 0 {
        0
    } else {
        completions(calls.drop_last(), session_id) + if calls.last().ends(session_id) {
            1nat
        } else {
            0nat
        }
    }
}

/// How often the hub was told that the session `session_id` opens.
pub open spec fn openings(calls: Seq<HubCallView>, session_id: u32) -> nat
    decreases calls.len(),
{
    if calls.len() == 0 {
        0
    } else {
        openings(calls.drop_last(), session_id) + if calls.last().starts(session_id) {
            1nat
        } else {
            0nat
        }
    }
}

/// Whether a call to the hub agrees with the records: an opening names the
/// players and stakes of the session, a completion names its winner.
pub open spec fn agrees(call: HubCallView, games: Map<u32, GameView>) -> bool {
    match call {
        HubCallView::StartGame { session_id, player1, player2, player1_points, player2_points } => {
            &&& games.contains_key(session_id)
            &&& games[session_id].player1 == player1
            &&& games[session_id].player2 == player2
            &&& games[session_id].player1_points == player1_points
            &&& games[session_id].player2_points == player2_points
        },
        HubCallView::EndGame { session_id, player1_won } => {
            &&& games.contains_key(session_id)
            &&& games[session_id].winner == Some(
                if player1_won {
                    games[session_id].player1
                } else {
                    games[session_id].player2
                },
            )
        },
    }
}

impl ContractView {
    /// What holds of every state that the operations can reach. A session
    /// has a winner exactly if the hub was told so, and it was told once;
    /// every session was announced to the hub once; what the hub was told
    /// is what the records say; and every record is kept for the full
    /// retention from its last write.
    pub open spec fn wf(self) -> bool {
        &&& forall|id: u32| #[trigger] self.games.contains_key(id) ==> self.games[id].wf()
        &&& forall|id: u32| #[trigger]
            self.games.contains_key(id) ==> lookup(self.retention, id) == Some(
                self.retention_floor,
            )
        &&& forall|id: u32| #[trigger]
            completions(self.hub_calls, id) == if self.games.contains_key(id)
                && self.games[id].ended() {
                1nat
            } else {
                0nat
            }
        &&& forall|id: u32| #[trigger]
            openings(self.hub_calls, id) == if self.games.contains_key(id) {
                1nat
            } else {
                0nat
            }
        &&& forall|i: int|
            0 <= i < self.hub_calls.len() ==> agrees(#[trigger] self.hub_calls[i], self.games)
    }

    /// The state after a session was opened.
    pub open spec fn started(
        self,
        session_id: u32,
        player1: Seq<char>,
        player2: Seq<char>,
        player1_points: i128,
        player2_points: i128,
    ) -> ContractView {
        ContractView {
            games: self.games.insert(
                session_id,
                fresh_game(player1, player2, player1_points, player2_points),
            ),
            retention: self.retention.insert(session_id, self.retention_floor),
            hub_calls: self.hub_calls.push(
                HubCallView::StartGame {
                    session_id,
                    player1,
                    player2,
                    player1_points,
                    player2_points,
                },
            ),
            ..self
        }
    }

    /// What a player is told who puts a move down.
    pub open spec fn submit_result(self, session_id: u32, player: Seq<char>, game_move: PlayerMove) -> Result<
        (),
        Error,
    > {
        match session::submitted(lookup(self.games, session_id), player, game_move) {
            Ok(_) => Ok(()),
            Err(error) => Err(error),
        }
    }

    /// The state after a player tried to put a move down.
    pub open spec fn submitted(self, session_id: u32, player: Seq<char>, game_move: PlayerMove) -> ContractView {
        match session::submitted(lookup(self.games, session_id), player, game_move) {
            Ok(game) => ContractView {
                games: self.games.insert(session_id, game),
                retention: self.retention.insert(session_id, self.retention_floor),
                ..self
            },
            Err(_) => self,
        }
    }

    /// What a reveal hands back: the winner, or nobody after a tie.
    pub open spec fn reveal_result(self, session_id: u32) -> Result<Option<Seq<char>>, Error> {
        match session::revealed(lookup(self.games, session_id), session_id) {
            Ok(found) => Ok(found.winner()),
            Err(error) => Err(error),
        }
    }

    /// The state after a reveal.
    pub open spec fn revealed(self, session_id: u32) -> ContractView {
        match session::revealed(lookup(self.games, session_id), session_id) {
            Ok(RevealView::Settled { .. }) => self,
            Ok(RevealView::Tied { game }) => ContractView {
                games: self.games.insert(session_id, game),
                retention: self.retention.insert(session_id, self.retention_floor),
                ..self
            },
            Ok(RevealView::Decided { game, hub_call, .. }) => ContractView {
                games: self.games.insert(session_id, game),
                retention: self.retention.insert(session_id, self.retention_floor),
                hub_calls: self.hub_calls.push(hub_call),
                ..self
            },
            Err(_) => self,
        }
    }
}

/// The calls of a book with their identities as text.
pub open spec fn calls_view(calls: Seq<HubCall>) -> Seq<HubCallView> {
    calls.map_values(|call: HubCall| call@)
}

impl View for RpsContract {
    type V = ContractView;

    closed spec fn view(&self) -> ContractView {
        ContractView {
            admin: self.admin@,
            hub: self.hub@,
            games: self.games@,
            retention: self.games.retentions(),
            retention_floor: self.games.floor(),
            hub_calls: calls_view(self.hub_calls@),
        }
    }
}

/// One more call adds one to the count of completions if it is one for the
/// session, and nothing otherwise.
pub proof fn lemma_completions_push(calls: Seq<HubCallView>, call: HubCallView, session_id: u32)
    ensures
        completions(calls.push(call), session_id) == completions(calls, session_id) + if call.ends(
            session_id,
        ) {
            1nat
        } else {
            0nat
        },
{
    assert(calls.push(call).drop_last() =~= calls);
}

/// One more call adds one to the count of openings if it is one for the
/// session, and nothing otherwise.
pub proof fn lemma_openings_push(calls: Seq<HubCallView>, call: HubCallView, session_id: u32)
    ensures
        openings(calls.push(call), session_id) == openings(calls, session_id) + if call.starts(
            session_id,
        ) {
            1nat
        } else {
            0nat
        },
{
    assert(calls.push(call).drop_last() =~= calls);
}

impl RpsContract {
    /// A controller without sessions, under `admin`, reporting to
    /// `game_hub`.
    pub fn new(admin: Address, game_hub: Address) -> (contract: RpsContract)
        ensures
            contract@ == (ContractView {
                admin: admin@,
                hub: game_hub@,
                games: Map::<u32, GameView>::empty(),
                retention: Map::<u32, u32>::empty(),
                retention_floor: GAME_TTL_LEDGERS,
                hub_calls: Seq::<HubCallView>::empty(),
            }),
            contract@.wf(),
    {
        let contract = RpsContract {
            admin,
            hub: game_hub,
            games: SessionStore::new(),
            hub_calls: Vec::new(),
        };
        assert(calls_view(contract.hub_calls@) =~= Seq::<HubCallView>::empty());
        contract
    }

    /// The administrator.
    pub fn get_admin(&self) -> (admin: Address)
        ensures
            admin@ == self@.admin,
    {
        self.admin.clone()
    }

    /// Hands the administration over to `new_admin`. Sessions and the
    /// book of hub calls stay as they are.
    pub fn set_admin(&mut self, new_admin: Address)
        ensures
            final(self)@ == (ContractView { admin: new_admin@, ..old(self)@ }),
    {
        self.admin = new_admin;
    }

    /// The hub that the controller reports to.
    pub fn get_hub(&self) -> (hub: Address)
        ensures
            hub@ == self@.hub,
    {
        self.hub.clone()
    }

    /// Makes the controller report to `new_hub` from now on. Sessions and
    /// the book of hub calls stay as they are.
    pub fn set_hub(&mut self, new_hub: Address)
        ensures
            final(self)@ == (ContractView { hub: new_hub@, ..old(self)@ }),
    {
        self.hub = new_hub;
    }

    fn find(&self, session_id: u32) -> (found: Option<Game>)
        ensures
            opt_game_view(found) == lookup(self@.games, session_id),
    {
        match self.games.get(session_id) {
            Some(game) => Some(game.clone()),
            None => None,
        }
    }

    /// The retention that the record of the session `session_id` was
    /// last granted, if there is one.
    pub fn retention_of(&self, session_id: u32) -> (r: Option<u32>)
        ensures
            r == lookup(self@.retention, session_id),
    {
        self.games.retention_of(session_id)
    }

    /// Whether a session is stored under `session_id`.
    pub fn has_game(&self, session_id: u32) -> (r: bool)
        ensures
            r == self@.games.contains_key(session_id),
    {
        self.games.contains(session_id)
    }

    /// Every call made to the hub so far, oldest first.
    pub fn hub_calls(&self) -> (calls: &Vec<HubCall>)
        ensures
            calls_view(calls@) == self@.hub_calls,
    {
        &self.hub_calls
    }

    /// Opens the session `session_id` between two different players and
    /// announces it to the hub. The identifier must be free.
    pub fn start_game(
        &mut self,
        session_id: u32,
        player1: Address,
        player2: Address,
        player1_points: i128,
        player2_points: i128,
    ) -> (result: Result<(), Error>)
        requires
            player1@ != player2@,
            !old(self)@.games.contains_key(session_id),
        ensures
            result is Ok,
            final(self)@ == old(self)@.started(
                session_id,
                player1@,
                player2@,
                player1_points,
                player2_points,
            ),
            old(self)@.wf() ==> final(self)@.wf(),
    {
        let opening = session::start_game(
            session_id,
            player1,
            player2,
            player1_points,
            player2_points,
        );
        proof {
            if self@.wf() {
                lemma_started_keeps_wf(
                    self@,
                    session_id,
                    player1@,
                    player2@,
                    player1_points,
                    player2_points,
                );
            }
            assert(calls_view(self.hub_calls@.push(opening.hub_call)) =~= calls_view(
                self.hub_calls@,
            ).push(opening.hub_call@));
        }
        self.hub_calls.push(opening.hub_call);
        self.games.put(session_id, opening.game);
        Ok(())
    }

    /// Puts `game_move` down for `player` in the session `session_id`.
    /// A refusal leaves everything as it was.
    pub fn submit_move(&mut self, session_id: u32, player: Address, game_move: PlayerMove) -> (result:
        Result<(), Error>)
        ensures
            result == old(self)@.submit_result(session_id, player@, game_move),
            final(self)@ == old(self)@.submitted(session_id, player@, game_move),
            result is Err ==> final(self)@ == old(self)@,
            old(self)@.wf() ==> final(self)@.wf(),
    {
        proof {
            if self@.wf() {
                lemma_submitted_keeps_wf(self@, session_id, player@, game_move);
            }
        }
        match session::submit_move(self.find(session_id), &player, game_move) {
            Ok(game) => {
                self.games.put(session_id, game);
                Ok(())
            },
            Err(error) => Err(error),
        }
    }

    /// Settles the round of the session `session_id` if both moves are on
    /// the table, and tells the hub if that ends the session. A session
    /// that has ended answers with its winner and tells the hub nothing.
    pub fn reveal_winner(&mut self, session_id: u32) -> (result: Result<Option<Address>, Error>)
        ensures
            match old(self)@.reveal_result(session_id) {
                Ok(winner) => result is Ok && crate::identity::opt_view(result->Ok_0) == winner,
                Err(error) => result is Err && result->Err_0 == error,
            },
            final(self)@ == old(self)@.revealed(session_id),
            result is Err ==> final(self)@ == old(self)@,
            old(self)@.wf() ==> final(self)@.wf(),
    {
        proof {
            if self@.wf() {
                lemma_revealed_keeps_wf(self@, session_id);
            }
        }
        match session::reveal_winner(self.find(session_id), session_id) {
            Ok(Reveal::Settled { winner }) => Ok(Some(winner)),
            Ok(Reveal::Tied { game }) => {
                self.games.put(session_id, game);
                Ok(None)
            },
            Ok(Reveal::Decided { game, winner, hub_call }) => {
                proof {
                    assert(calls_view(self.hub_calls@.push(hub_call)) =~= calls_view(
                        self.hub_calls@,
                    ).push(hub_call@));
                }
                self.games.put(session_id, game);
                self.hub_calls.push(hub_call);
                Ok(Some(winner))
            },
            Err(error) => Err(error),
        }
    }

    /// A copy of the record of the session `session_id`.
    pub fn get_game(&self, session_id: u32) -> (result: Result<Game, Error>)
        ensures
            match lookup(self@.games, session_id) {
                Some(game) => result is Ok && result->Ok_0@ == game,
                None => result is Err && result->Err_0 == Error::GameNotFound,
            },
    {
        match self.find(session_id) {
            Some(game) => Ok(game),
            None => Err(Error::GameNotFound),
        }
    }
}

/// Opening a session under a free identifier keeps the book and the
/// records in step.
pub proof fn lemma_started_keeps_wf(
    state: ContractView,
    session_id: u32,
    player1: Seq<char>,
    player2: Seq<char>,
    player1_points: i128,
    player2_points: i128,
)
    requires
        state.wf(),
        player1 != player2,
        !state.games.contains_key(session_id),
    ensures
        state.started(session_id, player1, player2, player1_points, player2_points).wf(),
{
    let after = state.started(session_id, player1, player2, player1_points, player2_points);
    let call = after.hub_calls.last();
    assert forall|id: u32| #[trigger]
        completions(after.hub_calls, id) == if after.games.contains_key(id)
            && after.games[id].ended() {
            1nat
        } else {
            0nat
        } by {
        lemma_completions_push(state.hub_calls, call, id);
        assert(completions(state.hub_calls, id) == if state.games.contains_key(id)
            && state.games[id].ended() {
            1nat
        } else {
            0nat
        });
    }
    assert forall|id: u32| #[trigger]
        openings(after.hub_calls, id) == if after.games.contains_key(id) {
            1nat
        } else {
            0nat
        } by {
        lemma_openings_push(state.hub_calls, call, id);
        assert(openings(state.hub_calls, id) == if state.games.contains_key(id) {
            1nat
        } else {
            0nat
        });
    }
    assert forall|i: int| 0 <= i < after.hub_calls.len() implies agrees(
        #[trigger] after.hub_calls[i],
        after.games,
    ) by {
        if i < state.hub_calls.len() {
            assert(agrees(state.hub_calls[i], state.games));
        }
    }
}

/// A move put down, or refused, keeps the book and the records in step.
pub proof fn lemma_submitted_keeps_wf(
    state: ContractView,
    session_id: u32,
    player: Seq<char>,
    game_move: PlayerMove,
)
    requires
        state.wf(),
    ensures
        state.submitted(session_id, player, game_move).wf(),
{
    let after = state.submitted(session_id, player, game_move);
    if session::submitted(lookup(state.games, session_id), player, game_move) is Ok {
        assert(state.games.contains_key(session_id));
        assert(state.games[session_id].wf());
        assert(!state.games[session_id].ended());
        assert forall|id: u32| #[trigger]
            completions(after.hub_calls, id) == if after.games.contains_key(id)
                && after.games[id].ended() {
                1nat
            } else {
                0nat
            } by {
            assert(completions(state.hub_calls, id) == if state.games.contains_key(id)
                && state.games[id].ended() {
                1nat
            } else {
                0nat
            });
        }
        assert forall|id: u32| #[trigger]
            openings(after.hub_calls, id) == if after.games.contains_key(id) {
                1nat
            } else {
                0nat
            } by {
            assert(openings(state.hub_calls, id) == if state.games.contains_key(id) {
                1nat
            } else {
                0nat
            });
        }
        assert forall|i: int| 0 <= i < after.hub_calls.len() implies agrees(
            #[trigger] after.hub_calls[i],
            after.games,
        ) by {
            assert(agrees(state.hub_calls[i], state.games));
        }
    }
}

/// A reveal, whatever it finds, keeps the book and the records in step.
pub proof fn lemma_revealed_keeps_wf(state: ContractView, session_id: u32)
    requires
        state.wf(),
    ensures
        state.revealed(session_id).wf(),
{
    let after = state.revealed(session_id);
    match session::revealed(lookup(state.games, session_id), session_id) {
        Ok(RevealView::Settled { .. }) => {},
        Err(_) => {},
        Ok(RevealView::Tied { game }) => {
            assert(state.games.contains_key(session_id));
            assert(state.games[session_id].wf());
            assert forall|id: u32| #[trigger]
                completions(after.hub_calls, id) == if after.games.contains_key(id)
                    && after.games[id].ended() {
                    1nat
                } else {
                    0nat
                } by {
                assert(completions(state.hub_calls, id) == if state.games.contains_key(id)
                    && state.games[id].ended() {
                    1nat
                } else {
                    0nat
                });
            }
            assert forall|id: u32| #[trigger]
                openings(after.hub_calls, id) == if after.games.contains_key(id) {
                    1nat
                } else {
                    0nat
                } by {
                assert(openings(state.hub_calls, id) == if state.games.contains_key(id) {
                    1nat
                } else {
                    0nat
                });
            }
            assert forall|i: int| 0 <= i < after.hub_calls.len() implies agrees(
                #[trigger] after.hub_calls[i],
                after.games,
            ) by {
                assert(agrees(state.hub_calls[i], state.games));
            }
        },
        Ok(RevealView::Decided { game, hub_call, .. }) => {
            let call = hub_call;
            assert(state.games.contains_key(session_id));
            assert(state.games[session_id].wf());
            assert(!state.games[session_id].ended());
            assert forall|id: u32| #[trigger]
                completions(after.hub_calls, id) == if after.games.contains_key(id)
                    && after.games[id].ended() {
                    1nat
                } else {
                    0nat
                } by {
                lemma_completions_push(state.hub_calls, call, id);
                assert(completions(state.hub_calls, id) == if state.games.contains_key(id)
                    && state.games[id].ended() {
                    1nat
                } else {
                    0nat
                });
            }
            assert forall|id: u32| #[trigger]
                openings(after.hub_calls, id) == if after.games.contains_key(id) {
                    1nat
                } else {
                    0nat
                } by {
                lemma_openings_push(state.hub_calls, call, id);
                assert(openings(state.hub_calls, id) == if state.games.contains_key(id) {
                    1nat
                } else {
                    0nat
                });
            }
            assert forall|i: int| 0 <= i < after.hub_calls.len() implies agrees(
                #[trigger] after.hub_calls[i],
                after.games,
            ) by {
                if i < state.hub_calls.len() {
                    assert(agrees(state.hub_calls[i], state.games));
                }
            }
        },
    }
}

} // verus!
