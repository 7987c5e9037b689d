//! What holds of the controller whatever state it is in.

use vstd::prelude::*;
use crate::contract::{completions, lemma_revealed_keeps_wf, openings, ContractView};
use crate::error::Error;
use crate::game::fresh_game;
use crate::moves::{beats, PlayerMove};
use crate::store::lookup;

verus! {

/// A session that has just been opened is found under its identifier with
/// no move on the table and no winner.
pub proof fn law_started_session_is_fresh(
    state: ContractView,
    session_id: u32,
    player1: Seq<char>,
    player2: Seq<char>,
    player1_points: i128,
    player2_points: i128,
)
    ensures
        lookup(
            state.started(session_id, player1, player2, player1_points, player2_points).games,
            session_id,
        ) == Some(fresh_game(player1, player2, player1_points, player2_points)),
        fresh_game(player1, player2, player1_points, player2_points).player1_move
            == PlayerMove::Unset,
        fresh_game(player1, player2, player1_points, player2_points).player2_move
            == PlayerMove::Unset,
        fresh_game(player1, player2, player1_points, player2_points).winner is None,
{
}

/// In every state that the operations can reach, a session has a winner
/// exactly if the hub was told that it is over, the hub is never told
/// twice, and every session on record was announced to it once.
pub proof fn law_completion_latch(state: ContractView, session_id: u32)
    requires
        state.wf(),
    ensures
        completions(state.hub_calls, session_id) <= 1,
        completions(state.hub_calls, session_id) == 1 <==> state.games.contains_key(session_id)
            && state.games[session_id].ended(),
        openings(state.hub_calls, session_id) == 1 <==> state.games.contains_key(session_id),
        state.games.contains_key(session_id) ==> state.games[session_id].wf(),
{
}

/// In every state that the operations can reach, each record on file is
/// kept for the full retention, counted from its last write.
pub proof fn law_records_are_retained(state: ContractView, session_id: u32)
    requires
        state.wf(),
        state.games.contains_key(session_id),
    ensures
        lookup(state.retention, session_id) == Some(state.retention_floor),
{
}

/// A write renews the retention of the record it writes and of no other:
/// a move that is accepted, a reveal that changes the record, and an
/// opening each leave the retention of every other session as it was.
pub proof fn law_writes_renew_retention(
    state: ContractView,
    session_id: u32,
    other: u32,
    player: Seq<char>,
    game_move: PlayerMove,
)
    requires
        session_id != other,
    ensures
        state.submit_result(session_id, player, game_move) is Ok ==> lookup(
            state.submitted(session_id, player, game_move).retention,
            session_id,
        ) == Some(state.retention_floor),
        state.revealed(session_id).games != state.games ==> lookup(
            state.revealed(session_id).retention,
            session_id,
        ) == Some(state.retention_floor),
        lookup(state.submitted(session_id, player, game_move).retention, other) == lookup(
            state.retention,
            other,
        ),
        lookup(state.revealed(session_id).retention, other) == lookup(state.retention, other),
{
}

/// Once a reveal has named a winner, every further reveal names the same
/// winner, changes nothing, and the hub has been told once and is not told
/// again.
pub proof fn law_reveal_is_idempotent(state: ContractView, session_id: u32)
    requires
        state.wf(),
        state.reveal_result(session_id) is Ok,
        state.reveal_result(session_id)->Ok_0 is Some,
    ensures
        state.revealed(session_id).reveal_result(session_id) == state.reveal_result(session_id),
        state.revealed(session_id).revealed(session_id) == state.revealed(session_id),
        completions(state.revealed(session_id).hub_calls, session_id) == 1,
        completions(state.revealed(session_id).revealed(session_id).hub_calls, session_id) == 1,
{
    lemma_revealed_keeps_wf(state, session_id);
    let once = state.revealed(session_id);
    assert(once.games.contains_key(session_id));
    assert(once.games[session_id].ended());
}

/// A round of equal moves names no winner and leaves the session open:
/// both players can put down new moves, and if those differ, the next
/// reveal names the player whose move beats the other. No step on the way
/// is refused.
pub proof fn law_tie_then_decision(
    state: ContractView,
    session_id: u32,
    tie_move: PlayerMove,
    move1: PlayerMove,
    move2: PlayerMove,
)
    requires
        state.games.contains_key(session_id),
        state.games[session_id].wf(),
        !state.games[session_id].ended(),
        !state.games[session_id].player1_move.is_set(),
        !state.games[session_id].player2_move.is_set(),
        tie_move.is_set(),
        move1.is_set(),
        move2.is_set(),
        move1 != move2,
    ensures
        ({
            let player1 = state.games[session_id].player1;
            let player2 = state.games[session_id].player2;
            let first = state.submitted(session_id, player1, tie_move);
            let second = first.submitted(session_id, player2, tie_move);
            let again = second.revealed(session_id);
            let third = again.submitted(session_id, player1, move1);
            let fourth = third.submitted(session_id, player2, move2);
            &&& state.submit_result(session_id, player1, tie_move) is Ok
            &&& first.submit_result(session_id, player2, tie_move) is Ok
            &&& second.reveal_result(session_id) == Ok::<Option<Seq<char>>, Error>(None)
            &&& again.hub_calls == state.hub_calls
            &&& again.games[session_id] == state.games[session_id]
            &&& again.submit_result(session_id, player1, move1) is Ok
            &&& third.submit_result(session_id, player2, move2) is Ok
            &&& fourth.reveal_result(session_id) == Ok::<Option<Seq<char>>, Error>(
                Some(
                    if beats(move1, move2) {
                        player1
                    } else {
                        player2
                    },
                ),
            )
        }),
{
}

/// An identity that holds no seat of an open session cannot put a move
/// down in it: the attempt is refused as coming from no player, and
/// nothing changes.
pub proof fn law_stranger_is_refused(
    state: ContractView,
    session_id: u32,
    stranger: Seq<char>,
    game_move: PlayerMove,
)
    requires
        state.games.contains_key(session_id),
        !state.games[session_id].ended(),
        !state.games[session_id].seats(stranger),
    ensures
        state.submit_result(session_id, stranger, game_move) == Err::<(), Error>(Error::NotPlayer),
        state.submitted(session_id, stranger, game_move) == state,
{
}

/// A player of an open session whose move is on the table cannot put
/// another one down, whether or not the other player has moved: the
/// attempt is refused, and the first move stands.
pub proof fn law_second_move_is_refused(
    state: ContractView,
    session_id: u32,
    player: Seq<char>,
    game_move: PlayerMove,
)
    requires
        state.games.contains_key(session_id),
        !state.games[session_id].ended(),
        state.games[session_id].seats(player),
        state.games[session_id].move_of(player).is_set(),
    ensures
        state.submit_result(session_id, player, game_move) == Err::<(), Error>(
            Error::AlreadyMoved,
        ),
        state.submitted(session_id, player, game_move) == state,
        state.submitted(session_id, player, game_move).games[session_id].move_of(player)
            == state.games[session_id].move_of(player),
{
}

/// Once a session has a winner, nobody can put a move down in it.
pub proof fn law_ended_session_takes_no_move(
    state: ContractView,
    session_id: u32,
    player: Seq<char>,
    game_move: PlayerMove,
)
    requires
        state.games.contains_key(session_id),
        state.games[session_id].ended(),
    ensures
        state.submit_result(session_id, player, game_move) == Err::<(), Error>(
            Error::GameAlreadyEnded,
        ),
        state.submitted(session_id, player, game_move) == state,
{
}

/// What happens in one session is not seen in another: a move, a reveal
/// or an opening under one identifier leaves the record under every other
/// identifier as it was, and with it what a move or a reveal there is
/// answered, and how often the hub was told that it is over.
pub proof fn law_sessions_are_independent(
    state: ContractView,
    session_id: u32,
    other: u32,
    player: Seq<char>,
    game_move: PlayerMove,
    player1: Seq<char>,
    player2: Seq<char>,
    player1_points: i128,
    player2_points: i128,
    other_player: Seq<char>,
    other_move: PlayerMove,
)
    requires
        session_id != other,
    ensures
        ({
            let moved = state.submitted(session_id, player, game_move);
            let shown = state.revealed(session_id);
            let opened = state.started(
                session_id,
                player1,
                player2,
                player1_points,
                player2_points,
            );
            &&& lookup(moved.games, other) == lookup(state.games, other)
            &&& lookup(shown.games, other) == lookup(state.games, other)
            &&& lookup(opened.games, other) == lookup(state.games, other)
            &&& moved.submit_result(other, other_player, other_move) == state.submit_result(
                other,
                other_player,
                other_move,
            )
            &&& shown.submit_result(other, other_player, other_move) == state.submit_result(
                other,
                other_player,
                other_move,
            )
            &&& opened.submit_result(other, other_player, other_move) == state.submit_result(
                other,
                other_player,
                other_move,
            )
            &&& moved.reveal_result(other) == state.reveal_result(other)
            &&& shown.reveal_result(other) == state.reveal_result(other)
            &&& opened.reveal_result(other) == state.reveal_result(other)
            &&& completions(moved.hub_calls, other) == completions(state.hub_calls, other)
            &&& completions(shown.hub_calls, other) == completions(state.hub_calls, other)
            &&& completions(opened.hub_calls, other) == completions(state.hub_calls, other)
        }),
{
    let shown = state.revealed(session_id);
    if shown.hub_calls != state.hub_calls {
        crate::contract::lemma_completions_push(state.hub_calls, shown.hub_calls.last(), other);
        assert(shown.hub_calls.drop_last() =~= state.hub_calls);
    }
    let opened = state.started(session_id, player1, player2, player1_points, player2_points);
    crate::contract::lemma_completions_push(state.hub_calls, opened.hub_calls.last(), other);
}

} // verus!
