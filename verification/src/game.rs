//! The record kept for one session.

use vstd::prelude::*;
use crate::identity::{clone_opt, opt_view, Address};
use crate::moves::PlayerMove;

verus! {

/// One session between two players.
#[derive(Debug, PartialEq, Eq)]
pub struct Game {
    pub player1: Address,
    pub player2: Address,
    pub player1_points: i128,
    pub player2_points: i128,
    pub player1_move: PlayerMove,
    pub player2_move: PlayerMove,
    pub winner: Option<Address>,
}

/// A session record with its identities as text.
pub struct GameView {
    pub player1: Seq<char>,
    pub player2: Seq<char>,
    pub player1_points: i128,
    pub player2_points: i128,
    pub player1_move: PlayerMove,
    pub player2_move: PlayerMove,
    pub winner: Option<Seq<char>>,
}

impl View for Game {
    type V = GameView;

    open spec fn view(&self) -> GameView {
        GameView {
            player1: self.player1@,
            player2: self.player2@,
            player1_points: self.player1_points,
            player2_points: self.player2_points,
            player1_move: self.player1_move,
            player2_move: self.player2_move,
            winner: opt_view(self.winner),
        }
    }
}

impl GameView {
    /// What every record of a session that was opened here satisfies: two
    /// different players, and a winner, if there is one, among them.
    pub open spec fn wf(self) -> bool {
        &&& self.player1 != self.player2
        &&& self.winner matches Some(w) ==> w == self.player1 || w == self.player2
    }

    /// Whether the session has come to its end.
    pub open spec fn ended(self) -> bool {
        self.winner is Some
    }

    /// Whether `who` holds one of the two seats.
    pub open spec fn seats(self, who: Seq<char>) -> bool {
        who == self.player1 || who == self.player2
    }

    /// Whether both moves of the round are on the table.
    pub open spec fn both_moved(self) -> bool {
        self.player1_move.is_set() && self.player2_move.is_set()
    }

    /// The move that `who` has on the table; `Unset` for a stranger.
    pub open spec fn move_of(self, who: Seq<char>) -> PlayerMove {
        if who == self.player1 {
            self.player1_move
        } else if who == self.player2 {
            self.player2_move
        } else {
            PlayerMove::Unset
        }
    }
}

impl Clone for Game {
    fn clone(&self) -> (r: Game)
        ensures
            r@ == self@,
    {
        Game {
            player1: self.player1.clone(),
            player2: self.player2.clone(),
            player1_points: self.player1_points,
            player2_points: self.player2_points,
            player1_move: self.player1_move,
            player2_move: self.player2_move,
            winner: clone_opt(&self.winner),
        }
    }
}

/// The record of a session that has just been opened.
pub open spec fn fresh_game(
    player1: Seq<char>,
    player2: Seq<char>,
    player1_points: i128,
    player2_points: i128,
) -> GameView {
    GameView {
        player1,
        player2,
        player1_points,
        player2_points,
        player1_move: PlayerMove::Unset,
        player2_move: PlayerMove::Unset,
        winner: None,
    }
}

impl Game {
    /// The record of a session that has just been opened: no move on the
    /// table, no winner. Nobody plays against themselves.
    pub fn new(player1: Address, player2: Address, player1_points: i128, player2_points: i128) -> (game:
        Game)
        requires
            player1@ != player2@,
        ensures
            game@ == fresh_game(player1@, player2@, player1_points, player2_points),
            game@.wf(),
    {
        Game {
            player1,
            player2,
            player1_points,
            player2_points,
            player1_move: PlayerMove::Unset,
            player2_move: PlayerMove::Unset,
            winner: None,
        }
    }

    /// Whether the session has come to its end.
    pub fn has_ended(&self) -> (r: bool)
        ensures
            r == self@.ended(),
    {
        self.winner.is_some()
    }

    /// Whether `who` holds one of the two seats.
    pub fn is_player(&self, who: &Address) -> (r: bool)
        ensures
            r == self@.seats(who@),
    {
        *who == self.player1 || *who == self.player2
    }
}

} // verus!
