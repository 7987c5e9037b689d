//! What a session owes the outside world: the consent of its players and
//! the calls to the hub that holds their stakes.

use vstd::prelude::*;
use crate::identity::Address;

verus! {

/// A call that the hub is owed.
#[derive(Debug, PartialEq, Eq)]
pub enum HubCall {
    /// A session opens between two players, each with points at stake.
    StartGame {
        session_id: u32,
        player1: Address,
        player2: Address,
        player1_points: i128,
        player2_points: i128,
    },
    /// A session is over, won by one seat or the other.
    EndGame { session_id: u32, player1_won: bool },
}

/// A hub call with its identities as text.
pub enum HubCallView {
    StartGame {
        session_id: u32,
        player1: Seq<char>,
        player2: Seq<char>,
        player1_points: i128,
        player2_points: i128,
    },
    EndGame { session_id: u32, player1_won: bool },
}

impl View for HubCall {
    type V = HubCallView;

    open spec fn view(&self) -> HubCallView {
        match *self {
            HubCall::StartGame { session_id, player1, player2, player1_points, player2_points } => {
                HubCallView::StartGame {
                    session_id,
                    player1: player1@,
                    player2: player2@,
                    player1_points,
                    player2_points,
                }
            },
            HubCall::EndGame { session_id, player1_won } => HubCallView::EndGame {
                session_id,
                player1_won,
            },
        }
    }
}

impl HubCallView {
    /// Whether this call closes the session `session_id`.
    pub open spec fn ends(self, session_id: u32) -> bool {
        self matches HubCallView::EndGame { session_id: id, .. } && id == session_id
    }

    /// Whether this call opens the session `session_id`.
    pub open spec fn starts(self, session_id: u32) -> bool {
        self matches HubCallView::StartGame { session_id: id, .. } && id == session_id
    }
}

/// What one player must have agreed to before a session opens: this
/// session, with this many of its own points at stake, and nothing else.
#[derive(Debug, PartialEq, Eq)]
pub struct Consent {
    pub who: Address,
    pub session_id: u32,
    pub points: i128,
}

/// A consent with its identity as text.
pub struct ConsentView {
    pub who: Seq<char>,
    pub session_id: u32,
    pub points: i128,
}

impl View for Consent {
    type V = ConsentView;

    open spec fn view(&self) -> ConsentView {
        ConsentView { who: self.who@, session_id: self.session_id, points: self.points }
    }
}

} // verus!
