//! The moves of the game and the rule that decides a round.

use vstd::prelude::*;

verus! {

/// What a player has put down in the current round. `Unset` is the only
/// value a round starts with.
#[derive(Clone, Copy, Debug, PartialEq, Eq, Structural)]
pub enum PlayerMove {
    Unset,
    Rock,
    Paper,
    Scissors,
}

/// One of the two places at the table.
#[derive(Clone, Copy, Debug, PartialEq, Eq, Structural)]
pub enum Seat {
    Player1,
    Player2,
}

/// How a round with both moves on the table ends.
#[derive(Clone, Copy, Debug, PartialEq, Eq, Structural)]
pub enum Outcome {
    Tie,
    Decisive(Seat),
}

impl PlayerMove {
    /// Whether a move has been put down.
    pub open spec fn is_set(self) -> bool {
        self != PlayerMove::Unset
    }

    /// Whether a move has been put down.
    pub fn has_moved(&self) -> (r: bool)
        ensures
            r == self.is_set(),
    {
        match self {
            PlayerMove::Unset => false,
            _ => true,
        }
    }
}

/// The dominance cycle: rock blunts scissors, scissors cut paper, paper
/// wraps rock. Nothing else beats anything.
pub open spec fn beats(a: PlayerMove, b: PlayerMove) -> bool {
    ||| a == PlayerMove::Rock && b == PlayerMove::Scissors
    ||| a == PlayerMove::Scissors && b == PlayerMove::Paper
    ||| a == PlayerMove::Paper && b == PlayerMove::Rock
}

/// The outcome of a round in which player 1 put down `a` and player 2 `b`.
/// Equal moves tie; no seat is favoured.
pub open spec fn outcome_of(a: PlayerMove, b: PlayerMove) -> Outcome {
    if a == b {
        Outcome::Tie
    } else if beats(a, b) {
        Outcome::Decisive(Seat::Player1)
    } else {
        Outcome::Decisive(Seat::Player2)
    }
}

/// Decides a round. Both moves must be on the table.
pub fn resolve(move_a: PlayerMove, move_b: PlayerMove) -> (outcome: Outcome)
    requires
        move_a.is_set(),
        move_b.is_set(),
    ensures
        outcome == outcome_of(move_a, move_b),
        outcome == Outcome::Tie <==> move_a == move_b,
        outcome == Outcome::Decisive(Seat::Player1) <==> beats(move_a, move_b),
        outcome == Outcome::Decisive(Seat::Player2) <==> beats(move_b, move_a),
{
    match (move_a, move_b) {
        (PlayerMove::Rock, PlayerMove::Rock) => Outcome::Tie,
        (PlayerMove::Paper, PlayerMove::Paper) => Outcome::Tie,
        (PlayerMove::Scissors, PlayerMove::Scissors) => Outcome::Tie,
        (PlayerMove::Rock, PlayerMove::Scissors) => Outcome::Decisive(Seat::Player1),
        (PlayerMove::Scissors, PlayerMove::Paper) => Outcome::Decisive(Seat::Player1),
        (PlayerMove::Paper, PlayerMove::Rock) => Outcome::Decisive(Seat::Player1),
        _ => Outcome::Decisive(Seat::Player2),
    }
}

/// The rule is fixed on every pair of moves that can be on the table: the
/// three equal pairs tie, player 1 takes the three pairs in which its move
/// beats the other, and player 2 takes the remaining three.
pub proof fn lemma_resolution_table()
    ensures
        outcome_of(PlayerMove::Rock, PlayerMove::Rock) == Outcome::Tie,
        outcome_of(PlayerMove::Paper, PlayerMove::Paper) == Outcome::Tie,
        outcome_of(PlayerMove::Scissors, PlayerMove::Scissors) == Outcome::Tie,
        outcome_of(PlayerMove::Rock, PlayerMove::Scissors) == Outcome::Decisive(Seat::Player1),
        outcome_of(PlayerMove::Scissors, PlayerMove::Paper) == Outcome::Decisive(Seat::Player1),
        outcome_of(PlayerMove::Paper, PlayerMove::Rock) == Outcome::Decisive(Seat::Player1),
        outcome_of(PlayerMove::Scissors, PlayerMove::Rock) == Outcome::Decisive(Seat::Player2),
        outcome_of(PlayerMove::Paper, PlayerMove::Scissors) == Outcome::Decisive(Seat::Player2),
        outcome_of(PlayerMove::Rock, PlayerMove::Paper) == Outcome::Decisive(Seat::Player2),
{
}

/// Swapping the two moves swaps the seats: a round is a tie from both sides
/// or won by exactly one of them.
pub proof fn lemma_resolution_is_antisymmetric(a: PlayerMove, b: PlayerMove)
    requires
        a.is_set(),
        b.is_set(),
    ensures
        outcome_of(a, b) == Outcome::Tie <==> outcome_of(b, a) == Outcome::Tie,
        outcome_of(a, b) == Outcome::Decisive(Seat::Player1) <==> outcome_of(b, a)
            == Outcome::Decisive(Seat::Player2),
        outcome_of(a, b) == Outcome::Decisive(Seat::Player2) <==> outcome_of(b, a)
            == Outcome::Decisive(Seat::Player1),
{
}

} // verus!
