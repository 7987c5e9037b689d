//! Why an operation on a session was turned down.

use vstd::prelude::*;

verus! {

/// The refusals a caller can recover from. Each leaves the session exactly
/// as it was.
#[derive(Clone, Copy, Debug, PartialEq, Eq, Structural)]
pub enum Error {
    /// No session is stored under the identifier.
    GameNotFound,
    /// The caller holds neither seat of the session.
    NotPlayer,
    /// The caller has already put a move down in this round.
    AlreadyMoved,
    /// A move is still missing.
    BothPlayersNotMoved,
    /// The session has a winner.
    GameAlreadyEnded,
}

impl Error {
    /// The number under which the refusal is reported on the ledger.
    pub open spec fn spec_code(self) -> u32 {
        match self {
            Error::GameNotFound => 1,
            Error::NotPlayer => 2,
            Error::AlreadyMoved => 3,
            Error::BothPlayersNotMoved => 4,
            Error::GameAlreadyEnded => 5,
        }
    }

    /// The number under which the refusal is reported on the ledger.
    pub fn code(&self) -> (c: u32)
        ensures
            c == self.spec_code(),
            1 <= c <= 5,
    {
        match self {
            Error::GameNotFound => 1,
            Error::NotPlayer => 2,
            Error::AlreadyMoved => 3,
            Error::BothPlayersNotMoved => 4,
            Error::GameAlreadyEnded => 5,
        }
    }

    /// The refusal reported under `code`, if there is one.
    pub fn from_code(code: u32) -> (e: Option<Error>)
        ensures
            e matches Some(err) ==> err.spec_code() == code,
            e is None <==> !(1 <= code <= 5),
    {
        match code {
            1 => Some(Error::GameNotFound),
            2 => Some(Error::NotPlayer),
            3 => Some(Error::AlreadyMoved),
            4 => Some(Error::BothPlayersNotMoved),
            5 => Some(Error::GameAlreadyEnded),
            _ => None,
        }
    }
}

/// No two refusals share a number.
pub proof fn lemma_codes_are_distinct(a: Error, b: Error)
    ensures
        a.spec_code() == b.spec_code() <==> a == b,
{
}

} // verus!
