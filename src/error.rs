use vstd::prelude::*;

verus! {

/// Why an operation on a match was refused. A refused operation leaves the
/// match unchanged.
#[derive(Debug, Clone, Copy, PartialEq, Eq, Structural)]
pub enum SErrors {
    /// The caller is neither of the two players of the match.
    UnknownPlayer,
    /// The first symbol of the revealed text, past any white space, is not
    /// one of `0` to `4`, or the text has none.
    InvalidHandSymbol,
    /// The revealed text does not hash to the player's commitment, or the
    /// player has not committed.
    CommitmentMismatch,
    /// No reveal has landed yet, so no deadline runs.
    DeadlineNotSet,
    /// The reveal deadline has not passed yet.
    DeadlineNotReached,
    /// The caller may not claim the match: it has not revealed, or both have.
    InvalidForfeiture,
    /// The match already has a result.
    MatchFinished,
    /// The host's clock could not be read.
    ClockUnavailable,
}

} // verus!
