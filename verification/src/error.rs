//! The ways in which a call on a voting session is rejected.

use vstd::prelude::*;

verus! {

/// Why a call was rejected. A rejected call changes nothing.
#[derive(Clone, Copy, Debug, PartialEq, Eq, Structural)]
pub enum VotingError {
    /// A call that would change the session arrived after the tally.
    SessionClosed,
    /// A report was asked for before the tally.
    SessionOpen,
    /// The presented proof is not of the voter record type, does not stand
    /// for exactly one unit, or names no voter record of this session.
    InvalidCredential,
    /// More votes were requested than the voter has left.
    InsufficientAllowance { requested: u16, remaining: u16 },
    /// No proposal has this id.
    UnknownProposal { proposal_id: u64 },
    /// The tally was attempted before any vote was cast.
    NoVotesCast,
    /// A counter would leave its representable range.
    ArithmeticOverflow,
}

} // verus!
