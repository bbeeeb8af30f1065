//! A ballot component: an authority registers proposals with a winning
//! percentage threshold, issues bounded voting allowances, accepts votes
//! against an allowance, tallies once, and reports the outcome.
//!
//! The session is a state machine whose every transition is proved to keep
//! the books balanced: the running total equals the sum of the proposals'
//! votes, and votes cast plus votes still held equal the allowance issued.

pub mod credential;
pub mod error;
pub mod ledger;
pub mod tally;

pub use credential::{AccessRule, Credential, CredentialKind, Method, OwnershipProof};
pub use error::VotingError;
pub use ledger::{Proposal, ProposalView, Voter, VoterView};
pub mod model;
pub mod session;

pub use model::SessionView;
pub use session::ProposalVoting;
