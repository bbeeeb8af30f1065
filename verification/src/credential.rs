//! Credentials, the proofs of ownership presented in their place, and the
//! rules that gate the privileged operations.

use vstd::prelude::*;

verus! {

/// The record types that a credential can be of.
#[derive(Clone, Copy, Debug, PartialEq, Eq, Structural)]
pub enum CredentialKind {
    /// Held by the authority that sets a session up and tallies it.
    Chairperson,
    /// Held by the session itself and never handed out.
    Admin,
    /// Issued to a participant, together with an allowance of votes.
    Voter,
    /// Stands for a proposal record.
    Proposal,
    /// Of a record type that the session did not set up.
    Foreign,
}

/// A claim of current ownership: of which record type, of how many whole
/// units, and of which record. The holder of a credential presents such a
/// claim and keeps the credential.
#[derive(Clone, Copy, Debug, PartialEq, Eq, Structural)]
pub struct OwnershipProof {
    pub kind: CredentialKind,
    pub amount: u64,
    pub id: u64,
}

impl OwnershipProof {
    /// A claim of `amount` units of the record `id` of type `kind`.
    pub fn new(kind: CredentialKind, amount: u64, id: u64) -> (proof: OwnershipProof)
        ensures
            proof == (OwnershipProof { kind, amount, id }),
    {
        OwnershipProof { kind, amount, id }
    }

    /// Whether the claim is of exactly one unit of a voter record.
    pub open spec fn is_single_voter(self) -> bool {
        self.kind == CredentialKind::Voter && self.amount == 1
    }
}

/// An owned token. It cannot be copied: whoever holds it holds the only one.
#[derive(Debug)]
pub struct Credential {
    kind: CredentialKind,
    id: u64,
}

impl View for Credential {
    type V = OwnershipProof;

    /// What the holder can claim: one unit of this credential's record.
    closed spec fn view(&self) -> OwnershipProof {
        OwnershipProof { kind: self.kind, amount: 1, id: self.id }
    }
}

impl Credential {
    /// Mints the credential of the record `id` of type `kind`. Only a
    /// session mints.
    pub(crate) fn mint(kind: CredentialKind, id: u64) -> (credential: Credential)
        ensures
            credential@ == (OwnershipProof { kind, amount: 1, id }),
    {
        Credential { kind, id }
    }

    /// The record type of the credential.
    pub fn kind(&self) -> (kind: CredentialKind)
        ensures
            kind == self@.kind,
    {
        self.kind
    }

    /// The id of the record that the credential stands for.
    pub fn id(&self) -> (id: u64)
        ensures
            id == self@.id,
    {
        self.id
    }

    /// Attests ownership without giving the credential up.
    pub fn prove(&self) -> (proof: OwnershipProof)
        ensures
            proof == self@,
    {
        OwnershipProof { kind: self.kind, amount: 1, id: self.id }
    }
}

/// A rule that a caller's presented proof is held against before a
/// privileged operation is entered.
#[derive(Clone, Copy, Debug, PartialEq, Eq, Structural)]
pub enum AccessRule {
    /// Every caller passes.
    AllowAll,
    /// No caller passes.
    DenyAll,
    /// A caller passes who proves ownership of a credential of this type.
    Require(CredentialKind),
}

impl AccessRule {
    /// Whether a caller who presents `presented` passes the rule.
    pub open spec fn spec_permits(self, presented: Option<OwnershipProof>) -> bool {
        match self {
            AccessRule::AllowAll => true,
            AccessRule::DenyAll => false,
            AccessRule::Require(kind) => presented matches Some(proof) && proof.kind == kind
                && proof.amount >= 1,
        }
    }

    /// Decides whether a caller who presents `presented` passes the rule.
    pub fn permits(&self, presented: Option<OwnershipProof>) -> (allowed: bool)
        ensures
            allowed == self.spec_permits(presented),
    {
        match *self {
            AccessRule::AllowAll => true,
            AccessRule::DenyAll => false,
            AccessRule::Require(kind) => match presented {
                Some(proof) => proof.kind == kind && proof.amount >= 1,
                None => false,
            },
        }
    }
}

/// The operations of a session.
#[derive(Clone, Copy, Debug, PartialEq, Eq, Structural)]
pub enum Method {
    AddProposal,
    AddVoter,
    Vote,
    WinningProposals,
    CheckWinner,
    CheckResults,
}

impl Method {
    /// The operations reserved to the authority: setting up and tallying.
    pub open spec fn is_privileged(self) -> bool {
        self == Method::AddProposal || self == Method::AddVoter || self
            == Method::WinningProposals
    }
}

} // verus!
