use vstd::prelude::*;

verus! {

/// Every way an invocation of the controller can be rejected.
///
/// A rejected invocation leaves the stored state unchanged; the
/// contracts of the entry functions say exactly which error comes
/// back on which input.
#[derive(Clone, Copy, Debug, PartialEq, Eq)]
pub enum ContractError {
    /// The requested packet timeout lies outside the accepted range.
    InvalidTimeout,
    /// The host rejected an identity string as malformed.
    InvalidAddress,
    /// The caller is neither the owner nor, for a claim, the proposed candidate.
    Unauthorized,
    /// A proposal with this id was already dispatched; ids are never reused.
    DuplicateProposal { proposal_id: u64 },
    /// The requested record does not exist in the store.
    NotFound,
    /// The ownership proposal's validity window has passed.
    ExpiredProposal,
    /// The stored version tag is not in the supported-upgrade table.
    UnsupportedMigration,
    /// The proposed new owner equals the current owner.
    InvalidCandidate,
}

} // verus!
