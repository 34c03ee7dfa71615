use vstd::prelude::*;

verus! {

/// Reasons the issuance instruction can abort. Every error aborts the whole
/// instruction: no effect of a failed invocation persists.
#[derive(Clone, Copy, Debug, PartialEq, Eq, Structural)]
pub enum IssueError {
    /// The contributor has not met the minimum contribution threshold.
    InsufficientContributions,
    /// No contributor record exists for the requester.
    ContributorStateMissing,
    /// A derived account (mint, holding account or metadata record) already
    /// exists: the contributor has already claimed a credential.
    AccountAlreadyExists,
    /// The external attestation program rejected the metadata record.
    AttestationRejected,
    /// An attempted operation is forbidden by a non-transferable mint.
    NonTransferable,
    /// An attempted update targets an immutable metadata record.
    ImmutableMetadata,
    /// An attempted transfer exceeds the holding account's balance.
    InsufficientFunds,
    /// An attempted transfer would overflow the destination's balance.
    BalanceOverflow,
    /// An attempted update is not signed by the record's update authority.
    UnauthorizedUpdate,
}

} // verus!
