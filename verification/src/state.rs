use vstd::prelude::*;

use crate::errors::IssueError;

verus! {

/// Persistent per-contributor counter record. It is created once by a
/// separate initialisation instruction; the issuance instruction only reads
/// the contribution counter and bumps the reward counter.
#[derive(Clone, Copy, Debug)]
pub struct ContributorRecord {
    /// Identity of the contributor, fixed at creation.
    pub owner: [u8; 32],
    /// Monotonically increasing counter, bumped by an external instruction.
    pub total_contributions: u64,
    /// Monotonically increasing counter, bumped exactly once per successful
    /// issuance.
    pub total_rewards: u64,
    /// Derivation bump of the record's own address.
    pub bump: u8,
}

impl ContributorRecord {
    /// Rewards never outrun contributions.
    pub open spec fn wf(self) -> bool {
        self.total_rewards <= self.total_contributions
    }
}

/// Eligibility guard and counter update: rejects a contributor who has not
/// met the minimum contribution threshold, and otherwise bumps the reward
/// counter by one. Runs first in the instruction; on rejection nothing has
/// been touched yet.
pub fn apply_reward(record: &mut ContributorRecord) -> (r: Result<(), IssueError>)
    requires
        old(record).total_rewards < u64::MAX,
    ensures
        r == Ok::<(), IssueError>(()) <==> old(record).total_contributions >= 1,
        r == Err::<(), IssueError>(IssueError::InsufficientContributions)
            <==> old(record).total_contributions == 0,
        r.is_ok() ==> *final(record) == (ContributorRecord {
            total_rewards: (old(record).total_rewards + 1) as u64,
            ..*old(record)
        }),
        r.is_err() ==> *final(record) == *old(record),
{
    if record.total_contributions >= 1 {
        record.total_rewards = record.total_rewards + 1;
        Ok(())
    } else {
        Err(IssueError::InsufficientContributions)
    }
}

} // verus!
