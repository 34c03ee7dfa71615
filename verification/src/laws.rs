use vstd::prelude::*;

use crate::errors::IssueError;
use crate::ledger::{contributor_index, has_contributor, has_mint, issue_err, issue_ok,
    issue_post, lemma_contributor_index, Ledger};

verus! {

/// After a successful issuance the requester still owns the same, unique
/// contributor record, at the same position.
proof fn lemma_post_keeps_contributor(
    l0: Ledger,
    l1: Ledger,
    payer: Seq<u8>,
    m: Seq<u8>,
    h: Seq<u8>,
    d: Seq<u8>,
    cid: Seq<char>,
)
    requires
        l0.wf(),
        l0.rewards_bounded(),
        has_contributor(l0.contributors@, payer),
        issue_post(l0, l1, payer, m, h, d, cid),
    ensures
        has_contributor(l1.contributors@, payer),
        contributor_index(l1.contributors@, payer) == contributor_index(l0.contributors@, payer),
        l1.contributors@[contributor_index(l1.contributors@, payer)].total_contributions
            == l0.contributors@[contributor_index(l0.contributors@, payer)].total_contributions,
        l1.contributors@[contributor_index(l1.contributors@, payer)].total_rewards
            == l0.contributors@[contributor_index(l0.contributors@, payer)].total_rewards + 1,
{
    let i = contributor_index(l0.contributors@, payer);
    assert(0 <= i < l0.contributors@.len() && l0.contributors@[i].owner@ == payer);
    assert(l1.contributors@[i].owner@ == payer);
    assert(forall|p: int, q: int|
        0 <= p < l1.contributors@.len() && 0 <= q < l1.contributors@.len() && p != q
            ==> l1.contributors@[p].owner@ != l1.contributors@[q].owner@) by {
        assert(forall|p: int|
            0 <= p < l1.contributors@.len() ==> l1.contributors@[p].owner@
                == l0.contributors@[p].owner@);
    }
    lemma_contributor_index(l1.contributors@, payer, i);
}

/// Single issuance per identity: a successful issuance fills the derived
/// mint address, and a repeated invocation for the same identity derives
/// the same addresses, so the retry is rejected as an account collision —
/// whatever its attestation outcome — and, `issue` rejecting without a
/// write, the state left by the first invocation is unaffected.
pub proof fn lemma_single_issuance(
    l0: Ledger,
    l1: Ledger,
    payer: Seq<u8>,
    m: Seq<u8>,
    h: Seq<u8>,
    d: Seq<u8>,
    cid: Seq<char>,
    first_ok: bool,
    retry_ok: bool,
)
    requires
        l0.wf(),
        l0.rewards_bounded(),
        issue_ok(l0, payer, m, h, d, first_ok),
        issue_post(l0, l1, payer, m, h, d, cid),
    ensures
        !issue_ok(l1, payer, m, h, d, retry_ok),
        issue_err(l1, payer, m, h, d) == IssueError::AccountAlreadyExists,
{
    assert(l1.mints@[l1.mints@.len() - 1].address@ == m);
    assert(has_mint(l1.mints@, m));
    lemma_post_keeps_contributor(l0, l1, payer, m, h, d, cid);
}

/// Counter monotonicity: a successful issuance moves the reward counter to
/// exactly its old value plus one, and while the reward counter sits below
/// the contribution counter — as it does on a fresh record, which starts
/// at zero and which the collision above keeps from a second bump — the
/// bumped counter still does not exceed the contributions.
pub proof fn lemma_counter_monotonic(
    l0: Ledger,
    l1: Ledger,
    payer: Seq<u8>,
    m: Seq<u8>,
    h: Seq<u8>,
    d: Seq<u8>,
    cid: Seq<char>,
    attestation_ok: bool,
)
    requires
        l0.wf(),
        l0.rewards_bounded(),
        issue_ok(l0, payer, m, h, d, attestation_ok),
        issue_post(l0, l1, payer, m, h, d, cid),
        l0.contributors@[contributor_index(l0.contributors@, payer)].total_rewards
            < l0.contributors@[contributor_index(l0.contributors@, payer)].total_contributions,
    ensures
        l1.contributors@[contributor_index(l1.contributors@, payer)].total_rewards
            == l0.contributors@[contributor_index(l0.contributors@, payer)].total_rewards + 1,
        l1.contributors@[contributor_index(l1.contributors@, payer)].total_rewards
            <= l1.contributors@[contributor_index(l1.contributors@, payer)].total_contributions,
{
    lemma_post_keeps_contributor(l0, l1, payer, m, h, d, cid);
}

} // verus!
