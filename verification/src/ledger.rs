use vstd::prelude::*;

use crate::addresses::key_eq;
use crate::errors::IssueError;
use crate::state::ContributorRecord;
use crate::text::{cert_name, cert_name_spec, cert_symbol, cert_symbol_spec, cert_uri,
    cert_uri_spec};

verus! {

/// The supply-defining record of a credential token, created once per
/// contributor at a deterministically derived address.
#[derive(Clone, Copy, Debug)]
pub struct MintRecord {
    pub address: [u8; 32],
    /// Zero: the credential is one indivisible unit.
    pub decimals: u8,
    pub mint_authority: [u8; 32],
    pub freeze_authority: [u8; 32],
    /// Set at creation, before any unit exists; transfers out of accounts
    /// of this mint are rejected for good.
    pub non_transferable: bool,
    pub supply: u64,
}

/// A balance of units of one mint held for one owner.
#[derive(Clone, Copy, Debug)]
pub struct HoldingRecord {
    pub address: [u8; 32],
    pub mint: [u8; 32],
    pub owner: [u8; 32],
    pub balance: u64,
}

/// The immutable descriptive record bound to a mint by the attestation
/// program.
#[derive(Clone, Debug)]
pub struct MetadataRecord {
    pub address: [u8; 32],
    pub mint: [u8; 32],
    pub name: String,
    pub symbol: String,
    pub uri: String,
    pub update_authority: [u8; 32],
    pub is_mutable: bool,
}

/// The slice of the shared ledger this instruction can see: contributor
/// counter records and the token and attestation accounts, each keyed by a
/// derived address.
pub struct Ledger {
    pub contributors: Vec<ContributorRecord>,
    pub mints: Vec<MintRecord>,
    pub holdings: Vec<HoldingRecord>,
    pub metadata: Vec<MetadataRecord>,
}

pub open spec fn has_contributor(cs: Seq<ContributorRecord>, owner: Seq<u8>) -> bool {
    exists|i: int| 0 <= i < cs.len() && cs[i].owner@ == owner
}

/// The position of the contributor record owned by `owner`; meaningful
/// under `has_contributor` and unique-ownership well-formedness.
pub open spec fn contributor_index(cs: Seq<ContributorRecord>, owner: Seq<u8>) -> int {
    choose|i: int| 0 <= i < cs.len() && cs[i].owner@ == owner
}

pub open spec fn has_mint(ms: Seq<MintRecord>, addr: Seq<u8>) -> bool {
    exists|i: int| 0 <= i < ms.len() && ms[i].address@ == addr
}

pub open spec fn has_holding(hs: Seq<HoldingRecord>, addr: Seq<u8>) -> bool {
    exists|i: int| 0 <= i < hs.len() && hs[i].address@ == addr
}

pub open spec fn has_metadata(ds: Seq<MetadataRecord>, addr: Seq<u8>) -> bool {
    exists|i: int| 0 <= i < ds.len() && ds[i].address@ == addr
}

impl Ledger {
    /// Every contributor record belongs to a distinct identity, and every
    /// mint, holding account and metadata record sits at a distinct
    /// address: what deterministic derivation grants structurally.
    pub open spec fn wf(self) -> bool {
        &&& (forall|i: int, j: int|
            0 <= i < self.contributors@.len() && 0 <= j < self.contributors@.len() && i != j
                ==> self.contributors@[i].owner@ != self.contributors@[j].owner@)
        &&& (forall|i: int, j: int|
            0 <= i < self.mints@.len() && 0 <= j < self.mints@.len() && i != j
                ==> self.mints@[i].address@ != self.mints@[j].address@)
        &&& (forall|i: int, j: int|
            0 <= i < self.holdings@.len() && 0 <= j < self.holdings@.len() && i != j
                ==> self.holdings@[i].address@ != self.holdings@[j].address@)
        &&& (forall|i: int, j: int|
            0 <= i < self.metadata@.len() && 0 <= j < self.metadata@.len() && i != j
                ==> self.metadata@[i].address@ != self.metadata@[j].address@)
    }

    /// Room for one more reward on every counter.
    pub open spec fn rewards_bounded(self) -> bool {
        forall|i: int|
            0 <= i < self.contributors@.len()
                ==> self.contributors@[i].total_rewards < u64::MAX
    }
}

/// When an issuance goes through: the requester's record exists and meets
/// the threshold, none of the three derived accounts exists yet, and the
/// attestation program accepts the record.
pub open spec fn issue_ok(
    l: Ledger,
    payer: Seq<u8>,
    mint_addr: Seq<u8>,
    holding_addr: Seq<u8>,
    metadata_addr: Seq<u8>,
    attestation_ok: bool,
) -> bool {
    &&& has_contributor(l.contributors@, payer)
    &&& l.contributors@[contributor_index(l.contributors@, payer)].total_contributions >= 1
    &&& !has_mint(l.mints@, mint_addr)
    &&& !has_holding(l.holdings@, holding_addr)
    &&& !has_metadata(l.metadata@, metadata_addr)
    &&& attestation_ok
}

/// Which rejection a failed issuance reports, in the order the checks run:
/// a missing record, then the threshold, then an address collision, then
/// the attestation outcome.
pub open spec fn issue_err(
    l: Ledger,
    payer: Seq<u8>,
    mint_addr: Seq<u8>,
    holding_addr: Seq<u8>,
    metadata_addr: Seq<u8>,
) -> IssueError {
    if !has_contributor(l.contributors@, payer) {
        IssueError::ContributorStateMissing
    } else if l.contributors@[contributor_index(l.contributors@, payer)].total_contributions
        == 0 {
        IssueError::InsufficientContributions
    } else if has_mint(l.mints@, mint_addr) || has_holding(l.holdings@, holding_addr)
        || has_metadata(l.metadata@, metadata_addr) {
        IssueError::AccountAlreadyExists
    } else {
        IssueError::AttestationRejected
    }
}

/// What one successful issuance leaves behind: the requester's reward
/// counter bumped by exactly one, and three new accounts — a
/// non-transferable zero-decimal mint with supply one, a holding account
/// with exactly one unit, and an immutable metadata record carrying the
/// fixed name prefix, symbol and gateway location around the caller's
/// content identifier. Nothing else changes.
pub open spec fn issue_post(
    pre: Ledger,
    post: Ledger,
    payer: Seq<u8>,
    mint_addr: Seq<u8>,
    holding_addr: Seq<u8>,
    metadata_addr: Seq<u8>,
    cid: Seq<char>,
) -> bool {
    let i = contributor_index(pre.contributors@, payer);
    &&& post.contributors@.len() == pre.contributors@.len()
    &&& (forall|j: int|
        0 <= j < pre.contributors@.len() && j != i ==> post.contributors@[j]
            == pre.contributors@[j])
    &&& post.contributors@[i] == (ContributorRecord {
        total_rewards: (pre.contributors@[i].total_rewards + 1) as u64,
        ..pre.contributors@[i]
    })
    &&& post.mints@.len() == pre.mints@.len() + 1
    &&& (forall|j: int| 0 <= j < pre.mints@.len() ==> post.mints@[j] == pre.mints@[j])
    &&& post.mints@.last().address@ == mint_addr
    &&& post.mints@.last().decimals == 0
    &&& post.mints@.last().mint_authority@ == payer
    &&& post.mints@.last().freeze_authority@ == payer
    &&& post.mints@.last().non_transferable
    &&& post.mints@.last().supply == 1
    &&& post.holdings@.len() == pre.holdings@.len() + 1
    &&& (forall|j: int| 0 <= j < pre.holdings@.len() ==> post.holdings@[j] == pre.holdings@[j])
    &&& post.holdings@.last().address@ == holding_addr
    &&& post.holdings@.last().mint@ == mint_addr
    &&& post.holdings@.last().owner@ == payer
    &&& post.holdings@.last().balance == 1
    &&& post.metadata@.len() == pre.metadata@.len() + 1
    &&& (forall|j: int| 0 <= j < pre.metadata@.len() ==> post.metadata@[j] == pre.metadata@[j])
    &&& post.metadata@.last().address@ == metadata_addr
    &&& post.metadata@.last().mint@ == mint_addr
    &&& post.metadata@.last().name@ == cert_name_spec(cid)
    &&& post.metadata@.last().symbol@ == cert_symbol_spec()
    &&& post.metadata@.last().uri@ == cert_uri_spec(cid)
    &&& post.metadata@.last().update_authority@ == payer
    &&& !post.metadata@.last().is_mutable
}

/// Under unique ownership, the index of a record with a matching owner is
/// the contributor index.
pub proof fn lemma_contributor_index(cs: Seq<ContributorRecord>, owner: Seq<u8>, i: int)
    requires
        forall|p: int, q: int|
            0 <= p < cs.len() && 0 <= q < cs.len() && p != q ==> cs[p].owner@ != cs[q].owner@,
        0 <= i < cs.len(),
        cs[i].owner@ == owner,
    ensures
        has_contributor(cs, owner),
        contributor_index(cs, owner) == i,
{
    assert(has_contributor(cs, owner));
    let k = contributor_index(cs, owner);
    assert(0 <= k < cs.len() && cs[k].owner@ == owner);
}

fn find_contributor(cs: &Vec<ContributorRecord>, owner: &[u8; 32]) -> (r: Option<usize>)
    ensures
        (match r {
            Some(i) => i < cs@.len() && cs@[i as int].owner@ == owner@,
            None => !has_contributor(cs@, owner@),
        }),
{
    let mut i: usize = 0;
    while i < cs.len()
        invariant
            i <= cs@.len(),
            forall|j: int| 0 <= j < i ==> cs@[j].owner@ != owner@,
        decreases cs@.len() - i,
    {
        if key_eq(&cs[i].owner, owner) {
            return Some(i);
        }
        i = i + 1;
    }
    None
}

fn mint_exists(ms: &Vec<MintRecord>, addr: &[u8; 32]) -> (r: bool)
    ensures
        r == has_mint(ms@, addr@),
{
    let mut i: usize = 0;
    while i < ms.len()
        invariant
            i <= ms@.len(),
            forall|j: int| 0 <= j < i ==> ms@[j].address@ != addr@,
        decreases ms@.len() - i,
    {
        if key_eq(&ms[i].address, addr) {
            return true;
        }
        i = i + 1;
    }
    false
}

fn holding_exists(hs: &Vec<HoldingRecord>, addr: &[u8; 32]) -> (r: bool)
    ensures
        r == has_holding(hs@, addr@),
{
    let mut i: usize = 0;
    while i < hs.len()
        invariant
            i <= hs@.len(),
            forall|j: int| 0 <= j < i ==> hs@[j].address@ != addr@,
        decreases hs@.len() - i,
    {
        if key_eq(&hs[i].address, addr) {
            return true;
        }
        i = i + 1;
    }
    false
}

fn metadata_exists(ds: &Vec<MetadataRecord>, addr: &[u8; 32]) -> (r: bool)
    ensures
        r == has_metadata(ds@, addr@),
{
    let mut i: usize = 0;
    while i < ds.len()
        invariant
            i <= ds@.len(),
            forall|j: int| 0 <= j < i ==> ds@[j].address@ != addr@,
        decreases ds@.len() - i,
    {
        if key_eq(&ds[i].address, addr) {
            return true;
        }
        i = i + 1;
    }
    false
}

/// The issuance instruction over the ledger model, one atomic step: guard,
/// then token issuance, then attestation. The three account addresses are
/// the derived ones the host runtime validated; the attestation outcome is
/// the external program's decision, handed in by the caller. Every check
/// precedes every write, so a rejection leaves the ledger untouched.
pub fn issue(
    ledger: &mut Ledger,
    payer: &[u8; 32],
    mint_addr: &[u8; 32],
    holding_addr: &[u8; 32],
    metadata_addr: &[u8; 32],
    cid: &str,
    attestation_ok: bool,
) -> (r: Result<(), IssueError>)
    requires
        old(ledger).wf(),
        old(ledger).rewards_bounded(),
    ensures
        r.is_ok() <==> issue_ok(
            *old(ledger),
            payer@,
            mint_addr@,
            holding_addr@,
            metadata_addr@,
            attestation_ok,
        ),
        r.is_err() ==> r == Err::<(), IssueError>(
            issue_err(*old(ledger), payer@, mint_addr@, holding_addr@, metadata_addr@),
        ),
        r.is_err() ==> *final(ledger) == *old(ledger),
        r.is_ok() ==> issue_post(
            *old(ledger),
            *final(ledger),
            payer@,
            mint_addr@,
            holding_addr@,
            metadata_addr@,
            cid@,
        ),
        final(ledger).wf(),
{
    let idx: usize = match find_contributor(&ledger.contributors, payer) {
        Some(i) => i,
        None => {
            return Err(IssueError::ContributorStateMissing);
        },
    };
    proof {
        lemma_contributor_index(ledger.contributors@, payer@, idx as int);
    }
    if ledger.contributors[idx].total_contributions < 1 {
        return Err(IssueError::InsufficientContributions);
    }
    if mint_exists(&ledger.mints, mint_addr) || holding_exists(&ledger.holdings, holding_addr)
        || metadata_exists(&ledger.metadata, metadata_addr) {
        return Err(IssueError::AccountAlreadyExists);
    }
    if !attestation_ok {
        return Err(IssueError::AttestationRejected);
    }
    let record = &mut ledger.contributors[idx];
    record.total_rewards = record.total_rewards + 1;
    ledger.mints.push(
        MintRecord {
            address: *mint_addr,
            decimals: 0,
            mint_authority: *payer,
            freeze_authority: *payer,
            non_transferable: true,
            supply: 1,
        },
    );
    ledger.holdings.push(
        HoldingRecord { address: *holding_addr, mint: *mint_addr, owner: *payer, balance: 1 },
    );
    ledger.metadata.push(
        MetadataRecord {
            address: *metadata_addr,
            mint: *mint_addr,
            name: cert_name(cid),
            symbol: cert_symbol(),
            uri: cert_uri(cid),
            update_authority: *payer,
            is_mutable: false,
        },
    );
    Ok(())
}

/// An attempted transfer of units out of a holding account into another
/// account of the same mint. For a non-transferable mint every such
/// attempt is rejected, whatever the balance or authority; the rejection
/// changes nothing.
pub fn transfer_out(
    mint: &MintRecord,
    from: &mut HoldingRecord,
    to: &mut HoldingRecord,
    amount: u64,
) -> (r: Result<(), IssueError>)
    requires
        old(from).mint@ == mint.address@,
        old(to).mint@ == mint.address@,
    ensures
        mint.non_transferable ==> r == Err::<(), IssueError>(IssueError::NonTransferable),
        !mint.non_transferable && amount > old(from).balance ==> r == Err::<(), IssueError>(
            IssueError::InsufficientFunds,
        ),
        !mint.non_transferable && amount <= old(from).balance && old(to).balance + amount
            > u64::MAX ==> r == Err::<(), IssueError>(IssueError::BalanceOverflow),
        r.is_ok() <==> (!mint.non_transferable && amount <= old(from).balance && old(to).balance
            + amount <= u64::MAX),
        r.is_err() ==> *final(from) == *old(from) && *final(to) == *old(to),
        r.is_ok() ==> *final(from) == (HoldingRecord {
            balance: (old(from).balance - amount) as u64,
            ..*old(from)
        }),
        r.is_ok() ==> *final(to) == (HoldingRecord {
            balance: (old(to).balance + amount) as u64,
            ..*old(to)
        }),
{
    if mint.non_transferable {
        return Err(IssueError::NonTransferable);
    }
    if amount > from.balance {
        return Err(IssueError::InsufficientFunds);
    }
    if to.balance > u64::MAX - amount {
        return Err(IssueError::BalanceOverflow);
    }
    from.balance = from.balance - amount;
    to.balance = to.balance + amount;
    Ok(())
}

/// An attempted rewrite of a metadata record's descriptive fields. A
/// record created immutable rejects every attempt, regardless of the
/// caller's authority; the rejection changes nothing.
pub fn update_metadata(
    record: &mut MetadataRecord,
    authority: &[u8; 32],
    new_name: String,
    new_symbol: String,
    new_uri: String,
) -> (r: Result<(), IssueError>)
    ensures
        !old(record).is_mutable ==> r == Err::<(), IssueError>(IssueError::ImmutableMetadata),
        old(record).is_mutable && authority@ != old(record).update_authority@ ==> r == Err::<
            (),
            IssueError,
        >(IssueError::UnauthorizedUpdate),
        r.is_ok() <==> (old(record).is_mutable && authority@ == old(record).update_authority@),
        r.is_err() ==> *final(record) == *old(record),
        r.is_ok() ==> final(record).name@ == new_name@ && final(record).symbol@ == new_symbol@
            && final(record).uri@ == new_uri@,
        r.is_ok() ==> final(record).address == old(record).address,
        r.is_ok() ==> final(record).mint == old(record).mint,
        r.is_ok() ==> final(record).update_authority == old(record).update_authority,
        r.is_ok() ==> final(record).is_mutable == old(record).is_mutable,
{
    if !record.is_mutable {
        return Err(IssueError::ImmutableMetadata);
    }
    if !key_eq(authority, &record.update_authority) {
        return Err(IssueError::UnauthorizedUpdate);
    }
    record.name = new_name;
    record.symbol = new_symbol;
    record.uri = new_uri;
    Ok(())
}

} // verus!
