use vstd::prelude::*;

use crate::addresses::{derive_holding_address, derive_metadata_address, derive_mint_address,
    derived_address, holding_program_id_spec, holding_seeds, metadata_program_id_spec,
    metadata_seeds, mint_seeds};
use crate::errors::IssueError;
use crate::ledger::{issue, issue_err, issue_ok, issue_post, Ledger};

verus! {

/// The requester's credential mint address, where derivation yields one.
pub open spec fn derived_mint(payer: Seq<u8>, program: Seq<u8>) -> Seq<u8> {
    derived_address(mint_seeds(payer), program).unwrap().0
}

/// The requester's holding-account address for their credential mint.
pub open spec fn derived_holding(payer: Seq<u8>, program: Seq<u8>) -> Seq<u8> {
    derived_address(
        holding_seeds(payer, derived_mint(payer, program)),
        holding_program_id_spec(),
    ).unwrap().0
}

/// The metadata-record address bound to the requester's credential mint.
pub open spec fn derived_metadata(payer: Seq<u8>, program: Seq<u8>) -> Seq<u8> {
    derived_address(
        metadata_seeds(derived_mint(payer, program)),
        metadata_program_id_spec(),
    ).unwrap().0
}

/// Derivation found a bump for all three accounts of this requester; its
/// statistically improbable failure is the one thing the instruction
/// cannot decide itself.
pub open spec fn all_derivable(payer: Seq<u8>, program: Seq<u8>) -> bool {
    &&& derived_address(mint_seeds(payer), program) is Some
    &&& derived_address(
        holding_seeds(payer, derived_mint(payer, program)),
        holding_program_id_spec(),
    ) is Some
    &&& derived_address(
        metadata_seeds(derived_mint(payer, program)),
        metadata_program_id_spec(),
    ) is Some
}

/// The whole instruction: derive the requester's mint, holding-account and
/// metadata addresses under the issuing program, then run the atomic
/// issuance step against them. `None` only when derivation found no bump
/// for one of the accounts, with the ledger untouched; otherwise exactly
/// the outcome of `issue` at the derived addresses.
pub fn process_issuance(
    ledger: &mut Ledger,
    payer: &[u8; 32],
    program_id: &[u8; 32],
    cid: &str,
    attestation_ok: bool,
) -> (r: Option<Result<(), IssueError>>)
    requires
        old(ledger).wf(),
        old(ledger).rewards_bounded(),
    ensures
        r is None <==> !all_derivable(payer@, program_id@),
        r is None ==> *final(ledger) == *old(ledger),
        (match r {
            Some(res) => {
                &&& (res.is_ok() <==> issue_ok(
                    *old(ledger),
                    payer@,
                    derived_mint(payer@, program_id@),
                    derived_holding(payer@, program_id@),
                    derived_metadata(payer@, program_id@),
                    attestation_ok,
                ))
                &&& (res.is_err() ==> res == Err::<(), IssueError>(
                    issue_err(
                        *old(ledger),
                        payer@,
                        derived_mint(payer@, program_id@),
                        derived_holding(payer@, program_id@),
                        derived_metadata(payer@, program_id@),
                    ),
                ) && *final(ledger) == *old(ledger))
                &&& (res.is_ok() ==> issue_post(
                    *old(ledger),
                    *final(ledger),
                    payer@,
                    derived_mint(payer@, program_id@),
                    derived_holding(payer@, program_id@),
                    derived_metadata(payer@, program_id@),
                    cid@,
                ))
            },
            None => true,
        }),
        final(ledger).wf(),
{
    let mint_pair: ([u8; 32], u8) = match derive_mint_address(payer, program_id) {
        Some(x) => x,
        None => {
            return None;
        },
    };
    let holding_pair: ([u8; 32], u8) = match derive_holding_address(payer, &mint_pair.0) {
        Some(x) => x,
        None => {
            return None;
        },
    };
    let metadata_pair: ([u8; 32], u8) = match derive_metadata_address(&mint_pair.0) {
        Some(x) => x,
        None => {
            return None;
        },
    };
    Some(
        issue(
            ledger,
            payer,
            &mint_pair.0,
            &holding_pair.0,
            &metadata_pair.0,
            cid,
            attestation_ok,
        ),
    )
}

} // verus!
