use vstd::prelude::*;
use vstd::slice::slice_to_vec;

verus! {

/// Identity of the token-supply program (`TokenzQdBNbLqP5VEhdkAS6EPFLC1PHnBqCXEpPxuEb`).
pub open spec fn token_program_id_spec() -> Seq<u8> {
    seq![
        6u8, 221u8, 246u8, 225u8, 238u8, 117u8, 143u8, 222u8, 24u8, 66u8, 93u8, 188u8, 228u8,
        108u8, 205u8, 218u8, 182u8, 26u8, 252u8, 77u8, 131u8, 185u8, 13u8, 39u8, 254u8, 189u8,
        249u8, 40u8, 216u8, 161u8, 139u8, 252u8,
    ]
}

/// Identity of the metadata-attestation program (`metaqbxxUerdq28cj1RbAWkYQm3ybzjb6a8bt518x1s`).
pub open spec fn metadata_program_id_spec() -> Seq<u8> {
    seq![
        11u8, 112u8, 101u8, 177u8, 227u8, 209u8, 124u8, 69u8, 56u8, 157u8, 82u8, 127u8, 107u8,
        4u8, 195u8, 205u8, 88u8, 184u8, 108u8, 115u8, 26u8, 160u8, 253u8, 181u8, 73u8, 182u8,
        209u8, 188u8, 3u8, 248u8, 41u8, 70u8,
    ]
}

/// Identity of the associated-holding-account program
/// (`ATokenGPvbdGVxr1b2hvZbsiqW5xWH25efTNsLJA8knL`).
pub open spec fn holding_program_id_spec() -> Seq<u8> {
    seq![
        140u8, 151u8, 37u8, 143u8, 78u8, 36u8, 137u8, 241u8, 187u8, 61u8, 16u8, 41u8, 20u8,
        142u8, 13u8, 131u8, 11u8, 90u8, 19u8, 153u8, 218u8, 255u8, 16u8, 132u8, 4u8, 142u8,
        123u8, 216u8, 219u8, 233u8, 248u8, 89u8,
    ]
}

/// Relies on spl_token_2022::id: the constant program identity above.
#[verifier::external_body]
pub fn token_program_id() -> (r: [u8; 32])
    ensures
        r@ == token_program_id_spec(),
{
    spl_token_2022::id().to_bytes()
}

/// Relies on mpl_token_metadata::ID: the constant program identity above.
#[verifier::external_body]
pub fn metadata_program_id() -> (r: [u8; 32])
    ensures
        r@ == metadata_program_id_spec(),
{
    mpl_token_metadata::ID.to_bytes()
}

/// Relies on spl_associated_token_account::id: the constant program identity
/// above.
#[verifier::external_body]
pub fn holding_program_id() -> (r: [u8; 32])
    ensures
        r@ == holding_program_id_spec(),
{
    spl_associated_token_account::id().to_bytes()
}

/// What the host ledger's deterministic address derivation yields for a list
/// of seed byte strings under a deriving program: an address and a bump, or
/// nothing in the statistically improbable case that no bump works.
pub uninterp spec fn derived_address(seeds: Seq<Seq<u8>>, program: Seq<u8>) -> Option<
    (Seq<u8>, u8),
>;

/// Relies on solana_program's Pubkey::try_find_program_address: the derived
/// address is a function of the seed byte strings and the deriving program
/// alone, and an address is 32 bytes.
#[verifier::external_body]
fn try_derive(seeds: &Vec<Vec<u8>>, program: &[u8; 32]) -> (r: Option<([u8; 32], u8)>)
    ensures
        (match r {
            Some((addr, bump)) => derived_address(seeds.deep_view(), program@) == Some(
                (addr@, bump),
            ),
            None => derived_address(seeds.deep_view(), program@) is None,
        }),
{
    let refs: Vec<&[u8]> = seeds.iter().map(|s| s.as_slice()).collect();
    let program_key = solana_program::pubkey::Pubkey::new_from_array(*program);
    solana_program::pubkey::Pubkey::try_find_program_address(&refs, &program_key)
        .map(|(key, bump)| (key.to_bytes(), bump))
}

/// Seeds of a contributor's persistent counter record: the namespace tag
/// `"contributor"` and the contributor's identity.
pub open spec fn contributor_seeds(owner: Seq<u8>) -> Seq<Seq<u8>> {
    seq![
        seq![99u8, 111u8, 110u8, 116u8, 114u8, 105u8, 98u8, 117u8, 116u8, 111u8, 114u8],
        owner,
    ]
}

/// Seeds of a contributor's credential mint: the namespace tag `"mint"` and
/// the contributor's identity.
pub open spec fn mint_seeds(owner: Seq<u8>) -> Seq<Seq<u8>> {
    seq![seq![109u8, 105u8, 110u8, 116u8], owner]
}

/// Seeds of the holding account for (owner, mint) under the
/// associated-holding-account program: owner, token program, mint.
pub open spec fn holding_seeds(owner: Seq<u8>, mint: Seq<u8>) -> Seq<Seq<u8>> {
    seq![owner, token_program_id_spec(), mint]
}

/// Seeds of the attestation record of a mint: the namespace tag
/// `"metadata"`, the attestation program's identity, and the mint.
pub open spec fn metadata_seeds(mint: Seq<u8>) -> Seq<Seq<u8>> {
    seq![
        seq![109u8, 101u8, 116u8, 97u8, 100u8, 97u8, 116u8, 97u8],
        metadata_program_id_spec(),
        mint,
    ]
}

/// Derives the address of a contributor's counter record under this program.
pub fn derive_contributor_address(owner: &[u8; 32], program_id: &[u8; 32]) -> (r: Option<
    ([u8; 32], u8),
>)
    ensures
        (match r {
            Some((addr, bump)) => derived_address(contributor_seeds(owner@), program_id@)
                == Some((addr@, bump)),
            None => derived_address(contributor_seeds(owner@), program_id@) is None,
        }),
{
    let mut seeds: Vec<Vec<u8>> = Vec::new();
    seeds.push(vec![99u8, 111u8, 110u8, 116u8, 114u8, 105u8, 98u8, 117u8, 116u8, 111u8, 114u8]);
    seeds.push(slice_to_vec(owner.as_slice()));
    proof {
        assert(seeds.deep_view() =~~= contributor_seeds(owner@));
    }
    try_derive(&seeds, program_id)
}

/// Derives the address of a contributor's credential mint under this
/// program: one mint address per contributor identity.
pub fn derive_mint_address(owner: &[u8; 32], program_id: &[u8; 32]) -> (r: Option<([u8; 32], u8)>)
    ensures
        (match r {
            Some((addr, bump)) => derived_address(mint_seeds(owner@), program_id@) == Some(
                (addr@, bump),
            ),
            None => derived_address(mint_seeds(owner@), program_id@) is None,
        }),
{
    let mut seeds: Vec<Vec<u8>> = Vec::new();
    seeds.push(vec![109u8, 105u8, 110u8, 116u8]);
    seeds.push(slice_to_vec(owner.as_slice()));
    proof {
        assert(seeds.deep_view() =~~= mint_seeds(owner@));
    }
    try_derive(&seeds, program_id)
}

/// Derives the canonical holding-account address for (owner, mint), as the
/// associated-holding-account program derives it from the owner, the token
/// program and the mint.
pub fn derive_holding_address(owner: &[u8; 32], mint: &[u8; 32]) -> (r: Option<([u8; 32], u8)>)
    ensures
        (match r {
            Some((addr, bump)) => derived_address(holding_seeds(owner@, mint@), holding_program_id_spec())
                == Some((addr@, bump)),
            None => derived_address(holding_seeds(owner@, mint@), holding_program_id_spec()) is None,
        }),
{
    let mut seeds: Vec<Vec<u8>> = Vec::new();
    seeds.push(slice_to_vec(owner.as_slice()));
    seeds.push(slice_to_vec(token_program_id().as_slice()));
    seeds.push(slice_to_vec(mint.as_slice()));
    proof {
        assert(seeds.deep_view() =~~= holding_seeds(owner@, mint@));
    }
    let program = holding_program_id();
    try_derive(&seeds, &program)
}

/// Derives the address of the attestation record bound to a mint, under the
/// attestation program: exactly one record address per mint.
pub fn derive_metadata_address(mint: &[u8; 32]) -> (r: Option<([u8; 32], u8)>)
    ensures
        (match r {
            Some((addr, bump)) => derived_address(metadata_seeds(mint@), metadata_program_id_spec())
                == Some((addr@, bump)),
            None => derived_address(metadata_seeds(mint@), metadata_program_id_spec()) is None,
        }),
{
    let mut seeds: Vec<Vec<u8>> = Vec::new();
    seeds.push(vec![109u8, 101u8, 116u8, 97u8, 100u8, 97u8, 116u8, 97u8]);
    seeds.push(slice_to_vec(metadata_program_id().as_slice()));
    seeds.push(slice_to_vec(mint.as_slice()));
    proof {
        assert(seeds.deep_view() =~~= metadata_seeds(mint@));
    }
    let program = metadata_program_id();
    try_derive(&seeds, &program)
}

/// Byte-for-byte equality of two 32-byte addresses.
pub fn key_eq(a: &[u8; 32], b: &[u8; 32]) -> (r: bool)
    ensures
        r == (a@ == b@),
{
    let mut i: usize = 0;
    while i < 32
        invariant
            i <= 32,
            forall|j: int| 0 <= j < i ==> a@[j] == b@[j],
        decreases 32 - i,
    {
        if a[i] != b[i] {
            return false;
        }
        i = i + 1;
    }
    proof {
        assert(a@ =~= b@);
    }
    true
}

} // verus!
