use vstd::prelude::*;

use crate::addresses::{metadata_program_id, metadata_program_id_spec, token_program_id_spec};
use crate::text::{cert_name, cert_name_spec, cert_symbol, cert_symbol_spec, cert_uri,
    cert_uri_spec};

verus! {

/// One account named by an instruction: its address and the access it is
/// granted.
pub struct MetaParts {
    pub key: [u8; 32],
    pub is_signer: bool,
    pub is_writable: bool,
}

/// One delegated call, decomposed into plain values: the called program,
/// the accounts it may touch, and the argument bytes.
pub struct IxParts {
    pub program: [u8; 32],
    pub metas: Vec<MetaParts>,
    pub data: Vec<u8>,
}

/// Relies on spl_token_2022::instruction::initialize_non_transferable_mint:
/// called under the token program's own identity it returns an instruction
/// for that program, naming the mint writable and unsigned, with the
/// restriction's instruction tag as its only argument byte.
#[verifier::external_body]
fn build_init_non_transferable(mint: &[u8; 32]) -> (r: IxParts)
    ensures
        r.program@ == token_program_id_spec(),
        r.metas@.len() == 1,
        r.metas@[0].key@ == mint@,
        !r.metas@[0].is_signer,
        r.metas@[0].is_writable,
        r.data@ == seq![32u8],
{
    let key = solana_program::pubkey::Pubkey::new_from_array(*mint);
    let ix = spl_token_2022::instruction::initialize_non_transferable_mint(
        &spl_token_2022::id(), &key).unwrap();
    IxParts {
        program: ix.program_id.to_bytes(),
        metas: ix.accounts.iter().map(|m| MetaParts {
            key: m.pubkey.to_bytes(), is_signer: m.is_signer, is_writable: m.is_writable,
        }).collect(),
        data: ix.data,
    }
}

/// Relies on spl_token_2022::instruction::mint_to: called under the token
/// program's own identity, with the mint authority as sole signer, it
/// returns an instruction for that program naming the writable mint, the
/// writable destination account and the signing authority, whose argument
/// bytes are the mint-to instruction tag followed by the amount in
/// little-endian order.
#[verifier::external_body]
fn build_mint_to(mint: &[u8; 32], account: &[u8; 32], owner: &[u8; 32], amount: u64) -> (r:
    IxParts)
    ensures
        r.program@ == token_program_id_spec(),
        r.metas@.len() == 3,
        r.metas@[0].key@ == mint@ && !r.metas@[0].is_signer && r.metas@[0].is_writable,
        r.metas@[1].key@ == account@ && !r.metas@[1].is_signer && r.metas@[1].is_writable,
        r.metas@[2].key@ == owner@ && r.metas@[2].is_signer && !r.metas@[2].is_writable,
        r.data@ == seq![7u8] + vstd::bytes::spec_u64_to_le_bytes(amount),
{
    let key = |b: &[u8; 32]| solana_program::pubkey::Pubkey::new_from_array(*b);
    let ix = spl_token_2022::instruction::mint_to(
        &spl_token_2022::id(), &key(mint), &key(account), &key(owner), &[], amount).unwrap();
    IxParts {
        program: ix.program_id.to_bytes(),
        metas: ix.accounts.iter().map(|m| MetaParts {
            key: m.pubkey.to_bytes(), is_signer: m.is_signer, is_writable: m.is_writable,
        }).collect(),
        data: ix.data,
    }
}

/// What the attestation program's record-creation call takes as its
/// argument bytes for a record with the given name, symbol and content
/// location, no royalties, no creator, collection or uses data, and the
/// mutability flag off: the creation instruction tag followed by the
/// serialised record fields.
pub uninterp spec fn metadata_args_data(name: Seq<char>, symbol: Seq<char>, uri: Seq<char>) -> Seq<
    u8,
>;

/// Relies on mpl_token_metadata's CreateMetadataAccountV3 instruction
/// builder, whose argument bytes depend on the record arguments alone, not
/// on the named accounts; the accounts handed to it here are placeholders
/// and only the bytes are kept. Serialisation fails only for fields beyond
/// the 32-bit byte-length bound, which the caller keeps out.
#[verifier::external_body]
fn metadata_instruction_data(name: String, symbol: String, uri: String) -> (r: Vec<u8>)
    requires
        name@.len() * 4 < 0xFFFF_FF00,
        symbol@.len() * 4 < 0xFFFF_FF00,
        uri@.len() * 4 < 0xFFFF_FF00,
    ensures
        r@ == metadata_args_data(name@, symbol@, uri@),
{
    let z = solana_program::pubkey::Pubkey::new_from_array([0u8; 32]);
    let accounts = mpl_token_metadata::instructions::CreateMetadataAccountV3 {
        metadata: z, mint: z, mint_authority: z, payer: z,
        update_authority: (z, true), system_program: z, rent: None,
    };
    accounts.instruction(mpl_token_metadata::instructions::CreateMetadataAccountV3InstructionArgs {
        data: mpl_token_metadata::types::DataV2 {
            name, symbol, uri, seller_fee_basis_points: 0,
            creators: None, collection: None, uses: None,
        },
        is_mutable: false, collection_details: None,
    }).data
}

/// Assembles the attestation program's record-creation call: the writable
/// record, the mint, the signing mint authority, the writable signing
/// payer, the signing update authority, the system program and the rent
/// sysvar, in that order, with the serialised record arguments. The
/// requester is mint authority, funding payer and update authority at once.
pub fn build_create_metadata(
    metadata: &[u8; 32],
    mint: &[u8; 32],
    authority: &[u8; 32],
    system_program: &[u8; 32],
    rent: &[u8; 32],
    name: String,
    symbol: String,
    uri: String,
) -> (r: IxParts)
    requires
        name@.len() * 4 < 0xFFFF_FF00,
        symbol@.len() * 4 < 0xFFFF_FF00,
        uri@.len() * 4 < 0xFFFF_FF00,
    ensures
        r.program@ == metadata_program_id_spec(),
        r.metas@.len() == 7,
        r.metas@[0].key@ == metadata@ && !r.metas@[0].is_signer && r.metas@[0].is_writable,
        r.metas@[1].key@ == mint@ && !r.metas@[1].is_signer && !r.metas@[1].is_writable,
        r.metas@[2].key@ == authority@ && r.metas@[2].is_signer && !r.metas@[2].is_writable,
        r.metas@[3].key@ == authority@ && r.metas@[3].is_signer && r.metas@[3].is_writable,
        r.metas@[4].key@ == authority@ && r.metas@[4].is_signer && !r.metas@[4].is_writable,
        r.metas@[5].key@ == system_program@ && !r.metas@[5].is_signer && !r.metas@[5].is_writable,
        r.metas@[6].key@ == rent@ && !r.metas@[6].is_signer && !r.metas@[6].is_writable,
        r.data@ == metadata_args_data(name@, symbol@, uri@),
{
    let mut metas: Vec<MetaParts> = Vec::new();
    metas.push(MetaParts { key: *metadata, is_signer: false, is_writable: true });
    metas.push(MetaParts { key: *mint, is_signer: false, is_writable: false });
    metas.push(MetaParts { key: *authority, is_signer: true, is_writable: false });
    metas.push(MetaParts { key: *authority, is_signer: true, is_writable: true });
    metas.push(MetaParts { key: *authority, is_signer: true, is_writable: false });
    metas.push(MetaParts { key: *system_program, is_signer: false, is_writable: false });
    metas.push(MetaParts { key: *rent, is_signer: false, is_writable: false });
    let data = metadata_instruction_data(name, symbol, uri);
    IxParts { program: metadata_program_id(), metas, data }
}

/// The three delegated calls of one issuance, in execution order: apply the
/// non-transferable restriction to the still-empty mint, deposit exactly
/// one unit into the holding account, then bind the immutable record.
pub struct IssuancePlan {
    pub init_non_transferable: IxParts,
    pub mint_one: IxParts,
    pub create_metadata: IxParts,
}

/// Builds the delegated calls of one issuance for a requester. The mint,
/// holding-account and record addresses are the ones validated against
/// their derivations; the requester signs as mint, update and funding
/// authority. The deposited amount is exactly one unit.
pub fn build_issuance_plan(
    payer: &[u8; 32],
    mint: &[u8; 32],
    holding: &[u8; 32],
    metadata: &[u8; 32],
    system_program: &[u8; 32],
    rent: &[u8; 32],
    cid: &str,
) -> (r: IssuancePlan)
    requires
        cid@.len() * 4 < 0xFFFF_FE00,
    ensures
        r.init_non_transferable.program@ == token_program_id_spec(),
        r.init_non_transferable.data@ == seq![32u8],
        r.init_non_transferable.metas@.len() == 1,
        r.init_non_transferable.metas@[0].key@ == mint@,
        r.init_non_transferable.metas@[0].is_writable,
        r.mint_one.program@ == token_program_id_spec(),
        r.mint_one.data@ == seq![7u8] + vstd::bytes::spec_u64_to_le_bytes(1u64),
        r.mint_one.metas@.len() == 3,
        r.mint_one.metas@[0].key@ == mint@,
        r.mint_one.metas@[1].key@ == holding@,
        r.mint_one.metas@[2].key@ == payer@ && r.mint_one.metas@[2].is_signer,
        r.create_metadata.program@ == metadata_program_id_spec(),
        r.create_metadata.data@ == metadata_args_data(
            cert_name_spec(cid@),
            cert_symbol_spec(),
            cert_uri_spec(cid@),
        ),
        r.create_metadata.metas@.len() == 7,
        r.create_metadata.metas@[0].key@ == metadata@,
        r.create_metadata.metas@[1].key@ == mint@,
        r.create_metadata.metas@[2].key@ == payer@ && r.create_metadata.metas@[2].is_signer,
        r.create_metadata.metas@[3].key@ == payer@ && r.create_metadata.metas@[3].is_writable,
        r.create_metadata.metas@[4].key@ == payer@,
        r.create_metadata.metas@[5].key@ == system_program@,
        r.create_metadata.metas@[6].key@ == rent@,
{
    let name = cert_name(cid);
    let symbol = cert_symbol();
    let uri = cert_uri(cid);
    proof {
        reveal_strlit("Soulbound Cert ");
        reveal_strlit("SBT");
        reveal_strlit("https://gateway.pinata.cloud/ipfs/");
    }
    IssuancePlan {
        init_non_transferable: build_init_non_transferable(mint),
        mint_one: build_mint_to(mint, holding, payer, 1),
        create_metadata: build_create_metadata(
            metadata,
            mint,
            payer,
            system_program,
            rent,
            name,
            symbol,
            uri,
        ),
    }
}

} // verus!
