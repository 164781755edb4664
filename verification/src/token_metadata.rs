//! Instructions of the Metaplex Token Metadata program that item NFTs use,
//! built by the `mpl_token_metadata` crate.
use vstd::prelude::*;
use vstd::utf8::encode_utf8;

use mpl_token_metadata::instructions::{
    CreateMasterEditionV3, CreateMasterEditionV3InstructionArgs, CreateMetadataAccountV3,
    CreateMetadataAccountV3InstructionArgs,
};
use mpl_token_metadata::types::DataV2;

use crate::key::Key;

verus! {

/// An account an instruction touches, and how.
#[derive(Clone, Copy, Debug, PartialEq, Eq)]
pub struct AccountRef {
    pub key: Key,
    pub is_signer: bool,
    pub is_writable: bool,
}

/// An instruction for another program, as plain values.
#[derive(Clone, Debug, PartialEq, Eq)]
pub struct RawInstruction {
    pub program_id: Key,
    pub accounts: Vec<AccountRef>,
    pub data: Vec<u8>,
}

/// The addresses of the accounts of a `CreateMetadataAccountV3` instruction.
#[derive(Clone, Copy, Debug)]
pub struct MetadataAccountKeys {
    pub metadata: [u8; 32],
    pub mint: [u8; 32],
    pub mint_authority: [u8; 32],
    pub payer: [u8; 32],
    pub update_authority: [u8; 32],
    pub update_authority_signs: bool,
    pub system_program: [u8; 32],
    pub rent: [u8; 32],
}

/// The addresses of the accounts of a `CreateMasterEditionV3` instruction.
#[derive(Clone, Copy, Debug)]
pub struct MasterEditionKeys {
    pub edition: [u8; 32],
    pub mint: [u8; 32],
    pub update_authority: [u8; 32],
    pub mint_authority: [u8; 32],
    pub payer: [u8; 32],
    pub metadata: [u8; 32],
    pub token_program: [u8; 32],
    pub system_program: [u8; 32],
    pub rent: [u8; 32],
}

/// The address of the Token Metadata program, `metaqbxxUerdq28cj1RbAWkYQm3ybzjb6a8bt518x1s`.
pub open spec fn metadata_program_id() -> Seq<u8> {
    seq![
        11u8, 112, 101, 177, 227, 209, 124, 69, 56, 157, 82, 127, 107, 4, 195, 205,
        88, 184, 108, 115, 26, 160, 253, 181, 73, 182, 209, 188, 3, 248, 41, 70,
    ]
}

pub open spec fn account_ref(key: [u8; 32], is_signer: bool, is_writable: bool) -> AccountRef {
    AccountRef { key: Key { bytes: key }, is_signer, is_writable }
}

/// Little-endian bytes of a 16-bit number.
pub open spec fn le_u16(n: u16) -> Seq<u8> {
    seq![(n % 256) as u8, (n / 256) as u8]
}

/// Little-endian bytes of a 32-bit number.
pub open spec fn le_u32(n: nat) -> Seq<u8> {
    seq![
        (n % 256) as u8,
        ((n / 256) % 256) as u8,
        ((n / 65536) % 256) as u8,
        ((n / 16777216) % 256) as u8,
    ]
}

/// Little-endian bytes of a 64-bit number.
pub open spec fn le_u64(n: u64) -> Seq<u8> {
    le_u32((n % 4294967296) as nat) + le_u32((n / 4294967296) as nat)
}

/// Borsh encoding of a string: its UTF-8 length as four bytes, then the UTF-8 bytes.
pub open spec fn borsh_string(s: Seq<char>) -> Seq<u8> {
    le_u32(encode_utf8(s).len()) + encode_utf8(s)
}

/// Borsh encoding of a boolean.
pub open spec fn borsh_bool(b: bool) -> Seq<u8> {
    seq![if b { 1u8 } else { 0u8 }]
}

/// Borsh encoding of an optional 64-bit number.
pub open spec fn borsh_option_u64(o: Option<u64>) -> Seq<u8> {
    match o {
        None => seq![0u8],
        Some(v) => seq![1u8] + le_u64(v),
    }
}

/// Whether a string's UTF-8 encoding is short enough for Borsh to encode its length.
pub open spec fn borsh_encodable(s: Seq<char>) -> bool {
    encode_utf8(s).len() <= u32::MAX
}

/// Data of `CreateMetadataAccountV3`: its discriminator, then the metadata
/// with no creators, collection or uses, mutability, and no collection details.
pub open spec fn create_metadata_v3_data(
    name: Seq<char>,
    symbol: Seq<char>,
    uri: Seq<char>,
    seller_fee_basis_points: u16,
    is_mutable: bool,
) -> Seq<u8> {
    seq![33u8] + borsh_string(name) + borsh_string(symbol) + borsh_string(uri) + le_u16(
        seller_fee_basis_points,
    ) + seq![0u8, 0u8, 0u8] + borsh_bool(is_mutable) + seq![0u8]
}

pub open spec fn create_metadata_v3_accounts(k: MetadataAccountKeys) -> Seq<AccountRef> {
    seq![
        account_ref(k.metadata, false, true),
        account_ref(k.mint, false, false),
        account_ref(k.mint_authority, true, false),
        account_ref(k.payer, true, true),
        account_ref(k.update_authority, k.update_authority_signs, false),
        account_ref(k.system_program, false, false),
        account_ref(k.rent, false, false),
    ]
}

/// Data of `CreateMasterEditionV3`: its discriminator, then the maximum supply.
pub open spec fn create_master_edition_v3_data(max_supply: Option<u64>) -> Seq<u8> {
    seq![17u8] + borsh_option_u64(max_supply)
}

pub open spec fn create_master_edition_v3_accounts(k: MasterEditionKeys) -> Seq<AccountRef> {
    seq![
        account_ref(k.edition, false, true),
        account_ref(k.mint, false, true),
        account_ref(k.update_authority, true, false),
        account_ref(k.mint_authority, true, false),
        account_ref(k.payer, true, true),
        account_ref(k.metadata, false, true),
        account_ref(k.token_program, false, false),
        account_ref(k.system_program, false, false),
        account_ref(k.rent, false, false),
    ]
}

/// Builds the Token Metadata `CreateMetadataAccountV3` instruction through
/// `mpl_token_metadata::instructions::CreateMetadataAccountV3::instruction`,
/// for metadata without creators, collection, uses or collection details,
/// with a rent account. The crate's source lists the seven accounts in this
/// order with these flags, writes discriminator 33, and appends the Borsh
/// encoding of the arguments; Borsh cannot encode a string longer than
/// `u32::MAX` bytes, and the builder panics on one.
#[verifier::external_body]
pub(crate) fn create_metadata_v3_instruction(
    k: &MetadataAccountKeys,
    name: String,
    symbol: String,
    uri: String,
    seller_fee_basis_points: u16,
    is_mutable: bool,
) -> (ix: RawInstruction)
    requires
        borsh_encodable(name@),
        borsh_encodable(symbol@),
        borsh_encodable(uri@),
    ensures
        ix.program_id@ == metadata_program_id(),
        ix.accounts@ == create_metadata_v3_accounts(*k),
        ix.data@ == create_metadata_v3_data(name@, symbol@, uri@, seller_fee_basis_points, is_mutable),
{
    let ix = CreateMetadataAccountV3 { metadata: k.metadata.into(), mint: k.mint.into(),
        mint_authority: k.mint_authority.into(), payer: k.payer.into(),
        update_authority: (k.update_authority.into(), k.update_authority_signs),
        system_program: k.system_program.into(), rent: Some(k.rent.into()) }
    .instruction(CreateMetadataAccountV3InstructionArgs { data: DataV2 { name, symbol, uri,
        seller_fee_basis_points, creators: None, collection: None, uses: None }, is_mutable,
        collection_details: None });
    RawInstruction { program_id: Key { bytes: ix.program_id.to_bytes() }, data: ix.data,
        accounts: ix.accounts.iter().map(|m| AccountRef { key: Key { bytes: m.pubkey.to_bytes() },
        is_signer: m.is_signer, is_writable: m.is_writable }).collect() }
}

/// Builds the Token Metadata `CreateMasterEditionV3` instruction through
/// `mpl_token_metadata::instructions::CreateMasterEditionV3::instruction`,
/// with a rent account. The crate's source lists the nine accounts in this
/// order with these flags, writes discriminator 17, and appends the Borsh
/// encoding of the maximum supply.
#[verifier::external_body]
pub(crate) fn create_master_edition_v3_instruction(k: &MasterEditionKeys, max_supply: Option<u64>) -> (ix:
    RawInstruction)
    ensures
        ix.program_id@ == metadata_program_id(),
        ix.accounts@ == create_master_edition_v3_accounts(*k),
        ix.data@ == create_master_edition_v3_data(max_supply),
{
    let ix = CreateMasterEditionV3 { edition: k.edition.into(), mint: k.mint.into(),
        update_authority: k.update_authority.into(), mint_authority: k.mint_authority.into(),
        payer: k.payer.into(), metadata: k.metadata.into(),
        token_program: k.token_program.into(), system_program: k.system_program.into(),
        rent: Some(k.rent.into()) }.instruction(CreateMasterEditionV3InstructionArgs { max_supply });
    RawInstruction { program_id: Key { bytes: ix.program_id.to_bytes() }, data: ix.data,
        accounts: ix.accounts.iter().map(|m| AccountRef { key: Key { bytes: m.pubkey.to_bytes() },
        is_signer: m.is_signer, is_writable: m.is_writable }).collect() }
}

} // verus!
