//! The item NFT program: records each crafted item and mints it as a
//! one-of-a-kind token with its metadata.
use vstd::prelude::*;

use crate::cpi::{item_authority_seeds, item_authority_seeds_spec, Caller, TokenCpi};
use crate::error::InstructionError;
use crate::key::Key;
use crate::token_metadata::{
    borsh_encodable, create_master_edition_v3_accounts, create_master_edition_v3_data,
    create_master_edition_v3_instruction, create_metadata_v3_accounts, create_metadata_v3_data,
    create_metadata_v3_instruction, metadata_program_id, MasterEditionKeys, MetadataAccountKeys,
    RawInstruction,
};

verus! {

/// Number of item kinds: saber, staff, armor, bracelet.
pub const ITEM_TYPE_COUNT: u8 = 4;

/// On-chain record of a game item.
#[derive(Clone, Copy, Debug, PartialEq, Eq)]
pub struct ItemMetadata {
    /// Item type (0=Saber, 1=Staff, 2=Armor, 3=Bracelet)
    pub item_type: u8,
    /// Current owner of the item
    pub owner: Key,
    /// NFT mint address
    pub mint: Key,
    /// Bump of this record's address
    pub bump: u8,
}

#[derive(Clone, Copy, Debug, PartialEq, Eq, Structural)]
pub enum ItemNftError {
    InvalidItemType,
    Unauthorized,
}

impl ItemNftError {
    pub open spec fn spec_index(self) -> u32 {
        match self {
            ItemNftError::InvalidItemType => 0,
            ItemNftError::Unauthorized => 1,
        }
    }

    /// Position of the error in the program's error list.
    pub fn index(&self) -> (i: u32)
        ensures
            i == self.spec_index(),
    {
        match self {
            ItemNftError::InvalidItemType => 0,
            ItemNftError::Unauthorized => 1,
        }
    }

    pub fn message(&self) -> (m: &'static str)
        ensures
            m@ == self.spec_message(),
    {
        match self {
            ItemNftError::InvalidItemType => "Invalid item type. Must be 0-3.",
            ItemNftError::Unauthorized => "Items can only be created by crafting.",
        }
    }

    pub open spec fn spec_message(self) -> Seq<char> {
        match self {
            ItemNftError::InvalidItemType => "Invalid item type. Must be 0-3."@,
            ItemNftError::Unauthorized => "Items can only be created by crafting."@,
        }
    }
}

/// The error `create_item_nft` answers with, if any: items come into being
/// only through the crafting program, after it has burned their recipe.
pub open spec fn create_item_nft_error(caller: Caller, item_type: u8) -> Option<InstructionError> {
    if caller != Caller::CraftingProgram {
        Some(InstructionError::ItemNft(ItemNftError::Unauthorized))
    } else if item_type >= ITEM_TYPE_COUNT {
        Some(InstructionError::ItemNft(ItemNftError::InvalidItemType))
    } else {
        None
    }
}

/// What `create_item_nft` reads: the program that invoked it, the addresses
/// of the accounts an item NFT is created with, and the bumps of the item
/// record's and the item authority's addresses.
#[derive(Clone, Copy, Debug)]
pub struct CreateItemNft {
    pub caller: Caller,
    pub player: Key,
    pub item_mint: Key,
    pub item_authority: Key,
    pub metadata_account: Key,
    pub master_edition: Key,
    pub token_program: Key,
    pub system_program: Key,
    pub rent: Key,
    pub item_metadata_bump: u8,
    pub item_authority_bump: u8,
}

/// Everything creating an item NFT does: the record it writes, the one token
/// it mints to the player, and the Token Metadata instructions that create
/// the metadata and the master edition. The item authority signs every call
/// with the seeds of `nft_mint`.
#[derive(Debug)]
pub struct ItemNftPlan {
    pub metadata: ItemMetadata,
    pub nft_mint: TokenCpi,
    pub create_metadata: RawInstruction,
    pub create_master_edition: RawInstruction,
}

/// The metadata account's addresses: the item authority is mint authority
/// and, signing, update authority; the player pays.
pub open spec fn item_metadata_keys(a: CreateItemNft) -> MetadataAccountKeys {
    MetadataAccountKeys {
        metadata: a.metadata_account.bytes,
        mint: a.item_mint.bytes,
        mint_authority: a.item_authority.bytes,
        payer: a.player.bytes,
        update_authority: a.item_authority.bytes,
        update_authority_signs: true,
        system_program: a.system_program.bytes,
        rent: a.rent.bytes,
    }
}

/// The master edition's addresses.
pub open spec fn item_master_edition_keys(a: CreateItemNft) -> MasterEditionKeys {
    MasterEditionKeys {
        edition: a.master_edition.bytes,
        mint: a.item_mint.bytes,
        update_authority: a.item_authority.bytes,
        mint_authority: a.item_authority.bytes,
        payer: a.player.bytes,
        metadata: a.metadata_account.bytes,
        token_program: a.token_program.bytes,
        system_program: a.system_program.bytes,
        rent: a.rent.bytes,
    }
}

/// Creates an item NFT of type `item_type` for the player: a mutable
/// metadata account with no seller fee, and a master edition of which no
/// copies can be printed. Only the crafting program may ask for this.
pub fn create_item_nft(
    accounts: &CreateItemNft,
    item_type: u8,
    name: String,
    symbol: String,
    uri: String,
) -> (r: Result<ItemNftPlan, InstructionError>)
    requires
        borsh_encodable(name@),
        borsh_encodable(symbol@),
        borsh_encodable(uri@),
    ensures
        create_item_nft_error(accounts.caller, item_type) matches Some(e) ==> r == Err::<
            ItemNftPlan,
            InstructionError,
        >(e),
        create_item_nft_error(accounts.caller, item_type) is None ==> (r matches Ok(plan) && {
            &&& plan.metadata == (ItemMetadata {
                item_type,
                owner: accounts.player,
                mint: accounts.item_mint,
                bump: accounts.item_metadata_bump,
            })
            &&& plan.nft_mint.amount == 1
            &&& plan.nft_mint.seeds() == item_authority_seeds_spec(accounts.item_authority_bump)
            &&& plan.create_metadata.program_id@ == metadata_program_id()
            &&& plan.create_metadata.accounts@ == create_metadata_v3_accounts(
                item_metadata_keys(*accounts),
            )
            &&& plan.create_metadata.data@ == create_metadata_v3_data(
                name@,
                symbol@,
                uri@,
                0,
                true,
            )
            &&& plan.create_master_edition.program_id@ == metadata_program_id()
            &&& plan.create_master_edition.accounts@ == create_master_edition_v3_accounts(
                item_master_edition_keys(*accounts),
            )
            &&& plan.create_master_edition.data@ == create_master_edition_v3_data(Some(0u64))
        }),
{
    if accounts.caller != Caller::CraftingProgram {
        return Err(InstructionError::ItemNft(ItemNftError::Unauthorized));
    }
    if item_type >= ITEM_TYPE_COUNT {
        return Err(InstructionError::ItemNft(ItemNftError::InvalidItemType));
    }
    let metadata = ItemMetadata {
        item_type,
        owner: accounts.player,
        mint: accounts.item_mint,
        bump: accounts.item_metadata_bump,
    };
    let nft_mint = TokenCpi { amount: 1, signer_seeds: item_authority_seeds(accounts.item_authority_bump) };
    let metadata_keys = MetadataAccountKeys {
        metadata: accounts.metadata_account.bytes,
        mint: accounts.item_mint.bytes,
        mint_authority: accounts.item_authority.bytes,
        payer: accounts.player.bytes,
        update_authority: accounts.item_authority.bytes,
        update_authority_signs: true,
        system_program: accounts.system_program.bytes,
        rent: accounts.rent.bytes,
    };
    let create_metadata = create_metadata_v3_instruction(&metadata_keys, name, symbol, uri, 0, true);
    let edition_keys = MasterEditionKeys {
        edition: accounts.master_edition.bytes,
        mint: accounts.item_mint.bytes,
        update_authority: accounts.item_authority.bytes,
        mint_authority: accounts.item_authority.bytes,
        payer: accounts.player.bytes,
        metadata: accounts.metadata_account.bytes,
        token_program: accounts.token_program.bytes,
        system_program: accounts.system_program.bytes,
        rent: accounts.rent.bytes,
    };
    let create_master_edition = create_master_edition_v3_instruction(&edition_keys, Some(0));
    Ok(ItemNftPlan { metadata, nft_mint, create_metadata, create_master_edition })
}

} // verus!
