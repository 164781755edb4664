use cossack_business::cpi::Caller;
use cossack_business::error::InstructionError;
use cossack_business::item_nft::{create_item_nft, ItemMetadata, CreateItemNft, ItemNftError};
use cossack_business::key::Key;
use cossack_business::token_metadata::AccountRef;

fn key(b: u8) -> Key {
    Key::new([b; 32])
}

fn accounts() -> CreateItemNft {
    CreateItemNft {
        caller: Caller::CraftingProgram,
        player: key(1),
        item_mint: key(2),
        item_authority: key(3),
        metadata_account: key(4),
        master_edition: key(5),
        token_program: key(6),
        system_program: key(7),
        rent: key(8),
        item_metadata_bump: 250,
        item_authority_bump: 249,
    }
}

fn borsh_string(s: &str) -> Vec<u8> {
    let mut v = (s.len() as u32).to_le_bytes().to_vec();
    v.extend_from_slice(s.as_bytes());
    v
}

fn meta(b: u8, is_signer: bool, is_writable: bool) -> AccountRef {
    AccountRef { key: key(b), is_signer, is_writable }
}

#[test]
fn item_nft_records_owner_and_mints_one() {
    let plan = create_item_nft(&accounts(), 2, "Character Armor".to_string(), "ARMOR".to_string(), "u".to_string()).unwrap();
    assert_eq!(plan.metadata, ItemMetadata { item_type: 2, owner: key(1), mint: key(2), bump: 250 });
    assert_eq!(plan.nft_mint.amount, 1);
    assert_eq!(plan.nft_mint.signer_seeds, vec![b"item_authority".to_vec(), vec![249u8]]);
}

#[test]
fn item_nft_metadata_instruction() {
    let plan = create_item_nft(&accounts(), 0, "Cossack Saber".to_string(), "SABER".to_string(), "https://cossack-business.io/items/0.json".to_string()).unwrap();
    let ix = plan.create_metadata;
    assert_eq!(ix.program_id.bytes, mpl_token_metadata::ID.to_bytes());
    assert_eq!(ix.accounts, vec![meta(4, false, true), meta(2, false, false), meta(3, true, false), meta(1, true, true), meta(3, true, false), meta(7, false, false), meta(8, false, false)]);
    let mut data = vec![33u8];
    data.extend(borsh_string("Cossack Saber"));
    data.extend(borsh_string("SABER"));
    data.extend(borsh_string("https://cossack-business.io/items/0.json"));
    data.extend([0u8, 0]); // no seller fee
    data.extend([0u8, 0, 0]); // no creators, collection, uses
    data.push(1); // mutable
    data.push(0); // no collection details
    assert_eq!(ix.data, data);
}

#[test]
fn item_nft_master_edition_instruction() {
    let plan = create_item_nft(&accounts(), 3, "Battle Bracelet".to_string(), "BRACE".to_string(), "x".to_string()).unwrap();
    let ix = plan.create_master_edition;
    assert_eq!(ix.program_id.bytes, mpl_token_metadata::ID.to_bytes());
    assert_eq!(ix.accounts, vec![meta(5, false, true), meta(2, false, true), meta(3, true, false), meta(3, true, false), meta(1, true, true), meta(4, false, true), meta(6, false, false), meta(7, false, false), meta(8, false, false)]);
    assert_eq!(ix.data, vec![17u8, 1, 0, 0, 0, 0, 0, 0, 0, 0]);
}

#[test]
fn item_nft_rejects_unknown_type() {
    let r = create_item_nft(&accounts(), 4, String::new(), String::new(), String::new());
    assert_eq!(r.unwrap_err(), InstructionError::ItemNft(ItemNftError::InvalidItemType));
    assert_eq!(InstructionError::ItemNft(ItemNftError::InvalidItemType).code(), 6000);
    assert_eq!(ItemNftError::InvalidItemType.message(), "Invalid item type. Must be 0-3.");
}

#[test]
fn item_nft_only_from_crafting() {
    for caller in [Caller::Wallet, Caller::SearchProgram, Caller::MarketplaceProgram, Caller::OtherProgram] {
        let direct = CreateItemNft { caller, ..accounts() };
        let r = create_item_nft(&direct, 0, "Cossack Saber".to_string(), "SABER".to_string(), String::new());
        assert_eq!(r.unwrap_err(), InstructionError::ItemNft(ItemNftError::Unauthorized));
    }
    assert_eq!(InstructionError::ItemNft(ItemNftError::Unauthorized).code(), 6001);
    assert_eq!(ItemNftError::Unauthorized.message(), "Items can only be created by crafting.");
}
