use cossack_business::cpi::Caller;
use cossack_business::crafting::{craft_item, recipe, CraftingError, ResourceBurnCall};
use cossack_business::error::InstructionError;
use cossack_business::item_nft::{create_item_nft, CreateItemNft};
use cossack_business::key::Key;
use cossack_business::resource_manager::{burn_resource, BurnResource};

fn burn(resource_index: u8, amount: u64) -> ResourceBurnCall {
    ResourceBurnCall {
        resource_index,
        mint_account: 2 * resource_index as usize,
        token_account: 2 * resource_index as usize + 1,
        amount,
    }
}

#[test]
fn recipes_match_the_item_table() {
    // wood, iron, gold, leather, stone, diamond
    assert_eq!(recipe(0), [1, 3, 0, 1, 0, 0]);
    assert_eq!(recipe(1), [2, 0, 1, 0, 0, 1]);
    assert_eq!(recipe(2), [0, 2, 1, 4, 0, 0]);
    assert_eq!(recipe(3), [0, 4, 2, 0, 0, 2]);
}

#[test]
fn crafting_saber_burns_iron_wood_leather() {
    let plan = craft_item(0, 12).unwrap();
    assert_eq!(plan.burns, vec![burn(0, 1), burn(1, 3), burn(3, 1)]);
    assert_eq!(plan.nft.item_type, 0);
    assert_eq!(plan.nft.name, "Cossack Saber");
    assert_eq!(plan.nft.symbol, "SABER");
    assert_eq!(plan.nft.uri, "https://cossack-business.io/items/0.json");
}

#[test]
fn crafting_each_item_names_it() {
    let staff = craft_item(1, 12).unwrap();
    assert_eq!(staff.burns, vec![burn(0, 2), burn(2, 1), burn(5, 1)]);
    assert_eq!((staff.nft.name.as_str(), staff.nft.symbol.as_str()), ("Elder Staff", "STAFF"));
    assert_eq!(staff.nft.uri, "https://cossack-business.io/items/1.json");
    let armor = craft_item(2, 20).unwrap();
    assert_eq!(armor.burns, vec![burn(1, 2), burn(2, 1), burn(3, 4)]);
    assert_eq!((armor.nft.name.as_str(), armor.nft.symbol.as_str()), ("Character Armor", "ARMOR"));
    assert_eq!(armor.nft.uri, "https://cossack-business.io/items/2.json");
    let bracelet = craft_item(3, 12).unwrap();
    assert_eq!(bracelet.burns, vec![burn(1, 4), burn(2, 2), burn(5, 2)]);
    assert_eq!((bracelet.nft.name.as_str(), bracelet.nft.symbol.as_str()), ("Battle Bracelet", "BRACE"));
    assert_eq!(bracelet.nft.uri, "https://cossack-business.io/items/3.json");
}

#[test]
fn crafting_rejects_unknown_item() {
    assert_eq!(craft_item(4, 12).unwrap_err(), InstructionError::Crafting(CraftingError::InvalidItemType));
    assert_eq!(craft_item(255, 0).unwrap_err(), InstructionError::Crafting(CraftingError::InvalidItemType));
}

#[test]
fn crafting_needs_twelve_accounts() {
    assert_eq!(craft_item(0, 11).unwrap_err(), InstructionError::Crafting(CraftingError::InsufficientAccounts));
    assert!(craft_item(0, 12).is_ok());
}

#[test]
fn crafting_burns_total_recipe_and_pass_resource_manager() {
    for t in 0u8..4 {
        let plan = craft_item(t, 12).unwrap();
        let mut totals = [0u64; 6];
        for b in plan.burns.iter() {
            totals[b.resource_index as usize] += b.amount;
            assert!(burn_resource(&BurnResource { caller: Caller::CraftingProgram }, b.resource_index, b.amount).is_ok());
            assert!(b.token_account < 12);
        }
        assert_eq!(totals, recipe(t));
    }
}

#[test]
fn crafting_error_codes_and_messages() {
    assert_eq!(InstructionError::Crafting(CraftingError::InvalidItemType).code(), 6000);
    assert_eq!(InstructionError::Crafting(CraftingError::InsufficientAccounts).code(), 6001);
    assert_eq!(CraftingError::InvalidItemType.message(), "Invalid item type. Must be 0-3.");
    assert_eq!(CraftingError::InsufficientAccounts.message(), "Insufficient remaining accounts for crafting.");
}

#[test]
fn crafted_item_request_is_creatable() {
    let k = Key::new([1u8; 32]);
    let accounts = CreateItemNft { caller: Caller::CraftingProgram, player: k, item_mint: k, item_authority: k, metadata_account: k, master_edition: k, token_program: k, system_program: k, rent: k, item_metadata_bump: 0, item_authority_bump: 0 };
    for t in 0u8..4 {
        let req = craft_item(t, 12).unwrap().nft;
        let plan = create_item_nft(&accounts, req.item_type, req.name, req.symbol, req.uri).unwrap();
        assert_eq!(plan.metadata.item_type, t);
    }
}
