//! The crafting program: a player burns the resources of a recipe and
//! receives the item as an NFT.
use vstd::prelude::*;

use crate::error::InstructionError;
use crate::item_nft::ITEM_TYPE_COUNT;

verus! {

/// Extra accounts crafting needs: the mint and the player's token account of
/// each of the six resources, in pairs.
pub const CRAFTING_ACCOUNTS: usize = 12;

#[derive(Clone, Copy, Debug, PartialEq, Eq, Structural)]
pub enum CraftingError {
    InvalidItemType,
    InsufficientAccounts,
}

impl CraftingError {
    pub open spec fn spec_index(self) -> u32 {
        match self {
            CraftingError::InvalidItemType => 0,
            CraftingError::InsufficientAccounts => 1,
        }
    }

    /// Position of the error in the program's error list.
    pub fn index(&self) -> (i: u32)
        ensures
            i == self.spec_index(),
    {
        match self {
            CraftingError::InvalidItemType => 0,
            CraftingError::InsufficientAccounts => 1,
        }
    }

    pub fn message(&self) -> (m: &'static str)
        ensures
            m@ == self.spec_message(),
    {
        match self {
            CraftingError::InvalidItemType => "Invalid item type. Must be 0-3.",
            CraftingError::InsufficientAccounts => "Insufficient remaining accounts for crafting.",
        }
    }

    pub open spec fn spec_message(self) -> Seq<char> {
        match self {
            CraftingError::InvalidItemType => "Invalid item type. Must be 0-3."@,
            CraftingError::InsufficientAccounts => "Insufficient remaining accounts for crafting."@,
        }
    }
}

/// A request to the resource manager to burn `amount` of resource
/// `resource_index`; the mint and the player's token account are the extra
/// accounts at positions `mint_account` and `token_account`.
#[derive(Clone, Copy, Debug, PartialEq, Eq, Structural)]
pub struct ResourceBurnCall {
    pub resource_index: u8,
    pub mint_account: usize,
    pub token_account: usize,
    pub amount: u64,
}

/// The item NFT that crafting asks the item NFT program to create.
#[derive(Debug)]
pub struct NftRequest {
    pub item_type: u8,
    pub name: String,
    pub symbol: String,
    pub uri: String,
}

/// The burns and the item of one crafting.
#[derive(Debug)]
pub struct CraftPlan {
    pub burns: Vec<ResourceBurnCall>,
    pub nft: NftRequest,
}

/// The resources an item costs, by resource: wood, iron, gold, leather, stone, diamond.
pub open spec fn recipe_spec(item_type: u8) -> Seq<u64> {
    if item_type == 0 {
        seq![1u64, 3, 0, 1, 0, 0]
    } else if item_type == 1 {
        seq![2u64, 0, 1, 0, 0, 1]
    } else if item_type == 2 {
        seq![0u64, 2, 1, 4, 0, 0]
    } else {
        seq![0u64, 4, 2, 0, 0, 2]
    }
}

/// The item's name.
pub open spec fn item_name(item_type: u8) -> Seq<char> {
    if item_type == 0 {
        "Cossack Saber"@
    } else if item_type == 1 {
        "Elder Staff"@
    } else if item_type == 2 {
        "Character Armor"@
    } else {
        "Battle Bracelet"@
    }
}

/// The item's token symbol.
pub open spec fn item_symbol(item_type: u8) -> Seq<char> {
    if item_type == 0 {
        "SABER"@
    } else if item_type == 1 {
        "STAFF"@
    } else if item_type == 2 {
        "ARMOR"@
    } else {
        "BRACE"@
    }
}

/// The decimal digit of an item type.
pub open spec fn item_digit(item_type: u8) -> Seq<char> {
    if item_type == 0 {
        "0"@
    } else if item_type == 1 {
        "1"@
    } else if item_type == 2 {
        "2"@
    } else {
        "3"@
    }
}

/// Where the item's metadata document lives.
pub open spec fn item_uri(item_type: u8) -> Seq<char> {
    "https://cossack-business.io/items/"@ + item_digit(item_type) + ".json"@
}

/// The burn of `amount` of `resource`, whose mint is the extra account at
/// position `2 * resource` and the player's token account the one after it.
pub open spec fn burn_call_for(resource: int, amount: u64) -> ResourceBurnCall {
    ResourceBurnCall {
        resource_index: resource as u8,
        mint_account: (2 * resource) as usize,
        token_account: (2 * resource + 1) as usize,
        amount,
    }
}

/// The burns of a recipe: one for each resource it needs, in resource order.
pub open spec fn planned_burns(recipe: Seq<u64>) -> Seq<ResourceBurnCall>
    decreases recipe.len(),
{
    if recipe.len() == 0 {
        Seq::empty()
    } else {
        let before = planned_burns(recipe.drop_last());
        if recipe.last() > 0 {
            before.push(burn_call_for(recipe.len() - 1, recipe.last()))
        } else {
            before
        }
    }
}

/// The recipe of an item type.
pub fn recipe(item_type: u8) -> (r: [u64; 6])
    requires
        item_type < ITEM_TYPE_COUNT,
    ensures
        r@ == recipe_spec(item_type),
{
    let r: [u64; 6] = if item_type == 0 {
        [1, 3, 0, 1, 0, 0]
    } else if item_type == 1 {
        [2, 0, 1, 0, 0, 1]
    } else if item_type == 2 {
        [0, 2, 1, 4, 0, 0]
    } else {
        [0, 4, 2, 0, 0, 2]
    };
    assert(r@ =~= recipe_spec(item_type));
    r
}

fn item_digit_str(item_type: u8) -> (s: &'static str)
    requires
        item_type < ITEM_TYPE_COUNT,
    ensures
        s@ == item_digit(item_type),
{
    if item_type == 0 {
        "0"
    } else if item_type == 1 {
        "1"
    } else if item_type == 2 {
        "2"
    } else {
        "3"
    }
}

/// The NFT request for an item type: its name, symbol and metadata address.
pub fn nft_request(item_type: u8) -> (req: NftRequest)
    requires
        item_type < ITEM_TYPE_COUNT,
    ensures
        req.item_type == item_type,
        req.name@ == item_name(item_type),
        req.symbol@ == item_symbol(item_type),
        req.uri@ == item_uri(item_type),
{
    let name = if item_type == 0 {
        String::from_str("Cossack Saber")
    } else if item_type == 1 {
        String::from_str("Elder Staff")
    } else if item_type == 2 {
        String::from_str("Character Armor")
    } else {
        String::from_str("Battle Bracelet")
    };
    let symbol = if item_type == 0 {
        String::from_str("SABER")
    } else if item_type == 1 {
        String::from_str("STAFF")
    } else if item_type == 2 {
        String::from_str("ARMOR")
    } else {
        String::from_str("BRACE")
    };
    let uri = String::from_str("https://cossack-business.io/items/").concat(
        item_digit_str(item_type),
    ).concat(".json");
    NftRequest { item_type, name, symbol, uri }
}

/// The error crafting answers with, if any.
pub open spec fn craft_item_error(item_type: u8, remaining_accounts: usize) -> Option<
    InstructionError,
> {
    if item_type >= ITEM_TYPE_COUNT {
        Some(InstructionError::Crafting(CraftingError::InvalidItemType))
    } else if remaining_accounts < CRAFTING_ACCOUNTS {
        Some(InstructionError::Crafting(CraftingError::InsufficientAccounts))
    } else {
        None
    }
}

/// Crafts an item of type `item_type` (0=Saber, 1=Staff, 2=Armor,
/// 3=Bracelet) with `remaining_accounts` extra accounts passed along.
pub fn craft_item(item_type: u8, remaining_accounts: usize) -> (r: Result<
    CraftPlan,
    InstructionError,
>)
    ensures
        match craft_item_error(item_type, remaining_accounts) {
            Some(e) => r == Err::<CraftPlan, InstructionError>(e),
            None => r matches Ok(plan) && {
                &&& plan.burns@ == planned_burns(recipe_spec(item_type))
                &&& plan.nft.item_type == item_type
                &&& plan.nft.name@ == item_name(item_type)
                &&& plan.nft.symbol@ == item_symbol(item_type)
                &&& plan.nft.uri@ == item_uri(item_type)
            },
        },
{
    if item_type >= ITEM_TYPE_COUNT {
        return Err(InstructionError::Crafting(CraftingError::InvalidItemType));
    }
    let recipe = recipe(item_type);
    if remaining_accounts < CRAFTING_ACCOUNTS {
        return Err(InstructionError::Crafting(CraftingError::InsufficientAccounts));
    }
    let mut burns: Vec<ResourceBurnCall> = Vec::new();
    let mut i: u8 = 0;
    while i < 6
        invariant
            i <= 6,
            recipe@ == recipe_spec(item_type),
            burns@ == planned_burns(recipe@.take(i as int)),
        decreases 6 - i,
    {
        let required: u64 = recipe[i as usize];
        if required > 0 {
            let mint_idx: usize = (i as usize) * 2;
            let token_idx: usize = mint_idx + 1;
            burns.push(
                ResourceBurnCall {
                    resource_index: i,
                    mint_account: mint_idx,
                    token_account: token_idx,
                    amount: required,
                },
            );
        }
        assert(recipe@.take(i + 1).drop_last() =~= recipe@.take(i as int));
        i = i + 1;
    }
    assert(recipe@.take(6) =~= recipe@);
    Ok(CraftPlan { burns, nft: nft_request(item_type) })
}

} // verus!
