//! Properties that hold across the game's instructions.
use vstd::prelude::*;
use vstd::utf8::encode_utf8;

use crate::cpi::Caller;
use crate::crafting::{
    burn_call_for, craft_item_error, item_name, item_symbol, item_uri, planned_burns,
    recipe_spec, CraftingError, ResourceBurnCall, CRAFTING_ACCOUNTS,
};
use crate::error::InstructionError;
use crate::item_nft::{create_item_nft_error, ItemNftError, ITEM_TYPE_COUNT};
use crate::key::Key;
use crate::magic_token::mint_magic_token_error;
use crate::marketplace::{
    buy_item_error, cancel_listing_error, new_listing, settled, Listing, MarketplaceError,
};
use crate::resource_manager::{
    create_resource_mint_error, resource_change_error, GameConfig, GameError, Player,
};
use crate::search::{
    found_resources, search_error, search_mints, search_seed, SearchError, SEARCH_ACCOUNTS,
    SEARCH_COOLDOWN,
};
use crate::token_metadata::borsh_encodable;

verus! {

/// Total amount of `resource` that a list of burns destroys.
pub open spec fn burned(burns: Seq<ResourceBurnCall>, resource: u8) -> int
    decreases burns.len(),
{
    if burns.len() == 0 {
        0
    } else {
        burned(burns.drop_last(), resource) + if burns.last().resource_index == resource {
            burns.last().amount as int
        } else {
            0
        }
    }
}

proof fn lemma_planned_burns(recipe: Seq<u64>, resource: u8)
    requires
        recipe.len() <= 6,
    ensures
        burned(planned_burns(recipe), resource) == if resource < recipe.len() {
            recipe[resource as int] as int
        } else {
            0
        },
        forall|k: int|
            0 <= k < planned_burns(recipe).len() ==> {
                let c = #[trigger] planned_burns(recipe)[k];
                &&& c.resource_index < recipe.len()
                &&& c.amount > 0
                &&& c.amount == recipe[c.resource_index as int]
                &&& c.mint_account == 2 * c.resource_index
                &&& c.token_account == c.mint_account + 1
            },
    decreases recipe.len(),
{
    if recipe.len() > 0 {
        let before = recipe.drop_last();
        lemma_planned_burns(before, resource);
        let n = recipe.len() - 1;
        if recipe.last() > 0 {
            let call = burn_call_for(n, recipe.last());
            let burns = planned_burns(before).push(call);
            assert(burns.drop_last() =~= planned_burns(before));
            assert(call.resource_index == n);
        }
    }
}

/// A successful search at `now` comes at least sixty seconds after the
/// player's previous one; after it, the same player's next search fails with
/// the cooldown error until sixty more seconds have passed, and succeeds from
/// then on.
pub proof fn searches_are_sixty_seconds_apart(
    player: Player,
    owner: Key,
    now: i64,
    later: i64,
    remaining_accounts: usize,
)
    requires
        search_error(player, owner, now, remaining_accounts) is None,
    ensures
        now >= player.last_search_timestamp + SEARCH_COOLDOWN,
        later - now < SEARCH_COOLDOWN ==> search_error(
            Player { last_search_timestamp: now, ..player },
            owner,
            later,
            remaining_accounts,
        ) == Some(InstructionError::Search(SearchError::SearchCooldownActive)),
        later - now >= SEARCH_COOLDOWN ==> search_error(
            Player { last_search_timestamp: now, ..player },
            owner,
            later,
            remaining_accounts,
        ) is None,
{
}

/// A newly registered player may search, with the accounts of all six
/// resources, once the clock reads sixty seconds or more.
pub proof fn new_player_may_search(owner: Key, bump: u8, now: i64)
    ensures
        (search_error(
            Player { owner, last_search_timestamp: 0, bump },
            owner,
            now,
            SEARCH_ACCOUNTS,
        ) is None) <==> now >= SEARCH_COOLDOWN,
{
}

/// A search finds three resources, each a valid resource index, and asks for
/// exactly three mints of one unit each, one per found resource; the
/// resource manager accepts every one of them from the search program, and
/// each names a mint and a token account among the accounts a search requires.
pub proof fn search_mints_are_accepted(unix_timestamp: i64, slot: u64)
    ensures
        found_resources(search_seed(unix_timestamp, slot)).len() == 3,
        search_mints(found_resources(search_seed(unix_timestamp, slot))).len() == 3,
        forall|k: int|
            0 <= k < 3 ==> {
                let r = #[trigger] found_resources(search_seed(unix_timestamp, slot))[k];
                let c = search_mints(found_resources(search_seed(unix_timestamp, slot)))[k];
                &&& r < 6
                &&& c.resource_index == r
                &&& c.amount == 1
                &&& resource_change_error(Caller::SearchProgram, c.resource_index, c.amount) is None
                &&& c.mint_account == 2 * r
                &&& c.token_account == 2 * r + 1
                &&& c.mint_account < c.token_account < SEARCH_ACCOUNTS
            },
{
}

/// The three resources a search finds come from the clock: the timestamp's
/// bits XOR the slot give the seed, and the resources are the seed, the seed
/// divided by seven and the seed divided by thirteen, each modulo six.
pub proof fn search_finds_by_timestamp_and_slot(unix_timestamp: i64, slot: u64)
    ensures
        search_seed(unix_timestamp, slot) == (unix_timestamp as u64) ^ slot,
        found_resources(search_seed(unix_timestamp, slot))[0] == ((unix_timestamp as u64) ^ slot)
            % 6,
        found_resources(search_seed(unix_timestamp, slot))[1] == (((unix_timestamp as u64) ^ slot)
            / 7) % 6,
        found_resources(search_seed(unix_timestamp, slot))[2] == (((unix_timestamp as u64) ^ slot)
            / 13) % 6,
{
}

/// A search is refused exactly when the signer is not the player's owner,
/// fewer than sixty seconds have passed since the last search, or the
/// accounts of the six resources are not all passed along; the owner is
/// checked first, then the cooldown.
pub proof fn search_refusals(player: Player, owner: Key, unix_timestamp: i64, remaining: usize)
    ensures
        (search_error(player, owner, unix_timestamp, remaining) is None) <==> (player.owner == owner
            && unix_timestamp - player.last_search_timestamp >= 60 && remaining >= 12),
        player.owner != owner ==> search_error(player, owner, unix_timestamp, remaining) == Some(
            InstructionError::ConstraintSeeds,
        ),
        player.owner == owner && unix_timestamp - player.last_search_timestamp < 60 ==> search_error(
            player,
            owner,
            unix_timestamp,
            remaining,
        ) == Some(InstructionError::Search(SearchError::SearchCooldownActive)),
{
}

/// Crafting burns exactly the item's recipe: for every resource, the burned
/// amounts add up to what the recipe asks for; the resource manager accepts
/// every burn from the crafting program, and each names a mint and a token
/// account among the accounts crafting requires.
pub proof fn crafting_burns_exactly_the_recipe(item_type: u8, resource: u8)
    requires
        item_type < ITEM_TYPE_COUNT,
    ensures
        burned(planned_burns(recipe_spec(item_type)), resource) == if resource < 6 {
            recipe_spec(item_type)[resource as int] as int
        } else {
            0
        },
        forall|k: int|
            0 <= k < planned_burns(recipe_spec(item_type)).len() ==> {
                let c = #[trigger] planned_burns(recipe_spec(item_type))[k];
                &&& resource_change_error(Caller::CraftingProgram, c.resource_index, c.amount)
                    is None
                &&& c.mint_account < c.token_account < CRAFTING_ACCOUNTS
            },
{
    lemma_planned_burns(recipe_spec(item_type), resource);
}

proof fn lemma_utf8_len(s: Seq<char>)
    ensures
        encode_utf8(s).len() <= 4 * s.len(),
    decreases s.len(),
{
    if s.len() > 0 {
        lemma_utf8_len(s.drop_first());
    }
}

/// The item a successful crafting asks for is one the item NFT program
/// creates when the crafting program asks: a valid item type, with a name,
/// symbol and metadata address short enough to encode.
pub proof fn crafted_item_is_creatable(item_type: u8, remaining_accounts: usize)
    requires
        craft_item_error(item_type, remaining_accounts) is None,
    ensures
        create_item_nft_error(Caller::CraftingProgram, item_type) is None,
        borsh_encodable(item_name(item_type)),
        borsh_encodable(item_symbol(item_type)),
        borsh_encodable(item_uri(item_type)),
{
    reveal_strlit("Cossack Saber");
    reveal_strlit("Elder Staff");
    reveal_strlit("Character Armor");
    reveal_strlit("Battle Bracelet");
    reveal_strlit("SABER");
    reveal_strlit("STAFF");
    reveal_strlit("ARMOR");
    reveal_strlit("BRACE");
    reveal_strlit("https://cossack-business.io/items/");
    reveal_strlit("0");
    reveal_strlit("1");
    reveal_strlit("2");
    reveal_strlit("3");
    reveal_strlit(".json");
    lemma_utf8_len(item_name(item_type));
    lemma_utf8_len(item_symbol(item_type));
    lemma_utf8_len(item_uri(item_type));
}

/// Crafting costs what the item table says, by resource (wood, iron, gold,
/// leather, stone, diamond): the saber 1, 3, 0, 1, 0, 0; the staff 2, 0, 1,
/// 0, 0, 1; the armor 0, 2, 1, 4, 0, 0; the bracelet 0, 4, 2, 0, 0, 2.
pub proof fn crafting_costs_follow_the_item_table(item_type: u8, resource: u8)
    requires
        item_type < 4,
        resource < 6,
    ensures
        burned(planned_burns(recipe_spec(item_type)), resource) == (if item_type == 0 {
            seq![1int, 3, 0, 1, 0, 0]
        } else if item_type == 1 {
            seq![2int, 0, 1, 0, 0, 1]
        } else if item_type == 2 {
            seq![0int, 2, 1, 4, 0, 0]
        } else {
            seq![0int, 4, 2, 0, 0, 2]
        })[resource as int],
{
    crafting_burns_exactly_the_recipe(item_type, resource);
}

/// Crafting is refused exactly for an unknown item type or fewer than the
/// twelve accounts of the six resources; the item type is checked first.
pub proof fn crafting_refusals(item_type: u8, remaining: usize)
    ensures
        (craft_item_error(item_type, remaining) is None) <==> (item_type <= 3 && remaining >= 12),
        item_type > 3 ==> craft_item_error(item_type, remaining) == Some(
            InstructionError::Crafting(CraftingError::InvalidItemType),
        ),
{
}

/// The item NFT program creates an item exactly when the crafting program
/// asks for one of the four item types.
pub proof fn item_creation_refusals(caller: Caller, item_type: u8)
    ensures
        (create_item_nft_error(caller, item_type) is None) <==> (caller == Caller::CraftingProgram
            && item_type <= 3),
        caller != Caller::CraftingProgram ==> create_item_nft_error(caller, item_type) == Some(
            InstructionError::ItemNft(ItemNftError::Unauthorized),
        ),
{
}

/// The resource manager mints or burns exactly when the search or crafting
/// program asks, for one of the six resources and a positive amount.
pub proof fn resource_change_refusals(caller: Caller, resource_index: u8, amount: u64)
    ensures
        (resource_change_error(caller, resource_index, amount) is None) <==> ((caller
            == Caller::SearchProgram || caller == Caller::CraftingProgram) && resource_index <= 5
            && amount >= 1),
        !(caller == Caller::SearchProgram || caller == Caller::CraftingProgram)
            ==> resource_change_error(caller, resource_index, amount) == Some(
            InstructionError::Game(GameError::Unauthorized),
        ),
{
}

/// The administrator can register the mint of each of the six resources,
/// diamond (index 5) included, and of no other index; nobody else can
/// register any.
pub proof fn admin_registers_every_resource(config: GameConfig, admin: Key, resource_index: u8)
    ensures
        (create_resource_mint_error(config, admin, resource_index) is None) <==> (config.admin
            == admin && resource_index <= 5),
        config.admin != admin ==> create_resource_mint_error(config, admin, resource_index) == Some(
            InstructionError::ConstraintHasOne,
        ),
        config.admin == admin && resource_index > 5 ==> create_resource_mint_error(
            config,
            admin,
            resource_index,
        ) == Some(InstructionError::Game(GameError::InvalidResourceIndex)),
{
}

/// MagicToken is minted exactly when the marketplace asks for a positive amount.
pub proof fn magic_mint_refusals(caller: Caller, amount: u64)
    ensures
        (mint_magic_token_error(caller, amount) is None) <==> (caller == Caller::MarketplaceProgram
            && amount >= 1),
{
}

/// A listing records exactly what the seller asked: the seller, the item's
/// mint and type, the price and the bump, and it starts active.
pub proof fn listing_records_the_asked_terms(
    seller: Key,
    item_mint: Key,
    item_type: u8,
    listing_bump: u8,
    price: u64,
)
    ensures
        new_listing(seller, item_mint, item_type, listing_bump, price).price == price,
        new_listing(seller, item_mint, item_type, listing_bump, price).seller == seller,
        new_listing(seller, item_mint, item_type, listing_bump, price).item_mint == item_mint,
        new_listing(seller, item_mint, item_type, listing_bump, price).item_type == item_type,
        new_listing(seller, item_mint, item_type, listing_bump, price).bump == listing_bump,
        new_listing(seller, item_mint, item_type, listing_bump, price).is_active,
{
}

/// The seller can withdraw any active listing, whatever its price; nobody
/// else can withdraw it, and a closed listing cannot be withdrawn.
pub proof fn seller_may_withdraw_active_listing(listing: Listing, signer: Key)
    ensures
        (cancel_listing_error(listing, signer) is None) <==> (listing.is_active && signer
            == listing.seller),
        signer != listing.seller ==> cancel_listing_error(listing, signer) == Some(
            InstructionError::ConstraintHasOne,
        ),
        signer == listing.seller && !listing.is_active ==> cancel_listing_error(listing, signer)
            == Some(InstructionError::Marketplace(MarketplaceError::ListingNotActive)),
{
}

/// A listing can be bought exactly while it is active and with the payment
/// going to its seller.
pub proof fn purchase_refusals(listing: Listing, payee: Key)
    ensures
        (buy_item_error(listing, payee) is None) <==> (listing.is_active && payee == listing.seller),
{
}

/// Once a listing has been bought or cancelled it stays closed: a second
/// purchase or cancellation is refused.
pub proof fn settled_listing_stays_closed(listing: Listing, payee: Key)
    ensures
        !settled(listing).is_active,
        buy_item_error(settled(listing), payee) == Some(
            InstructionError::Marketplace(MarketplaceError::ListingNotActive),
        ),
        cancel_listing_error(settled(listing), listing.seller) == Some(
            InstructionError::Marketplace(MarketplaceError::ListingNotActive),
        ),
{
}

/// A listing the marketplace created can be bought only with the payment
/// going to its seller, and the MagicToken program accepts that payment from
/// the marketplace.
pub proof fn listed_sale_pays_its_seller(
    seller: Key,
    item_mint: Key,
    item_type: u8,
    listing_bump: u8,
    price: u64,
    payee: Key,
)
    requires
        price > 0,
    ensures
        (buy_item_error(new_listing(seller, item_mint, item_type, listing_bump, price), payee)
            is None) <==> payee == seller,
        mint_magic_token_error(
            Caller::MarketplaceProgram,
            new_listing(seller, item_mint, item_type, listing_bump, price).price,
        ) is None,
{
}

} // verus!
