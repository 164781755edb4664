//! The resource manager: game configuration, player registration, and the
//! six resource tokens, which only the search and crafting programs may mint
//! or burn.
use vstd::prelude::*;

use crate::cpi::{resource_mint_seeds, resource_mint_seeds_spec, Caller, TokenCpi};
use crate::error::InstructionError;
use crate::key::Key;

verus! {

/// Number of resource kinds: wood, iron, gold, leather, stone, diamond.
pub const RESOURCE_COUNT: u8 = 6;

/// The game's configuration account.
#[derive(Clone, Copy, Debug)]
pub struct GameConfig {
    pub admin: Key,
    pub resource_mints: [Key; 6],
    pub magic_token_mint: Key,
    pub item_prices: [u64; 4],
    pub bump: u8,
}

/// A registered player.
#[derive(Clone, Copy, Debug, PartialEq, Eq)]
pub struct Player {
    pub owner: Key,
    pub last_search_timestamp: i64,
    pub bump: u8,
}

#[derive(Clone, Copy, Debug, PartialEq, Eq, Structural)]
pub enum GameError {
    InvalidResourceIndex,
    InvalidAmount,
    Unauthorized,
}

impl GameError {
    pub open spec fn spec_index(self) -> u32 {
        match self {
            GameError::InvalidResourceIndex => 0,
            GameError::InvalidAmount => 1,
            GameError::Unauthorized => 2,
        }
    }

    /// Position of the error in the program's error list.
    pub fn index(&self) -> (i: u32)
        ensures
            i == self.spec_index(),
    {
        match self {
            GameError::InvalidResourceIndex => 0,
            GameError::InvalidAmount => 1,
            GameError::Unauthorized => 2,
        }
    }

    pub fn message(&self) -> (m: &'static str)
        ensures
            m@ == self.spec_message(),
    {
        match self {
            GameError::InvalidResourceIndex => "Invalid resource index. Must be 0-5.",
            GameError::InvalidAmount => "Invalid amount. Must be greater than 0.",
            GameError::Unauthorized => "Unauthorized access.",
        }
    }

    pub open spec fn spec_message(self) -> Seq<char> {
        match self {
            GameError::InvalidResourceIndex => "Invalid resource index. Must be 0-5."@,
            GameError::InvalidAmount => "Invalid amount. Must be greater than 0."@,
            GameError::Unauthorized => "Unauthorized access."@,
        }
    }
}

/// The prices of the four items, in MagicToken, as the game starts.
pub open spec fn initial_item_prices() -> Seq<u64> {
    seq![100u64, 150, 200, 250]
}

/// Only the search and crafting programs may create or destroy resources.
pub open spec fn may_manage_resources(caller: Caller) -> bool {
    caller == Caller::SearchProgram || caller == Caller::CraftingProgram
}

/// What `initialize_game` reads: the signing administrator and the bump of
/// the configuration's address.
#[derive(Clone, Copy, Debug)]
pub struct InitializeGame {
    pub admin: Key,
    pub game_config_bump: u8,
}

/// What `create_resource_mint` reads and writes. The resource mint is
/// created at the address of seeds `resource_mint` and the index.
#[derive(Clone, Copy, Debug)]
pub struct CreateResourceMint {
    pub game_config: GameConfig,
    pub resource_mint: Key,
    pub admin: Key,
}

/// What `set_magic_token_mint` reads and writes.
#[derive(Clone, Copy, Debug)]
pub struct SetMagicTokenMint {
    pub game_config: GameConfig,
    pub magic_token_mint: Key,
    pub admin: Key,
}

/// What `register_player` reads: the signing owner and the bump of the
/// player account's address.
#[derive(Clone, Copy, Debug)]
pub struct RegisterPlayer {
    pub owner: Key,
    pub player_bump: u8,
}

/// What `mint_resource` reads: the program that invoked it and the bump of
/// the resource mint's address.
#[derive(Clone, Copy, Debug)]
pub struct MintResource {
    pub caller: Caller,
    pub resource_mint_bump: u8,
}

/// What `burn_resource` reads: the program that invoked it.
#[derive(Clone, Copy, Debug)]
pub struct BurnResource {
    pub caller: Caller,
}

/// Creates the game configuration: the signer becomes the administrator, no
/// resource or MagicToken mint is registered yet, and the item prices are set.
pub fn initialize_game(ctx: &InitializeGame) -> (config: GameConfig)
    ensures
        config.admin == ctx.admin,
        forall|i: int| 0 <= i < 6 ==> (#[trigger] config.resource_mints@[i]).is_zeroed(),
        config.magic_token_mint.is_zeroed(),
        config.item_prices@ == initial_item_prices(),
        config.bump == ctx.game_config_bump,
{
    let unset = Key::zeroed();
    let config = GameConfig {
        admin: ctx.admin,
        resource_mints: [unset, unset, unset, unset, unset, unset],
        magic_token_mint: unset,
        item_prices: [100, 150, 200, 250],
        bump: ctx.game_config_bump,
    };
    assert(config.item_prices@ =~= initial_item_prices());
    config
}

/// The error `create_resource_mint` answers with, if any.
pub open spec fn create_resource_mint_error(
    config: GameConfig,
    admin: Key,
    resource_index: u8,
) -> Option<InstructionError> {
    if config.admin != admin {
        Some(InstructionError::ConstraintHasOne)
    } else if resource_index >= RESOURCE_COUNT {
        Some(InstructionError::Game(GameError::InvalidResourceIndex))
    } else {
        None
    }
}

/// Registers the new mint as the mint of resource `resource_index`. Only the
/// administrator may do so; nothing else of the configuration changes.
pub fn create_resource_mint(
    ctx: &mut CreateResourceMint,
    resource_index: u8,
    _name: String,
    _symbol: String,
    _uri: String,
) -> (r: Result<(), InstructionError>)
    ensures
        final(ctx).resource_mint == old(ctx).resource_mint,
        final(ctx).admin == old(ctx).admin,
        match create_resource_mint_error(old(ctx).game_config, old(ctx).admin, resource_index) {
            Some(e) => r == Err::<(), InstructionError>(e) && final(ctx).game_config == old(
                ctx,
            ).game_config,
            None => {
                let (before, after) = (old(ctx).game_config, final(ctx).game_config);
                &&& r is Ok
                &&& after.resource_mints@ == before.resource_mints@.update(
                    resource_index as int,
                    old(ctx).resource_mint,
                )
                &&& after.admin == before.admin
                &&& after.magic_token_mint == before.magic_token_mint
                &&& after.item_prices == before.item_prices
                &&& after.bump == before.bump
            },
        },
{
    if !ctx.game_config.admin.same(&ctx.admin) {
        return Err(InstructionError::ConstraintHasOne);
    }
    if resource_index >= RESOURCE_COUNT {
        return Err(InstructionError::Game(GameError::InvalidResourceIndex));
    }
    ctx.game_config.resource_mints[resource_index as usize] = ctx.resource_mint;
    Ok(())
}

/// Registers the MagicToken mint. Only the administrator may do so.
pub fn set_magic_token_mint(ctx: &mut SetMagicTokenMint) -> (r: Result<(), InstructionError>)
    ensures
        final(ctx).magic_token_mint == old(ctx).magic_token_mint,
        final(ctx).admin == old(ctx).admin,
        old(ctx).game_config.admin != old(ctx).admin ==> r == Err::<(), InstructionError>(
            InstructionError::ConstraintHasOne,
        ) && final(ctx).game_config == old(ctx).game_config,
        old(ctx).game_config.admin == old(ctx).admin ==> r is Ok && final(ctx).game_config == (
        GameConfig { magic_token_mint: old(ctx).magic_token_mint, ..old(ctx).game_config }),
{
    if !ctx.game_config.admin.same(&ctx.admin) {
        return Err(InstructionError::ConstraintHasOne);
    }
    ctx.game_config.magic_token_mint = ctx.magic_token_mint;
    Ok(())
}

/// Creates the player account of the signing owner, who has never searched.
pub fn register_player(ctx: &RegisterPlayer) -> (player: Player)
    ensures
        player == (Player { owner: ctx.owner, last_search_timestamp: 0, bump: ctx.player_bump }),
{
    Player { owner: ctx.owner, last_search_timestamp: 0, bump: ctx.player_bump }
}

/// The error `mint_resource` and `burn_resource` answer with, if any.
pub open spec fn resource_change_error(caller: Caller, resource_index: u8, amount: u64) -> Option<
    InstructionError,
> {
    if !may_manage_resources(caller) {
        Some(InstructionError::Game(GameError::Unauthorized))
    } else if resource_index >= RESOURCE_COUNT {
        Some(InstructionError::Game(GameError::InvalidResourceIndex))
    } else if amount == 0 {
        Some(InstructionError::Game(GameError::InvalidAmount))
    } else {
        None
    }
}

/// Mints `amount` of resource `resource_index` to a player's token account.
/// The resource's mint signs for itself with its seeds.
pub fn mint_resource(ctx: &MintResource, resource_index: u8, amount: u64) -> (r: Result<
    TokenCpi,
    InstructionError,
>)
    ensures
        match resource_change_error(ctx.caller, resource_index, amount) {
            Some(e) => r == Err::<TokenCpi, InstructionError>(e),
            None => r matches Ok(call) && call.amount == amount && call.seeds()
                == resource_mint_seeds_spec(resource_index, ctx.resource_mint_bump),
        },
{
    if !(ctx.caller == Caller::SearchProgram || ctx.caller == Caller::CraftingProgram) {
        return Err(InstructionError::Game(GameError::Unauthorized));
    }
    if resource_index >= RESOURCE_COUNT {
        return Err(InstructionError::Game(GameError::InvalidResourceIndex));
    }
    if amount == 0 {
        return Err(InstructionError::Game(GameError::InvalidAmount));
    }
    Ok(TokenCpi { amount, signer_seeds: resource_mint_seeds(resource_index, ctx.resource_mint_bump) })
}

/// Burns `amount` of resource `resource_index` from a player's token account;
/// the player signs, so no program seeds are needed.
pub fn burn_resource(ctx: &BurnResource, resource_index: u8, amount: u64) -> (r: Result<
    TokenCpi,
    InstructionError,
>)
    ensures
        match resource_change_error(ctx.caller, resource_index, amount) {
            Some(e) => r == Err::<TokenCpi, InstructionError>(e),
            None => r matches Ok(call) && call.amount == amount && call.seeds().len() == 0,
        },
{
    if !(ctx.caller == Caller::SearchProgram || ctx.caller == Caller::CraftingProgram) {
        return Err(InstructionError::Game(GameError::Unauthorized));
    }
    if resource_index >= RESOURCE_COUNT {
        return Err(InstructionError::Game(GameError::InvalidResourceIndex));
    }
    if amount == 0 {
        return Err(InstructionError::Game(GameError::InvalidAmount));
    }
    Ok(TokenCpi { amount, signer_seeds: Vec::new() })
}

} // verus!
