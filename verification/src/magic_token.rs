//! The MagicToken program: the game's currency, minted only when the
//! marketplace pays a seller.
use vstd::prelude::*;

use crate::cpi::{magic_authority_seeds, magic_authority_seeds_spec, Caller, TokenCpi};
use crate::error::InstructionError;
use crate::key::Key;

verus! {

/// The MagicToken configuration account.
#[derive(Clone, Copy, Debug, PartialEq, Eq)]
pub struct MagicConfig {
    /// The MagicToken mint address
    pub mint: Key,
    /// The program-derived authority that controls minting
    pub authority: Key,
    /// Bump of the mint authority's address
    pub bump: u8,
    /// Bump of this configuration's address
    pub config_bump: u8,
}

#[derive(Clone, Copy, Debug, PartialEq, Eq, Structural)]
pub enum MagicTokenError {
    InvalidAmount,
    Unauthorized,
}

impl MagicTokenError {
    pub open spec fn spec_index(self) -> u32 {
        match self {
            MagicTokenError::InvalidAmount => 0,
            MagicTokenError::Unauthorized => 1,
        }
    }

    /// Position of the error in the program's error list.
    pub fn index(&self) -> (i: u32)
        ensures
            i == self.spec_index(),
    {
        match self {
            MagicTokenError::InvalidAmount => 0,
            MagicTokenError::Unauthorized => 1,
        }
    }

    pub fn message(&self) -> (m: &'static str)
        ensures
            m@ == self.spec_message(),
    {
        match self {
            MagicTokenError::InvalidAmount => "Invalid amount. Must be greater than 0.",
            MagicTokenError::Unauthorized => "MagicToken can only be minted by the marketplace.",
        }
    }

    pub open spec fn spec_message(self) -> Seq<char> {
        match self {
            MagicTokenError::InvalidAmount => "Invalid amount. Must be greater than 0."@,
            MagicTokenError::Unauthorized => "MagicToken can only be minted by the marketplace."@,
        }
    }
}

/// What `initialize_mint` reads: the new mint, its program-derived
/// authority, and the bumps of the authority's and the configuration's addresses.
#[derive(Clone, Copy, Debug)]
pub struct InitializeMagicMint {
    pub magic_mint: Key,
    pub mint_authority: Key,
    pub mint_authority_bump: u8,
    pub magic_config_bump: u8,
}

/// What `mint_magic_token` reads: the configuration and the program that
/// invoked it.
#[derive(Clone, Copy, Debug)]
pub struct MintMagicToken {
    pub magic_config: MagicConfig,
    pub caller: Caller,
}

/// Records the MagicToken mint and its program-derived mint authority.
pub fn initialize_mint(ctx: &InitializeMagicMint) -> (config: MagicConfig)
    ensures
        config == (MagicConfig {
            mint: ctx.magic_mint,
            authority: ctx.mint_authority,
            bump: ctx.mint_authority_bump,
            config_bump: ctx.magic_config_bump,
        }),
{
    MagicConfig {
        mint: ctx.magic_mint,
        authority: ctx.mint_authority,
        bump: ctx.mint_authority_bump,
        config_bump: ctx.magic_config_bump,
    }
}

/// The error `mint_magic_token` answers with, if any.
pub open spec fn mint_magic_token_error(caller: Caller, amount: u64) -> Option<InstructionError> {
    if caller != Caller::MarketplaceProgram {
        Some(InstructionError::MagicToken(MagicTokenError::Unauthorized))
    } else if amount == 0 {
        Some(InstructionError::MagicToken(MagicTokenError::InvalidAmount))
    } else {
        None
    }
}

/// Mints `amount` MagicToken to a player's token account; the mint authority
/// signs with its seeds. Only the marketplace may ask for this.
pub fn mint_magic_token(ctx: &MintMagicToken, amount: u64) -> (r: Result<
    TokenCpi,
    InstructionError,
>)
    ensures
        match mint_magic_token_error(ctx.caller, amount) {
            Some(e) => r == Err::<TokenCpi, InstructionError>(e),
            None => r matches Ok(call) && call.amount == amount && call.seeds()
                == magic_authority_seeds_spec(ctx.magic_config.bump),
        },
{
    if ctx.caller != Caller::MarketplaceProgram {
        return Err(InstructionError::MagicToken(MagicTokenError::Unauthorized));
    }
    if amount == 0 {
        return Err(InstructionError::MagicToken(MagicTokenError::InvalidAmount));
    }
    Ok(TokenCpi { amount, signer_seeds: magic_authority_seeds(ctx.magic_config.bump) })
}

} // verus!
