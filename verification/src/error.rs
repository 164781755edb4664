//! The errors with which instructions are refused.
use vstd::prelude::*;

use crate::crafting::CraftingError;
use crate::item_nft::ItemNftError;
use crate::magic_token::MagicTokenError;
use crate::marketplace::MarketplaceError;
use crate::resource_manager::GameError;
use crate::search::SearchError;

verus! {

/// Why an instruction was refused: an error of one of the game's programs, an
/// account whose recorded owner is not the account that signed, or an
/// account whose address is not the one its seeds derive.
#[derive(Clone, Copy, Debug, PartialEq, Eq, Structural)]
pub enum InstructionError {
    Game(GameError),
    Search(SearchError),
    Crafting(CraftingError),
    ItemNft(ItemNftError),
    MagicToken(MagicTokenError),
    Marketplace(MarketplaceError),
    ConstraintHasOne,
    ConstraintSeeds,
}

/// Number of the first error of a program's own error list.
pub const CUSTOM_ERROR_OFFSET: u32 = 6000;

/// Number of the error raised when an account's recorded owner does not match.
pub const CONSTRAINT_HAS_ONE_CODE: u32 = 2001;

/// Number of the error raised when an account's address is not the one its
/// seeds derive.
pub const CONSTRAINT_SEEDS_CODE: u32 = 2006;

impl InstructionError {
    pub open spec fn spec_code(self) -> u32 {
        match self {
            InstructionError::Game(e) => (CUSTOM_ERROR_OFFSET + e.spec_index()) as u32,
            InstructionError::Search(e) => (CUSTOM_ERROR_OFFSET + e.spec_index()) as u32,
            InstructionError::Crafting(e) => (CUSTOM_ERROR_OFFSET + e.spec_index()) as u32,
            InstructionError::ItemNft(e) => (CUSTOM_ERROR_OFFSET + e.spec_index()) as u32,
            InstructionError::MagicToken(e) => (CUSTOM_ERROR_OFFSET + e.spec_index()) as u32,
            InstructionError::Marketplace(e) => (CUSTOM_ERROR_OFFSET + e.spec_index()) as u32,
            InstructionError::ConstraintHasOne => CONSTRAINT_HAS_ONE_CODE,
            InstructionError::ConstraintSeeds => CONSTRAINT_SEEDS_CODE,
        }
    }

    /// The number by which the runtime reports this error.
    pub fn code(&self) -> (c: u32)
        ensures
            c == self.spec_code(),
    {
        match self {
            InstructionError::Game(e) => CUSTOM_ERROR_OFFSET + e.index(),
            InstructionError::Search(e) => CUSTOM_ERROR_OFFSET + e.index(),
            InstructionError::Crafting(e) => CUSTOM_ERROR_OFFSET + e.index(),
            InstructionError::ItemNft(e) => CUSTOM_ERROR_OFFSET + e.index(),
            InstructionError::MagicToken(e) => CUSTOM_ERROR_OFFSET + e.index(),
            InstructionError::Marketplace(e) => CUSTOM_ERROR_OFFSET + e.index(),
            InstructionError::ConstraintHasOne => CONSTRAINT_HAS_ONE_CODE,
            InstructionError::ConstraintSeeds => CONSTRAINT_SEEDS_CODE,
        }
    }
}

} // verus!
