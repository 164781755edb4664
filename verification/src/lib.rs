//! Verified game logic of "Cossack Business": resources, searching, crafting,
//! item NFTs, the MagicToken currency and the marketplace.
//!
//! Every on-chain instruction is a function from the accounts it reads and
//! the arguments it receives to the new account state and the token
//! operations the runtime has to perform on its behalf.

pub mod clock;
pub mod cpi;
pub mod crafting;
pub mod error;
pub mod item_nft;
pub mod key;
pub mod laws;
pub mod magic_token;
pub mod marketplace;
pub mod resource_manager;
pub mod search;
pub mod token_metadata;
