//! Calls the game's programs make into token programs, and the seeds with
//! which a program signs for the addresses it derives.
use vstd::prelude::*;

use crate::key::Key;

verus! {

/// The program that invoked an instruction: a wallet signing a transaction
/// directly, or one of the game's programs through a cross-program call.
#[derive(Clone, Copy, Debug, PartialEq, Eq, Structural)]
pub enum Caller {
    Wallet,
    SearchProgram,
    CraftingProgram,
    MarketplaceProgram,
    OtherProgram,
}

/// A call into a token program that moves, creates or destroys `amount`
/// tokens. When `signer_seeds` is not empty, the calling program signs for
/// the program-derived address built from those seeds.
#[derive(Debug)]
pub struct TokenCpi {
    pub amount: u64,
    pub signer_seeds: Vec<Vec<u8>>,
}

impl TokenCpi {
    pub open spec fn seeds(&self) -> Seq<Seq<u8>> {
        self.signer_seeds.deep_view()
    }
}

/// The ASCII bytes of `resource_mint`.
pub open spec fn resource_mint_tag() -> Seq<u8> {
    seq![114u8, 101, 115, 111, 117, 114, 99, 101, 95, 109, 105, 110, 116]
}

/// The ASCII bytes of `item_authority`.
pub open spec fn item_authority_tag() -> Seq<u8> {
    seq![105u8, 116, 101, 109, 95, 97, 117, 116, 104, 111, 114, 105, 116, 121]
}

/// The ASCII bytes of `magic_authority`.
pub open spec fn magic_authority_tag() -> Seq<u8> {
    seq![109u8, 97, 103, 105, 99, 95, 97, 117, 116, 104, 111, 114, 105, 116, 121]
}

/// The ASCII bytes of `listing`.
pub open spec fn listing_tag() -> Seq<u8> {
    seq![108u8, 105, 115, 116, 105, 110, 103]
}

/// The ASCII bytes of `game_config`.
pub open spec fn game_config_tag() -> Seq<u8> {
    seq![103u8, 97, 109, 101, 95, 99, 111, 110, 102, 105, 103]
}

/// The ASCII bytes of `player`.
pub open spec fn player_tag() -> Seq<u8> {
    seq![112u8, 108, 97, 121, 101, 114]
}

/// The ASCII bytes of `magic_config`.
pub open spec fn magic_config_tag() -> Seq<u8> {
    seq![109u8, 97, 103, 105, 99, 95, 99, 111, 110, 102, 105, 103]
}

/// The ASCII bytes of `magic_mint`.
pub open spec fn magic_mint_tag() -> Seq<u8> {
    seq![109u8, 97, 103, 105, 99, 95, 109, 105, 110, 116]
}

/// The ASCII bytes of `item_metadata`.
pub open spec fn item_metadata_tag() -> Seq<u8> {
    seq![105u8, 116, 101, 109, 95, 109, 101, 116, 97, 100, 97, 116, 97]
}

/// Seeds of the game configuration's address.
pub open spec fn game_config_seeds_spec(bump: u8) -> Seq<Seq<u8>> {
    seq![game_config_tag(), seq![bump]]
}

/// Seeds of the address of `owner`'s player account.
pub open spec fn player_seeds_spec(owner: Key, bump: u8) -> Seq<Seq<u8>> {
    seq![player_tag(), owner@, seq![bump]]
}

/// Seeds of the MagicToken configuration's address.
pub open spec fn magic_config_seeds_spec(bump: u8) -> Seq<Seq<u8>> {
    seq![magic_config_tag(), seq![bump]]
}

/// Seeds of the MagicToken mint's address.
pub open spec fn magic_mint_seeds_spec(bump: u8) -> Seq<Seq<u8>> {
    seq![magic_mint_tag(), seq![bump]]
}

/// Seeds of the address of the record of the item minted by `item_mint`.
pub open spec fn item_metadata_seeds_spec(item_mint: Key, bump: u8) -> Seq<Seq<u8>> {
    seq![item_metadata_tag(), item_mint@, seq![bump]]
}

/// Seeds of the mint of resource `resource_index`, which is its own mint authority.
pub open spec fn resource_mint_seeds_spec(resource_index: u8, bump: u8) -> Seq<Seq<u8>> {
    seq![resource_mint_tag(), seq![resource_index], seq![bump]]
}

/// Seeds of the authority that mints item NFTs.
pub open spec fn item_authority_seeds_spec(bump: u8) -> Seq<Seq<u8>> {
    seq![item_authority_tag(), seq![bump]]
}

/// Seeds of the authority that mints MagicToken.
pub open spec fn magic_authority_seeds_spec(bump: u8) -> Seq<Seq<u8>> {
    seq![magic_authority_tag(), seq![bump]]
}

/// Seeds of the listing of the item minted by `item_mint`; the listing owns the escrow.
pub open spec fn listing_seeds_spec(item_mint: Key, bump: u8) -> Seq<Seq<u8>> {
    seq![listing_tag(), item_mint@, seq![bump]]
}

pub fn resource_mint_seeds(resource_index: u8, bump: u8) -> (s: Vec<Vec<u8>>)
    ensures
        s.deep_view() == resource_mint_seeds_spec(resource_index, bump),
{
    let tag: Vec<u8> = vec![114u8, 101, 115, 111, 117, 114, 99, 101, 95, 109, 105, 110, 116];
    let index: Vec<u8> = vec![resource_index];
    let b: Vec<u8> = vec![bump];
    let s: Vec<Vec<u8>> = vec![tag, index, b];
    proof {
        assert(s.deep_view() =~~= resource_mint_seeds_spec(resource_index, bump));
    }
    s
}

pub fn item_authority_seeds(bump: u8) -> (s: Vec<Vec<u8>>)
    ensures
        s.deep_view() == item_authority_seeds_spec(bump),
{
    let tag: Vec<u8> = vec![105u8, 116, 101, 109, 95, 97, 117, 116, 104, 111, 114, 105, 116, 121];
    let b: Vec<u8> = vec![bump];
    let s: Vec<Vec<u8>> = vec![tag, b];
    proof {
        assert(s.deep_view() =~~= item_authority_seeds_spec(bump));
    }
    s
}

pub fn magic_authority_seeds(bump: u8) -> (s: Vec<Vec<u8>>)
    ensures
        s.deep_view() == magic_authority_seeds_spec(bump),
{
    let tag: Vec<u8> = vec![109u8, 97, 103, 105, 99, 95, 97, 117, 116, 104, 111, 114, 105, 116, 121];
    let b: Vec<u8> = vec![bump];
    let s: Vec<Vec<u8>> = vec![tag, b];
    proof {
        assert(s.deep_view() =~~= magic_authority_seeds_spec(bump));
    }
    s
}

pub fn listing_seeds(item_mint: &Key, bump: u8) -> (s: Vec<Vec<u8>>)
    ensures
        s.deep_view() == listing_seeds_spec(*item_mint, bump),
{
    let tag: Vec<u8> = vec![108u8, 105, 115, 116, 105, 110, 103];
    let mint: Vec<u8> = vstd::slice::slice_to_vec(item_mint.bytes.as_slice());
    let b: Vec<u8> = vec![bump];
    let s: Vec<Vec<u8>> = vec![tag, mint, b];
    proof {
        assert(s.deep_view() =~~= listing_seeds_spec(*item_mint, bump));
    }
    s
}

pub fn game_config_seeds(bump: u8) -> (s: Vec<Vec<u8>>)
    ensures
        s.deep_view() == game_config_seeds_spec(bump),
{
    let tag: Vec<u8> = vec![103u8, 97, 109, 101, 95, 99, 111, 110, 102, 105, 103];
    let b: Vec<u8> = vec![bump];
    let s: Vec<Vec<u8>> = vec![tag, b];
    proof {
        assert(s.deep_view() =~~= game_config_seeds_spec(bump));
    }
    s
}

pub fn magic_config_seeds(bump: u8) -> (s: Vec<Vec<u8>>)
    ensures
        s.deep_view() == magic_config_seeds_spec(bump),
{
    let tag: Vec<u8> = vec![109u8, 97, 103, 105, 99, 95, 99, 111, 110, 102, 105, 103];
    let b: Vec<u8> = vec![bump];
    let s: Vec<Vec<u8>> = vec![tag, b];
    proof {
        assert(s.deep_view() =~~= magic_config_seeds_spec(bump));
    }
    s
}

pub fn magic_mint_seeds(bump: u8) -> (s: Vec<Vec<u8>>)
    ensures
        s.deep_view() == magic_mint_seeds_spec(bump),
{
    let tag: Vec<u8> = vec![109u8, 97, 103, 105, 99, 95, 109, 105, 110, 116];
    let b: Vec<u8> = vec![bump];
    let s: Vec<Vec<u8>> = vec![tag, b];
    proof {
        assert(s.deep_view() =~~= magic_mint_seeds_spec(bump));
    }
    s
}

pub fn player_seeds(owner: &Key, bump: u8) -> (s: Vec<Vec<u8>>)
    ensures
        s.deep_view() == player_seeds_spec(*owner, bump),
{
    let tag: Vec<u8> = vec![112u8, 108, 97, 121, 101, 114];
    let k: Vec<u8> = vstd::slice::slice_to_vec(owner.bytes.as_slice());
    let b: Vec<u8> = vec![bump];
    let s: Vec<Vec<u8>> = vec![tag, k, b];
    proof {
        assert(s.deep_view() =~~= player_seeds_spec(*owner, bump));
    }
    s
}

pub fn item_metadata_seeds(item_mint: &Key, bump: u8) -> (s: Vec<Vec<u8>>)
    ensures
        s.deep_view() == item_metadata_seeds_spec(*item_mint, bump),
{
    let tag: Vec<u8> = vec![105u8, 116, 101, 109, 95, 109, 101, 116, 97, 100, 97, 116, 97];
    let k: Vec<u8> = vstd::slice::slice_to_vec(item_mint.bytes.as_slice());
    let b: Vec<u8> = vec![bump];
    let s: Vec<Vec<u8>> = vec![tag, k, b];
    proof {
        assert(s.deep_view() =~~= item_metadata_seeds_spec(*item_mint, bump));
    }
    s
}

} // verus!
