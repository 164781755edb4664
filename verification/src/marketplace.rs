//! The marketplace: a seller puts an item in escrow at a price; a buyer's
//! purchase burns the item and pays the seller the price in MagicToken; the
//! seller may instead take the item back.
use vstd::prelude::*;

use crate::cpi::{listing_seeds, listing_seeds_spec, TokenCpi};
use crate::error::InstructionError;
use crate::item_nft::ItemMetadata;
use crate::key::Key;

verus! {

/// An item offered for sale.
#[derive(Clone, Copy, Debug, PartialEq, Eq)]
pub struct Listing {
    pub seller: Key,
    pub item_mint: Key,
    pub item_type: u8,
    pub price: u64,
    pub is_active: bool,
    pub bump: u8,
}

#[derive(Clone, Copy, Debug, PartialEq, Eq, Structural)]
pub enum MarketplaceError {
    InvalidPrice,
    ListingNotActive,
    InvalidPayee,
}

impl MarketplaceError {
    pub open spec fn spec_index(self) -> u32 {
        match self {
            MarketplaceError::InvalidPrice => 0,
            MarketplaceError::ListingNotActive => 1,
            MarketplaceError::InvalidPayee => 2,
        }
    }

    /// Position of the error in the program's error list.
    pub fn index(&self) -> (i: u32)
        ensures
            i == self.spec_index(),
    {
        match self {
            MarketplaceError::InvalidPrice => 0,
            MarketplaceError::ListingNotActive => 1,
            MarketplaceError::InvalidPayee => 2,
        }
    }

    pub fn message(&self) -> (m: &'static str)
        ensures
            m@ == self.spec_message(),
    {
        match self {
            MarketplaceError::InvalidPrice => "Invalid price. Must be greater than 0.",
            MarketplaceError::ListingNotActive => "Listing is not active.",
            MarketplaceError::InvalidPayee => "The payment must go to the listing's seller.",
        }
    }

    pub open spec fn spec_message(self) -> Seq<char> {
        match self {
            MarketplaceError::InvalidPrice => "Invalid price. Must be greater than 0."@,
            MarketplaceError::ListingNotActive => "Listing is not active."@,
            MarketplaceError::InvalidPayee => "The payment must go to the listing's seller."@,
        }
    }
}

/// A new listing, and the transfer of the item from the seller's token
/// account into escrow, which the seller signs.
#[derive(Debug)]
pub struct ListOutcome {
    pub listing: Listing,
    pub escrow_deposit: TokenCpi,
}

/// A completed purchase: the item is burned out of escrow, the listing
/// signing, and `seller_payment` MagicToken are minted to a token account
/// of `payee`, the listing's seller.
#[derive(Debug)]
pub struct Sale {
    pub escrow_burn: TokenCpi,
    pub payee: Key,
    pub seller_payment: u64,
}

/// The listing that `list_item` creates.
pub open spec fn new_listing(
    seller: Key,
    item_mint: Key,
    item_type: u8,
    listing_bump: u8,
    price: u64,
) -> Listing {
    Listing { seller, item_mint, item_type, price, is_active: true, bump: listing_bump }
}

/// A listing once it has been bought or cancelled.
pub open spec fn settled(listing: Listing) -> Listing {
    Listing { is_active: false, ..listing }
}

/// What `list_item` reads: the signing seller, the item's mint and record,
/// and the bump of the new listing's address.
#[derive(Clone, Copy, Debug)]
pub struct ListItem {
    pub seller: Key,
    pub item_mint: Key,
    pub item_metadata: ItemMetadata,
    pub listing_bump: u8,
}

/// What `buy_item` reads and writes: the listing, and the owner of the
/// MagicToken account the payment is minted to.
#[derive(Clone, Copy, Debug)]
pub struct BuyItem {
    pub listing: Listing,
    pub seller_magic_token_owner: Key,
}

/// The error `buy_item` answers with, if any.
pub open spec fn buy_item_error(listing: Listing, payee: Key) -> Option<InstructionError> {
    if !listing.is_active {
        Some(InstructionError::Marketplace(MarketplaceError::ListingNotActive))
    } else if payee != listing.seller {
        Some(InstructionError::Marketplace(MarketplaceError::InvalidPayee))
    } else {
        None
    }
}

/// What `cancel_listing` reads and writes: the listing and the signer.
#[derive(Clone, Copy, Debug)]
pub struct CancelListing {
    pub listing: Listing,
    pub seller: Key,
}

/// Lists the item at `price` MagicToken.
pub fn list_item(ctx: &ListItem, price: u64) -> (r: Result<ListOutcome, InstructionError>)
    ensures
        price == 0 ==> r == Err::<ListOutcome, InstructionError>(
            InstructionError::Marketplace(MarketplaceError::InvalidPrice),
        ),
        price > 0 ==> (r matches Ok(out) && out.listing == new_listing(
            ctx.seller,
            ctx.item_mint,
            ctx.item_metadata.item_type,
            ctx.listing_bump,
            price,
        ) && out.escrow_deposit.amount == 1 && out.escrow_deposit.seeds().len() == 0),
{
    if price == 0 {
        return Err(InstructionError::Marketplace(MarketplaceError::InvalidPrice));
    }
    let listing = Listing {
        seller: ctx.seller,
        item_mint: ctx.item_mint,
        item_type: ctx.item_metadata.item_type,
        price,
        is_active: true,
        bump: ctx.listing_bump,
    };
    Ok(ListOutcome { listing, escrow_deposit: TokenCpi { amount: 1, signer_seeds: Vec::new() } })
}

/// Buys a listed item: the listing closes, the item is burned, and the
/// seller is paid the price. The payment must go to an account of the seller.
pub fn buy_item(ctx: &mut BuyItem) -> (r: Result<Sale, InstructionError>)
    ensures
        final(ctx).seller_magic_token_owner == old(ctx).seller_magic_token_owner,
        match buy_item_error(old(ctx).listing, old(ctx).seller_magic_token_owner) {
            Some(e) => r == Err::<Sale, InstructionError>(e) && final(ctx).listing == old(
                ctx,
            ).listing,
            None => final(ctx).listing == settled(old(ctx).listing) && (r matches Ok(sale)
                && sale.escrow_burn.amount == 1 && sale.escrow_burn.seeds() == listing_seeds_spec(
                old(ctx).listing.item_mint,
                old(ctx).listing.bump,
            ) && sale.payee == old(ctx).listing.seller && sale.seller_payment == old(
                ctx,
            ).listing.price),
        },
{
    let price = ctx.listing.price;
    let listing_bump = ctx.listing.bump;
    let item_mint_key = ctx.listing.item_mint;
    if !ctx.listing.is_active {
        return Err(InstructionError::Marketplace(MarketplaceError::ListingNotActive));
    }
    if !ctx.seller_magic_token_owner.same(&ctx.listing.seller) {
        return Err(InstructionError::Marketplace(MarketplaceError::InvalidPayee));
    }
    ctx.listing.is_active = false;
    let escrow_burn = TokenCpi { amount: 1, signer_seeds: listing_seeds(&item_mint_key, listing_bump) };
    Ok(Sale { escrow_burn, payee: ctx.listing.seller, seller_payment: price })
}

/// The error `cancel_listing` answers with, if any.
pub open spec fn cancel_listing_error(listing: Listing, seller: Key) -> Option<InstructionError> {
    if listing.seller != seller {
        Some(InstructionError::ConstraintHasOne)
    } else if !listing.is_active {
        Some(InstructionError::Marketplace(MarketplaceError::ListingNotActive))
    } else {
        None
    }
}

/// Withdraws a listing: it closes and the item goes from escrow back to the
/// seller, the listing signing. Only the seller may do so.
pub fn cancel_listing(ctx: &mut CancelListing) -> (r: Result<TokenCpi, InstructionError>)
    ensures
        final(ctx).seller == old(ctx).seller,
        match cancel_listing_error(old(ctx).listing, old(ctx).seller) {
            Some(e) => r == Err::<TokenCpi, InstructionError>(e) && final(ctx).listing == old(
                ctx,
            ).listing,
            None => final(ctx).listing == settled(old(ctx).listing) && (r matches Ok(back)
                && back.amount == 1 && back.seeds() == listing_seeds_spec(
                old(ctx).listing.item_mint,
                old(ctx).listing.bump,
            )),
        },
{
    if !ctx.listing.seller.same(&ctx.seller) {
        return Err(InstructionError::ConstraintHasOne);
    }
    let listing_bump = ctx.listing.bump;
    let item_mint_key = ctx.listing.item_mint;
    if !ctx.listing.is_active {
        return Err(InstructionError::Marketplace(MarketplaceError::ListingNotActive));
    }
    ctx.listing.is_active = false;
    Ok(TokenCpi { amount: 1, signer_seeds: listing_seeds(&item_mint_key, listing_bump) })
}

} // verus!
