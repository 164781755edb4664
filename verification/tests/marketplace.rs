use cossack_business::cpi::Caller;
use cossack_business::error::InstructionError;
use cossack_business::item_nft::ItemMetadata;
use cossack_business::key::Key;
use cossack_business::magic_token::{initialize_mint, mint_magic_token, InitializeMagicMint, MintMagicToken};
use cossack_business::marketplace::{
    buy_item, cancel_listing, list_item, BuyItem, CancelListing, ListItem, Listing, MarketplaceError,
};

fn key(b: u8) -> Key {
    Key::new([b; 32])
}

fn armor() -> ItemMetadata {
    ItemMetadata { item_type: 2, owner: key(1), mint: key(2), bump: 0 }
}

fn listing_seeds(mint: &Key, bump: u8) -> Vec<Vec<u8>> {
    vec![b"listing".to_vec(), mint.bytes.to_vec(), vec![bump]]
}

#[test]
fn listing_moves_item_to_escrow() {
    let out = list_item(&ListItem { seller: key(1), item_mint: key(2), item_metadata: armor(), listing_bump: 77 }, 200).unwrap();
    assert_eq!(out.listing, Listing { seller: key(1), item_mint: key(2), item_type: 2, price: 200, is_active: true, bump: 77 });
    assert_eq!(out.escrow_deposit.amount, 1);
    assert!(out.escrow_deposit.signer_seeds.is_empty());
}

#[test]
fn listing_needs_positive_price() {
    assert_eq!(list_item(&ListItem { seller: key(1), item_mint: key(2), item_metadata: armor(), listing_bump: 77 }, 0).unwrap_err(), InstructionError::Marketplace(MarketplaceError::InvalidPrice));
}

fn listed(bump: u8, price: u64) -> Listing {
    list_item(&ListItem { seller: key(1), item_mint: key(2), item_metadata: armor(), listing_bump: bump }, price).unwrap().listing
}

#[test]
fn buying_burns_item_and_pays_seller() {
    let mut ctx = BuyItem { listing: listed(77, 200), seller_magic_token_owner: key(1) };
    let sale = buy_item(&mut ctx).unwrap();
    assert!(!ctx.listing.is_active);
    assert_eq!(sale.escrow_burn.amount, 1);
    assert_eq!(sale.escrow_burn.signer_seeds, listing_seeds(&key(2), 77));
    assert_eq!(sale.seller_payment, 200);
    assert_eq!(sale.payee, key(1));
    let config = initialize_mint(&InitializeMagicMint { magic_mint: key(10), mint_authority: key(11), mint_authority_bump: 1, magic_config_bump: 2 });
    let pay = MintMagicToken { magic_config: config, caller: Caller::MarketplaceProgram };
    assert_eq!(mint_magic_token(&pay, sale.seller_payment).unwrap().amount, 200);
}

#[test]
fn listing_settles_once() {
    let mut buy = BuyItem { listing: listed(77, 200), seller_magic_token_owner: key(1) };
    assert!(buy_item(&mut buy).is_ok());
    let closed = buy.listing;
    assert_eq!(buy_item(&mut buy).unwrap_err(), InstructionError::Marketplace(MarketplaceError::ListingNotActive));
    let mut cancel = CancelListing { listing: closed, seller: key(1) };
    assert_eq!(cancel_listing(&mut cancel).unwrap_err(), InstructionError::Marketplace(MarketplaceError::ListingNotActive));
    assert_eq!(buy.listing, closed);
    assert_eq!(cancel.listing, closed);
}

#[test]
fn cancel_returns_item_to_seller() {
    let mut ctx = CancelListing { listing: listed(5, 99), seller: key(1) };
    let back = cancel_listing(&mut ctx).unwrap();
    assert_eq!(back.amount, 1);
    assert_eq!(back.signer_seeds, listing_seeds(&key(2), 5));
    assert!(!ctx.listing.is_active);
    let mut buy = BuyItem { listing: ctx.listing, seller_magic_token_owner: key(1) };
    assert_eq!(buy_item(&mut buy).unwrap_err(), InstructionError::Marketplace(MarketplaceError::ListingNotActive));
}

#[test]
fn payment_goes_only_to_seller() {
    let mut ctx = BuyItem { listing: listed(77, 200), seller_magic_token_owner: key(9) };
    assert_eq!(buy_item(&mut ctx).unwrap_err(), InstructionError::Marketplace(MarketplaceError::InvalidPayee));
    assert!(ctx.listing.is_active);
    assert_eq!(InstructionError::Marketplace(MarketplaceError::InvalidPayee).code(), 6002);
    assert_eq!(MarketplaceError::InvalidPayee.message(), "The payment must go to the listing's seller.");
}

#[test]
fn only_seller_cancels() {
    let mut ctx = CancelListing { listing: listed(5, 99), seller: key(3) };
    assert_eq!(cancel_listing(&mut ctx).unwrap_err(), InstructionError::ConstraintHasOne);
    assert!(ctx.listing.is_active);
}

#[test]
fn marketplace_error_codes_and_messages() {
    assert_eq!(InstructionError::Marketplace(MarketplaceError::InvalidPrice).code(), 6000);
    assert_eq!(InstructionError::Marketplace(MarketplaceError::ListingNotActive).code(), 6001);
    assert_eq!(MarketplaceError::InvalidPrice.message(), "Invalid price. Must be greater than 0.");
    assert_eq!(MarketplaceError::ListingNotActive.message(), "Listing is not active.");
}
