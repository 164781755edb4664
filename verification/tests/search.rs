use cossack_business::error::InstructionError;
use cossack_business::key::Key;
use cossack_business::cpi::Caller;
use cossack_business::resource_manager::{mint_resource, register_player, MintResource, RegisterPlayer};
use cossack_business::search::{
    search_resources, search_resources_now, ResourceMintCall, SearchError, SearchResources, TimedSearch,
};

fn key(b: u8) -> Key {
    Key::new([b; 32])
}

fn player(owner: u8) -> SearchResources {
    SearchResources { player: register_player(&RegisterPlayer { owner: key(owner), player_bump: 0 }), owner: key(owner) }
}

#[test]
fn new_player_waits_for_clock_to_reach_cooldown() {
    let mut p = player(1);
    let r = search_resources(&mut p, 59, 0, 12);
    assert_eq!(r.unwrap_err(), InstructionError::Search(SearchError::SearchCooldownActive));
    assert_eq!(p.player.last_search_timestamp, 0);
    assert!(search_resources(&mut p, 60, 0, 12).is_ok());
    assert_eq!(p.player.last_search_timestamp, 60);
}

#[test]
fn search_finds_resources_from_seed() {
    // seed = 120 ^ 5 = 125: 125 % 6 = 5, (125 / 7) % 6 = 5, (125 / 13) % 6 = 3
    let mut p = player(1);
    let out = search_resources(&mut p, 120, 5, 12).unwrap();
    assert_eq!(out.found, [5, 5, 3]);
    let five = ResourceMintCall { resource_index: 5, mint_account: 10, token_account: 11, amount: 1 };
    let three = ResourceMintCall { resource_index: 3, mint_account: 6, token_account: 7, amount: 1 };
    assert_eq!(out.mints, vec![five, five, three]);
    assert_eq!(p.player.last_search_timestamp, 120);
}

#[test]
fn search_refuses_without_all_accounts() {
    let mut p = player(1);
    let err = search_resources(&mut p, 120, 5, 11).unwrap_err();
    assert_eq!(err, InstructionError::Search(SearchError::InsufficientAccounts));
    assert_eq!(p.player.last_search_timestamp, 0);
    let err = search_resources(&mut p, 120, 5, 0).unwrap_err();
    assert_eq!(err, InstructionError::Search(SearchError::InsufficientAccounts));
    assert_eq!(p.player.last_search_timestamp, 0);
    assert_eq!(search_resources(&mut p, 120, 5, 12).unwrap().mints.len(), 3);
}

#[test]
fn search_seed_mixes_timestamp_and_slot() {
    // 1000 ^ 7 = 1007: 1007 % 6 = 5, 143 % 6 = 5, 77 % 6 = 5
    let mut p = player(2);
    assert_eq!(search_resources(&mut p, 1000, 7, 12).unwrap().found, [5, 5, 5]);
    // 600 ^ 0 = 600: 600 % 6 = 0, 85 % 6 = 1, 46 % 6 = 4
    let mut q = player(2);
    assert_eq!(search_resources(&mut q, 600, 0, 12).unwrap().found, [0, 1, 4]);
}

#[test]
fn second_search_within_cooldown_fails() {
    let mut p = player(3);
    assert!(search_resources(&mut p, 1000, 1, 12).is_ok());
    let err = search_resources(&mut p, 1059, 1, 12).unwrap_err();
    assert_eq!(err, InstructionError::Search(SearchError::SearchCooldownActive));
    assert_eq!(p.player.last_search_timestamp, 1000);
    assert!(search_resources(&mut p, 1060, 1, 12).is_ok());
    assert_eq!(p.player.last_search_timestamp, 1060);
}

#[test]
fn only_owner_searches() {
    let mut p = SearchResources { owner: key(4), ..player(3) };
    assert_eq!(search_resources(&mut p, 1000, 1, 12).unwrap_err(), InstructionError::ConstraintSeeds);
    assert_eq!(InstructionError::ConstraintSeeds.code(), 2006);
    assert_eq!(p.player.last_search_timestamp, 0);
}

#[test]
fn search_mints_pass_resource_manager() {
    let mut p = player(3);
    let out = search_resources(&mut p, 987654, 123456789, 12).unwrap();
    assert_eq!(out.mints.len(), 3);
    for m in out.mints {
        assert!(m.resource_index < 6);
        assert!(mint_resource(&MintResource { caller: Caller::SearchProgram, resource_mint_bump: 0 }, m.resource_index, m.amount).is_ok());
    }
}

#[test]
fn search_error_code_and_message() {
    assert_eq!(InstructionError::Search(SearchError::SearchCooldownActive).code(), 6000);
    assert_eq!(SearchError::SearchCooldownActive.message(), "Search is on cooldown. Please wait 60 seconds between searches.");
    assert_eq!(InstructionError::Search(SearchError::InsufficientAccounts).code(), 6001);
    assert_eq!(SearchError::InsufficientAccounts.message(), "Insufficient remaining accounts for searching.");
}

#[test]
fn search_now_checks_owner_before_clock() {
    let mut p = SearchResources { owner: key(4), ..player(3) };
    let before = p;
    assert!(matches!(search_resources_now(&mut p, 12), TimedSearch::Refused(InstructionError::ConstraintSeeds)));
    assert_eq!(p.player, before.player);
}

#[test]
fn search_now_without_cluster_clock() {
    // Outside the Solana runtime the clock sysvar is not available.
    let mut p = player(3);
    let unsupported = u64::from(anchor_lang::prelude::ProgramError::UnsupportedSysvar);
    match search_resources_now(&mut p, 12) {
        TimedSearch::ClockUnavailable(code) => assert_eq!(code, unsupported),
        other => panic!("unexpected {:?}", other),
    }
    assert_eq!(p.player.last_search_timestamp, 0);
}

#[test]
fn search_before_epoch_uses_timestamp_bits() {
    // -500 as u64 = 2^64 - 500: remainders 2, 2 and 4
    let mut p = player(5);
    p.player.last_search_timestamp = -1000;
    let out = search_resources(&mut p, -500, 0, 12).unwrap();
    assert_eq!(out.found, [2, 2, 4]);
    assert_eq!(p.player.last_search_timestamp, -500);
}
