//! The search program: once every sixty seconds a player finds three
//! pseudo-random resources, one unit of each, minted through the resource manager.
use vstd::prelude::*;

pub use crate::clock::ClockReading;
use crate::clock::read_clock;
use crate::error::InstructionError;
use crate::key::Key;
use crate::resource_manager::Player;

verus! {

/// Seconds a player must wait between two searches.
pub const SEARCH_COOLDOWN: i64 = 60;

/// Extra accounts a search needs: the mint and the player's token account of
/// each of the six resources, in pairs.
pub const SEARCH_ACCOUNTS: usize = 12;

#[derive(Clone, Copy, Debug, PartialEq, Eq, Structural)]
pub enum SearchError {
    SearchCooldownActive,
    InsufficientAccounts,
}

impl SearchError {
    pub open spec fn spec_index(self) -> u32 {
        match self {
            SearchError::SearchCooldownActive => 0,
            SearchError::InsufficientAccounts => 1,
        }
    }

    /// Position of the error in the program's error list.
    pub fn index(&self) -> (i: u32)
        ensures
            i == self.spec_index(),
    {
        match self {
            SearchError::SearchCooldownActive => 0,
            SearchError::InsufficientAccounts => 1,
        }
    }

    pub fn message(&self) -> (m: &'static str)
        ensures
            m@ == self.spec_message(),
    {
        match self {
            SearchError::SearchCooldownActive => "Search is on cooldown. Please wait 60 seconds between searches.",
            SearchError::InsufficientAccounts => "Insufficient remaining accounts for searching.",
        }
    }

    pub open spec fn spec_message(self) -> Seq<char> {
        match self {
            SearchError::SearchCooldownActive => "Search is on cooldown. Please wait 60 seconds between searches."@,
            SearchError::InsufficientAccounts => "Insufficient remaining accounts for searching."@,
        }
    }
}

/// A request to the resource manager to mint `amount` of resource
/// `resource_index`; the mint and the player's token account are the extra
/// accounts at positions `mint_account` and `token_account`.
#[derive(Clone, Copy, Debug, PartialEq, Eq, Structural)]
pub struct ResourceMintCall {
    pub resource_index: u8,
    pub mint_account: usize,
    pub token_account: usize,
    pub amount: u64,
}

/// What a search found and the mints it asks for.
#[derive(Debug)]
pub struct SearchOutcome {
    pub found: [u8; 3],
    pub mints: Vec<ResourceMintCall>,
}

/// The pseudo-random seed of a search: the timestamp's bits mixed with the slot.
pub open spec fn search_seed(unix_timestamp: i64, slot: u64) -> u64 {
    (unix_timestamp as u64) ^ slot
}

/// The three resources a search with this seed finds.
pub open spec fn found_resources(seed: u64) -> Seq<u8> {
    seq![(seed % 6) as u8, ((seed / 7) % 6) as u8, ((seed / 13) % 6) as u8]
}

/// The mint request for one found resource, one unit, with the mint at
/// position `2 * resource` and the token account right after it.
pub open spec fn mint_call_for(resource: u8) -> ResourceMintCall {
    ResourceMintCall {
        resource_index: resource,
        mint_account: (2 * resource) as usize,
        token_account: (2 * resource + 1) as usize,
        amount: 1,
    }
}

/// The mints of a search: one unit of each found resource, in the order the
/// resources were found.
pub open spec fn search_mints(found: Seq<u8>) -> Seq<ResourceMintCall> {
    found.map_values(|r: u8| mint_call_for(r))
}

/// Whether the cooldown has passed since the player's last search.
pub open spec fn cooldown_passed(player: Player, unix_timestamp: i64) -> bool {
    unix_timestamp - player.last_search_timestamp >= SEARCH_COOLDOWN
}

/// The error a search answers with, if any. The player account's address is
/// derived from its owner, so another signer does not match its seeds.
pub open spec fn search_error(
    player: Player,
    owner: Key,
    unix_timestamp: i64,
    remaining_accounts: usize,
) -> Option<InstructionError> {
    if player.owner != owner {
        Some(InstructionError::ConstraintSeeds)
    } else if !cooldown_passed(player, unix_timestamp) {
        Some(InstructionError::Search(SearchError::SearchCooldownActive))
    } else if remaining_accounts < SEARCH_ACCOUNTS {
        Some(InstructionError::Search(SearchError::InsufficientAccounts))
    } else {
        None
    }
}

/// What a search at `unix_timestamp` and `slot` with `remaining_accounts`
/// extra accounts does: `after` is the state after it and `r` its answer.
pub open spec fn search_result(
    before: SearchResources,
    after: SearchResources,
    unix_timestamp: i64,
    slot: u64,
    remaining_accounts: usize,
    r: Result<SearchOutcome, InstructionError>,
) -> bool {
    &&& after.owner == before.owner
    &&& match search_error(before.player, before.owner, unix_timestamp, remaining_accounts) {
        Some(e) => r == Err::<SearchOutcome, InstructionError>(e) && after.player == before.player,
        None => {
            &&& after.player == (Player { last_search_timestamp: unix_timestamp, ..before.player })
            &&& r matches Ok(out) && out.found@ == found_resources(search_seed(unix_timestamp, slot))
                && out.mints@ == search_mints(out.found@)
        },
    }
}

/// Whether the seconds between the player's last search and `unix_timestamp`
/// fit in a signed 64-bit number.
pub open spec fn elapsed_fits(player: Player, unix_timestamp: i64) -> bool {
    i64::MIN <= unix_timestamp - player.last_search_timestamp <= i64::MAX
}

/// What `search_resources` reads and writes: the player and the signing owner.
#[derive(Clone, Copy, Debug)]
pub struct SearchResources {
    pub player: Player,
    pub owner: Key,
}

/// Searches for resources at the clock's `unix_timestamp` and `slot`, with
/// `remaining_accounts` extra accounts (mint and token account of each
/// resource, in pairs) passed along. A search that succeeds mints all three
/// resources it finds; without the accounts of all six resources it is
/// refused before the cooldown starts.
pub fn search_resources(
    ctx: &mut SearchResources,
    unix_timestamp: i64,
    slot: u64,
    remaining_accounts: usize,
) -> (r: Result<SearchOutcome, InstructionError>)
    requires
        old(ctx).player.owner == old(ctx).owner ==> elapsed_fits(old(ctx).player, unix_timestamp),
    ensures
        search_result(*old(ctx), *final(ctx), unix_timestamp, slot, remaining_accounts, r),
{
    if !ctx.player.owner.same(&ctx.owner) {
        return Err(InstructionError::ConstraintSeeds);
    }
    let time_diff = unix_timestamp - ctx.player.last_search_timestamp;
    if time_diff < SEARCH_COOLDOWN {
        return Err(InstructionError::Search(SearchError::SearchCooldownActive));
    }
    if remaining_accounts < SEARCH_ACCOUNTS {
        return Err(InstructionError::Search(SearchError::InsufficientAccounts));
    }
    ctx.player.last_search_timestamp = unix_timestamp;

    let random_seed: u64 = (unix_timestamp as u64) ^ slot;
    let resource1: u8 = (random_seed % 6) as u8;
    let resource2: u8 = ((random_seed / 7) % 6) as u8;
    let resource3: u8 = ((random_seed / 13) % 6) as u8;
    let found: [u8; 3] = [resource1, resource2, resource3];
    assert(found@ =~= found_resources(search_seed(unix_timestamp, slot)));

    let mut mints: Vec<ResourceMintCall> = Vec::new();
    let mut i: usize = 0;
    while i < 3
        invariant
            i <= 3,
            found@ == found_resources(search_seed(unix_timestamp, slot)),
            mints@ == search_mints(found@.take(i as int)),
        decreases 3 - i,
    {
        let res_idx: u8 = found[i];
        let mint_idx: usize = (res_idx as usize) * 2;
        let token_idx: usize = mint_idx + 1;
        mints.push(
            ResourceMintCall {
                resource_index: res_idx,
                mint_account: mint_idx,
                token_account: token_idx,
                amount: 1,
            },
        );
        assert(search_mints(found@.take(i + 1)) =~= search_mints(found@.take(i as int)).push(
            mint_call_for(res_idx),
        ));
        i = i + 1;
    }
    assert(found@.take(3) =~= found@);
    Ok(SearchOutcome { found, mints })
}

/// How a search at the current time went.
#[derive(Debug)]
pub enum TimedSearch {
    /// Refused before the clock was read.
    Refused(InstructionError),
    /// The clock could not be read; the runtime's error code.
    ClockUnavailable(u64),
    /// The seconds since the player's last search, at this reading, do not
    /// fit in a signed 64-bit number.
    TimeOverflow(ClockReading),
    /// The search ran at this reading.
    Ran(ClockReading, Result<SearchOutcome, InstructionError>),
}

/// Searches for resources at the time the cluster's clock reads. The owner
/// is checked before the clock is read.
pub fn search_resources_now(ctx: &mut SearchResources, remaining_accounts: usize) -> (r:
    TimedSearch)
    ensures
        match r {
            TimedSearch::Refused(e) => old(ctx).player.owner != old(ctx).owner && e
                == InstructionError::ConstraintSeeds && *final(ctx) == *old(ctx),
            TimedSearch::ClockUnavailable(_) => old(ctx).player.owner == old(ctx).owner
                && *final(ctx) == *old(ctx),
            TimedSearch::TimeOverflow(c) => old(ctx).player.owner == old(ctx).owner
                && !elapsed_fits(old(ctx).player, c.timestamp_of()) && *final(ctx) == *old(ctx),
            TimedSearch::Ran(c, res) => old(ctx).player.owner == old(ctx).owner && search_result(
                *old(ctx),
                *final(ctx),
                c.timestamp_of(),
                c.slot_of(),
                remaining_accounts,
                res,
            ),
        },
{
    if !ctx.player.owner.same(&ctx.owner) {
        return TimedSearch::Refused(InstructionError::ConstraintSeeds);
    }
    let clock = match read_clock() {
        Ok(c) => c,
        Err(code) => return TimedSearch::ClockUnavailable(code),
    };
    let last = ctx.player.last_search_timestamp;
    let now = clock.unix_timestamp();
    if (last >= 0 && now < i64::MIN + last) || (last < 0 && now > i64::MAX + last) {
        return TimedSearch::TimeOverflow(clock);
    }
    let res = search_resources(ctx, now, clock.slot(), remaining_accounts);
    TimedSearch::Ran(clock, res)
}

} // verus!
