//! The accounts that the sale keeps.

use vstd::prelude::*;
use crate::pubkey::Pubkey;

verus! {

/// An accepted payer asset and the oracle feed that prices it.
#[derive(Debug, Clone, Copy)]
pub struct PriceFeedInfo {
    pub asset: Pubkey,
    pub data_feed: Pubkey,
}

impl PriceFeedInfo {
    /// Stored size of one registry entry, in bytes.
    pub const LEN: usize = 32 * 2;

    pub fn get_len() -> (r: usize)
        ensures
            r == Self::LEN,
    {
        Self::LEN
    }
}

/// The sale's configuration, owned by its administrator.
#[derive(Debug, Clone)]
pub struct ProgramConfig {
    pub admin: Pubkey,
    pub collected_funds_account: Pubkey,
    pub chainlink_program: Pubkey,
    pub has_presale_ended: bool,
    /// Price of one vault-asset unit in the quote currency, with
    /// `usd_decimals` decimal places.
    pub usd_price: u64,
    pub usd_decimals: u8,
    /// The feed registry: one oracle feed per accepted payer asset.
    pub feeds: Vec<PriceFeedInfo>,
    /// The share of each holder's purchases that may be claimed, in percent.
    pub available_percentage: u8,
}

/// Whether no asset has two entries in the feed registry.
pub open spec fn feed_assets_unique(feeds: Seq<PriceFeedInfo>) -> bool {
    forall|i: int, j: int|
        0 <= i < j < feeds.len() ==> #[trigger] feeds[i].asset != #[trigger] feeds[j].asset
}

/// Whether the registry pairs `asset` with `feed`.
pub open spec fn feed_registered(feeds: Seq<PriceFeedInfo>, asset: Pubkey, feed: Pubkey) -> bool {
    exists|i: int| 0 <= i < feeds.len() && #[trigger] feeds[i] == (PriceFeedInfo { asset, data_feed: feed })
}

impl ProgramConfig {
    /// Stored size of a configuration without its registry entries, in bytes:
    /// tag, three identities, the sale flag, the price and its scale, the
    /// unlock percentage, and the registry's length.
    pub const BASE_LEN: usize = 8 + 32 + 32 + 32 + 1 + 8 + 1 + 1 + 4;

    /// The configuration's invariant: the unlock percentage is at most one
    /// hundred and each asset has at most one feed.
    pub open spec fn wf(&self) -> bool {
        &&& self.available_percentage <= 100
        &&& feed_assets_unique(self.feeds@)
    }

    /// Stored size of a configuration whose registry holds `mints_len` entries.
    pub fn get_len(mints_len: usize) -> (r: usize)
        requires
            Self::BASE_LEN + mints_len * PriceFeedInfo::LEN <= usize::MAX,
        ensures
            r == Self::BASE_LEN + mints_len * PriceFeedInfo::LEN,
    {
        let mints_size = mints_len * PriceFeedInfo::get_len();
        Self::BASE_LEN + mints_size
    }

    /// Whether the registry pairs `asset` with `feed`.
    pub fn is_feed_registered(&self, asset: &Pubkey, feed: &Pubkey) -> (r: bool)
        ensures
            r == feed_registered(self.feeds@, *asset, *feed),
    {
        let mut i: usize = 0;
        while i < self.feeds.len()
            invariant
                i <= self.feeds@.len(),
                forall|j: int|
                    0 <= j < i ==> self.feeds@[j] != (PriceFeedInfo { asset: *asset, data_feed: *feed }),
            decreases self.feeds@.len() - i,
        {
            let entry = &self.feeds[i];
            if entry.asset == *asset && entry.data_feed == *feed {
                proof {
                    assert(self.feeds@[i as int] == (PriceFeedInfo { asset: *asset, data_feed: *feed }));
                }
                return true;
            }
            i = i + 1;
        }
        false
    }
}

/// Whether no asset appears twice in `feeds`.
pub fn has_unique_assets(feeds: &Vec<PriceFeedInfo>) -> (r: bool)
    ensures
        r == feed_assets_unique(feeds@),
{
    let mut i: usize = 0;
    while i < feeds.len()
        invariant
            i <= feeds@.len(),
            forall|a: int, b: int| 0 <= a < b < feeds@.len() && a < i ==> feeds@[a].asset != feeds@[b].asset,
        decreases feeds@.len() - i,
    {
        let mut j: usize = i + 1;
        while j < feeds.len()
            invariant
                i < feeds@.len(),
                i + 1 <= j <= feeds@.len(),
                forall|a: int, b: int| 0 <= a < b < feeds@.len() && a < i ==> feeds@[a].asset != feeds@[b].asset,
                forall|b: int| i < b < j ==> feeds@[i as int].asset != feeds@[b].asset,
            decreases feeds@.len() - j,
        {
            if feeds[i].asset == feeds[j].asset {
                return false;
            }
            j = j + 1;
        }
        i = i + 1;
    }
    true
}

/// The reserve of the vault asset that remains for sale.
#[derive(PartialEq, Eq, Structural, Debug, Clone, Copy)]
pub struct VaultInfo {
    pub stake: u64,
    pub decimals: u8,
}

/// One holder's account: everything ever purchased, and what is held for
/// them and not yet claimed.
#[derive(PartialEq, Eq, Structural, Debug, Clone, Copy)]
pub struct UserInfo {
    pub stake: u64,
    pub balance: u64,
}

impl UserInfo {
    /// The account of a holder who has not purchased yet.
    pub fn new() -> (r: UserInfo)
        ensures
            r.stake == 0,
            r.balance == 0,
    {
        UserInfo { stake: 0, balance: 0 }
    }
}

/// One reading of a price feed: `value` with `decimals` decimal places.
#[derive(Debug, Clone)]
pub struct DataFeed {
    pub description: String,
    pub decimals: u8,
    pub value: i128,
}

} // verus!
