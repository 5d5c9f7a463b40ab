//! The status line of the basic client.

use vstd::prelude::*;

use crate::status::{
    append_queue_and_cache, append_rates, are_comparable, comparable, queue_and_cache, rates,
};
use crate::status::{BlockChainInfo, BlockQueueInfo, CacheSize, ClientReport};
use crate::text::{decimal, decimal_text};
use crate::usage::text_view;

verus! {

/// How far the client is with its peers.
#[derive(Clone, Copy, Debug, PartialEq, Eq)]
pub struct SyncStatus {
    /// The peers that blocks are asked of.
    pub num_active_peers: usize,
    /// All the peers.
    pub num_peers: usize,
    /// The blocks that were received.
    pub blocks_received: usize,
}

/// Keeps the last readings, which the next ones are compared with.
#[derive(Debug)]
pub struct Informant {
    pub chain_info: Option<BlockChainInfo>,
    pub cache_info: Option<CacheSize>,
    pub report: Option<ClientReport>,
}

/// The status line.
pub open spec fn status_line(
    chain: BlockChainInfo,
    queue: BlockQueueInfo,
    cache: CacheSize,
    report: ClientReport,
    sync: SyncStatus,
    last_cache: CacheSize,
    last_report: ClientReport,
) -> Seq<char> {
    "[ "@ + decimal(chain.best_block_number as nat) + " "@ + chain.best_block_hash@ + " ]---[ "@
        + rates(report, last_report) + decimal(sync.num_active_peers as nat) + "/"@ + decimal(
        sync.num_peers as nat,
    ) + " peers, "@ + decimal(sync.blocks_received as nat) + " downloaded, "@ + queue_and_cache(
        queue,
        cache,
        last_cache,
    )
}

/// Writes the status line.
fn status_text(
    chain: &BlockChainInfo,
    queue: &BlockQueueInfo,
    cache: &CacheSize,
    report: &ClientReport,
    sync: &SyncStatus,
    last_cache: &CacheSize,
    last_report: &ClientReport,
) -> (r: String)
    requires
        comparable(*report, *cache, *last_report, *last_cache),
    ensures
        r@ == status_line(*chain, *queue, *cache, *report, *sync, *last_cache, *last_report),
{
    let mut line = "[ ".to_owned();
    line.append(decimal_text(chain.best_block_number).as_str());
    line.append(" ");
    line.append(chain.best_block_hash.as_str());
    line.append(" ]---[ ");
    append_rates(&mut line, report, last_report);
    line.append(decimal_text(sync.num_active_peers as u64).as_str());
    line.append("/");
    line.append(decimal_text(sync.num_peers as u64).as_str());
    line.append(" peers, ");
    line.append(decimal_text(sync.blocks_received as u64).as_str());
    line.append(" downloaded, ");
    append_queue_and_cache(&mut line, queue, cache, last_cache);
    line
}

impl Default for Informant {
    /// Nothing has been read yet.
    fn default() -> (r: Informant)
        ensures
            r == no_readings(),
    {
        Informant { chain_info: None, cache_info: None, report: None }
    }
}

/// Nothing has been read yet.
pub open spec fn no_readings() -> Informant {
    Informant { chain_info: None, cache_info: None, report: None }
}

/// Readings that are taken together.
pub struct Readings {
    pub chain: BlockChainInfo,
    pub queue: BlockQueueInfo,
    pub cache: CacheSize,
    pub report: ClientReport,
    pub sync: SyncStatus,
}

impl Informant {
    /// Whether readings can be compared with the last ones, if there are any.
    pub open spec fn accepts(self, cache: CacheSize, report: ClientReport) -> bool {
        match (self.cache_info, self.report) {
            (Some(last_cache), Some(last_report)) => comparable(
                report,
                cache,
                last_report,
                last_cache,
            ),
            _ => true,
        }
    }

    /// What is shown of readings: nothing without earlier ones.
    pub open spec fn shown(self, now: Readings) -> Option<Seq<char>> {
        match (self.cache_info, self.report) {
            (Some(last_cache), Some(last_report)) => Some(
                status_line(
                    now.chain,
                    now.queue,
                    now.cache,
                    now.report,
                    now.sync,
                    last_cache,
                    last_report,
                ),
            ),
            _ => None,
        }
    }

    /// What is kept of readings.
    pub open spec fn kept(now: Readings) -> Informant {
        Informant {
            chain_info: Some(now.chain),
            cache_info: Some(now.cache),
            report: Some(now.report),
        }
    }

    /// Whether readings can be compared with the last ones, if there are any.
    pub fn can_tick(&self, cache_info: &CacheSize, report: &ClientReport) -> (r: bool)
        ensures
            r == self.accepts(*cache_info, *report),
    {
        match (&self.cache_info, &self.report) {
            (Some(last_cache), Some(last_report)) => are_comparable(
                report,
                cache_info,
                last_report,
                last_cache,
            ),
            _ => true,
        }
    }

    /// Takes in readings, and gives the line to show of them.
    pub fn tick(
        &mut self,
        chain_info: BlockChainInfo,
        queue_info: BlockQueueInfo,
        cache_info: CacheSize,
        report: ClientReport,
        sync_info: SyncStatus,
    ) -> (r: Option<String>)
        requires
            old(self).accepts(cache_info, report),
        ensures
            ({
                let now = Readings {
                    chain: chain_info,
                    queue: queue_info,
                    cache: cache_info,
                    report: report,
                    sync: sync_info,
                };
                &&& text_view(r) == old(self).shown(now)
                &&& *final(self) == Informant::kept(now)
            }),
    {
        let line = match (&self.cache_info, &self.report) {
            (Some(last_cache), Some(last_report)) => Some(
                status_text(
                    &chain_info,
                    &queue_info,
                    &cache_info,
                    &report,
                    &sync_info,
                    last_cache,
                    last_report,
                ),
            ),
            _ => None,
        };
        self.chain_info = Some(chain_info);
        self.cache_info = Some(cache_info);
        self.report = Some(report);
        line
    }
}

/// The first readings are not shown.
pub proof fn lemma_first_tick_is_silent(now: Readings)
    ensures
        no_readings().shown(now) is None,
        no_readings().accepts(now.cache, now.report),
{
}

/// Readings are shown once there are earlier ones, and what is shown depends on
/// nothing before those.
pub proof fn lemma_later_ticks_are_shown(earlier: Readings, now: Readings)
    ensures
        Informant::kept(earlier).shown(now) == Some(
            status_line(
                now.chain,
                now.queue,
                now.cache,
                now.report,
                now.sync,
                earlier.cache,
                earlier.report,
            ),
        ),
{
}

/// Readings in which nothing the client has done became less, and whose cache
/// sizes are in the lower half of the range, can be compared.
pub proof fn lemma_progress_is_accepted(earlier: Readings, now: Readings)
    requires
        earlier.report.blocks_imported <= now.report.blocks_imported,
        earlier.report.transactions_applied <= now.report.transactions_applied,
        earlier.report.gas_processed@ <= now.report.gas_processed@,
        earlier.cache.blocks <= isize::MAX && now.cache.blocks <= isize::MAX,
        earlier.cache.block_details <= isize::MAX && now.cache.block_details <= isize::MAX,
    ensures
        Informant::kept(earlier).accepts(now.cache, now.report),
{
}

} // verus!
