//! What the status line is made from.

use vstd::prelude::*;

use crate::text::{decimal, decimal_text, signed_decimal, signed_decimal_text};
use crate::timer::INFO_PERIOD_SECONDS;
use crate::u256::U256;

verus! {

/// Where the chain stands.
#[derive(Debug)]
pub struct BlockChainInfo {
    /// The number of the best block.
    pub best_block_number: u64,
    /// The hash of the best block, as it is shown.
    pub best_block_hash: String,
}

/// How many blocks wait.
#[derive(Clone, Copy, Debug, PartialEq, Eq)]
pub struct BlockQueueInfo {
    /// The blocks that wait to be verified.
    pub unverified_queue_size: usize,
    /// The blocks that wait to be imported.
    pub verified_queue_size: usize,
}

/// How much the blockchain cache holds.
#[derive(Clone, Copy, Debug, PartialEq, Eq)]
pub struct CacheSize {
    /// The size of the cached blocks.
    pub blocks: usize,
    /// The size of the cached block details.
    pub block_details: usize,
}

/// What the client has done since it was started.
#[derive(Clone, Copy, Debug, PartialEq, Eq)]
pub struct ClientReport {
    /// The blocks that were imported.
    pub blocks_imported: usize,
    /// The transactions that were applied.
    pub transactions_applied: usize,
    /// The gas that was used up.
    pub gas_processed: U256,
}

/// How much something grew per second, in whole units.
pub open spec fn per_second(now: nat, before: nat) -> nat
    recommends
        now >= before,
{
    ((now - before) / (INFO_PERIOD_SECONDS as int)) as nat
}

/// A size taken as a signed number of the same width: the upper half of the
/// sizes stands for the negative numbers.
pub open spec fn as_signed(size: usize) -> int {
    if size <= isize::MAX {
        size as int
    } else {
        size - (usize::MAX + 1)
    }
}

/// Whether the difference of two sizes, taken as signed numbers, is one too.
pub open spec fn signed_difference_fits(now: usize, before: usize) -> bool {
    isize::MIN <= as_signed(now) - as_signed(before) <= isize::MAX
}

/// Whether rates and differences can be taken between two readings: nothing that
/// the client has done has become less, and the differences of the cache sizes
/// are signed numbers of their width.
pub open spec fn comparable(
    report: ClientReport,
    cache: CacheSize,
    last_report: ClientReport,
    last_cache: CacheSize,
) -> bool {
    &&& report.blocks_imported >= last_report.blocks_imported
    &&& report.transactions_applied >= last_report.transactions_applied
    &&& report.gas_processed@ >= last_report.gas_processed@
    &&& signed_difference_fits(cache.blocks, last_cache.blocks)
    &&& signed_difference_fits(cache.block_details, last_cache.block_details)
}

/// The part of the status line that shows the rates.
pub open spec fn rates(report: ClientReport, last: ClientReport) -> Seq<char> {
    decimal(per_second(report.blocks_imported as nat, last.blocks_imported as nat)) + " blk/s | "@
        + decimal(per_second(report.transactions_applied as nat, last.transactions_applied as nat))
        + " tx/s | "@ + decimal(per_second(report.gas_processed@, last.gas_processed@))
        + " gas/s  //··· "@
}

/// A size and by how much it changed.
pub open spec fn size_and_change(now: usize, before: usize) -> Seq<char> {
    decimal(now as nat) + " ("@ + signed_decimal(as_signed(now) - as_signed(before)) + ")"@
}

/// The part of the status line that shows the queue and the cache.
pub open spec fn queue_and_cache(
    queue: BlockQueueInfo,
    cache: CacheSize,
    last: CacheSize,
) -> Seq<char> {
    decimal(queue.unverified_queue_size as nat) + "+"@ + decimal(queue.verified_queue_size as nat)
        + " queued ···//  "@ + size_and_change(cache.blocks, last.blocks) + " bl  "@
        + size_and_change(cache.block_details, last.block_details) + " ex ]"@
}

/// Takes a size as a signed number.
fn signed(size: usize) -> (r: i128)
    ensures
        r == as_signed(size),
{
    if size <= isize::MAX as usize {
        size as i128
    } else {
        size as i128 - (usize::MAX as i128 + 1)
    }
}

/// Whether rates and differences can be taken between two readings.
pub fn are_comparable(
    report: &ClientReport,
    cache: &CacheSize,
    last_report: &ClientReport,
    last_cache: &CacheSize,
) -> (r: bool)
    ensures
        r == comparable(*report, *cache, *last_report, *last_cache),
{
    let blocks: i128 = signed(cache.blocks) - signed(last_cache.blocks);
    let details: i128 = signed(cache.block_details) - signed(last_cache.block_details);
    let min: i128 = isize::MIN as i128;
    let max: i128 = isize::MAX as i128;
    report.blocks_imported >= last_report.blocks_imported && report.transactions_applied
        >= last_report.transactions_applied && report.gas_processed.at_least(
        &last_report.gas_processed,
    ) && min <= blocks && blocks <= max && min <= details && details <= max
}

/// Writes the part of the status line that shows the rates.
pub fn append_rates(out: &mut String, report: &ClientReport, last: &ClientReport)
    requires
        report.blocks_imported >= last.blocks_imported,
        report.transactions_applied >= last.transactions_applied,
        report.gas_processed@ >= last.gas_processed@,
    ensures
        final(out)@ == old(out)@ + rates(*report, *last),
{
    let blocks: u64 = (report.blocks_imported - last.blocks_imported) as u64 / INFO_PERIOD_SECONDS;
    let transactions: u64 = (report.transactions_applied - last.transactions_applied) as u64
        / INFO_PERIOD_SECONDS;
    let (gas, _) = report.gas_processed.minus(&last.gas_processed).div_rem(INFO_PERIOD_SECONDS);
    let mut text = decimal_text(blocks);
    text.append(" blk/s | ");
    text.append(decimal_text(transactions).as_str());
    text.append(" tx/s | ");
    text.append(gas.decimal_text().as_str());
    text.append(" gas/s  //··· ");
    out.append(text.as_str());
}

/// Writes a size and by how much it changed.
fn append_size_and_change(out: &mut String, now: usize, before: usize)
    requires
        signed_difference_fits(now, before),
    ensures
        final(out)@ == old(out)@ + size_and_change(now, before),
{
    let change: i128 = signed(now) - signed(before);
    let mut text = decimal_text(now as u64);
    text.append(" (");
    text.append(signed_decimal_text(change).as_str());
    text.append(")");
    out.append(text.as_str());
}

/// Writes the part of the status line that shows the queue and the cache.
pub fn append_queue_and_cache(
    out: &mut String,
    queue: &BlockQueueInfo,
    cache: &CacheSize,
    last: &CacheSize,
)
    requires
        signed_difference_fits(cache.blocks, last.blocks),
        signed_difference_fits(cache.block_details, last.block_details),
    ensures
        final(out)@ == old(out)@ + queue_and_cache(*queue, *cache, *last),
{
    let mut text = decimal_text(queue.unverified_queue_size as u64);
    text.append("+");
    text.append(decimal_text(queue.verified_queue_size as u64).as_str());
    text.append(" queued ···//  ");
    append_size_and_change(&mut text, cache.blocks, last.blocks);
    text.append(" bl  ");
    append_size_and_change(&mut text, cache.block_details, last.block_details);
    text.append(" ex ]");
    out.append(text.as_str());
}

/// Sizes in the lower half are their own signed numbers, so that a cache that
/// grew or shrank within them is shown with its true change.
pub proof fn lemma_change_is_difference(now: usize, before: usize)
    requires
        now <= isize::MAX,
        before <= isize::MAX,
    ensures
        signed_difference_fits(now, before),
        as_signed(now) - as_signed(before) == now - before,
{
}

} // verus!
