//! Laws of the status line of the full client.

use vstd::prelude::*;

use crate::informant::{no_readings, Informant, Readings, SyncStatus};
use crate::laws::numbers::lemma_rates;
use crate::status::{as_signed, per_second, queue_and_cache, rates, signed_difference_fits};
use crate::text::{decimal, occurs, occurs_at, signed_decimal};

verus! {

/// The full client's line shows, one after the other, the best block, what was done per second
/// since the earlier readings, in whole units, the peers, the block imported last, what
/// waits, and the sizes of the cache with their changes.
pub proof fn lemma_line_shows(
    earlier: Readings,
    now: Readings,
    blocks: nat,
    transactions: nat,
    gas: nat,
    import: nat,
    block_change: int,
    detail_change: int,
)
    requires
        5 * blocks <= now.report.blocks_imported - earlier.report.blocks_imported < 5 * blocks + 5,
        5 * transactions <= now.report.transactions_applied - earlier.report.transactions_applied
            < 5 * transactions + 5,
        5 * gas <= now.report.gas_processed@ - earlier.report.gas_processed@ < 5 * gas + 5,
        match now.sync.last_imported_block_number {
            Some(n) => import == n,
            None => import == now.chain.best_block_number,
        },
        block_change == as_signed(now.cache.blocks) - as_signed(earlier.cache.blocks),
        detail_change == as_signed(now.cache.block_details) - as_signed(
            earlier.cache.block_details,
        ),
    ensures
        Informant::kept(earlier).shown(now) == Some(
            "[ #"@ + decimal(now.chain.best_block_number as nat) + " "@
                + now.chain.best_block_hash@ + " ]---[ "@ + (decimal(blocks) + " blk/s | "@
                + decimal(transactions) + " tx/s | "@ + decimal(gas) + " gas/s  //··· "@) + decimal(
                now.sync.num_active_peers as nat,
            ) + "/"@ + decimal(now.sync.num_peers as nat) + " peers, #"@ + decimal(import) + ", "@ + (
            decimal(now.queue.unverified_queue_size as nat) + "+"@ + decimal(
                now.queue.verified_queue_size as nat,
            ) + " queued ···//  "@ + (decimal(now.cache.blocks as nat) + " ("@ + signed_decimal(
                block_change,
            ) + ")"@) + " bl  "@ + (decimal(now.cache.block_details as nat) + " ("@
                + signed_decimal(detail_change) + ")"@) + " ex ]"@),
        ),
{
    lemma_rates(now.report.blocks_imported as nat, earlier.report.blocks_imported as nat);
    lemma_rates(now.report.transactions_applied as nat, earlier.report.transactions_applied as nat);
    lemma_rates(now.report.gas_processed@, earlier.report.gas_processed@);
}

/// A number of the block that was imported last is shown as it is, whatever the number of
/// the best block, and only where there is none the number of the best block is shown.
pub proof fn lemma_last_import_is_shown(earlier: Readings, now: Readings, n: u64)
    ensures
        now.sync.last_imported_block_number == Some(n) ==> occurs(
            Informant::kept(earlier).shown(now)->0,
            " peers, #"@ + decimal(n as nat) + ", "@,
        ),
        now.sync.last_imported_block_number is None ==> occurs(
            Informant::kept(earlier).shown(now)->0,
            " peers, #"@ + decimal(now.chain.best_block_number as nat) + ", "@,
        ),
{
    let import = match now.sync.last_imported_block_number {
        Some(k) => k as nat,
        None => now.chain.best_block_number as nat,
    };
    let (blocks, transactions, gas) = (
        per_second(now.report.blocks_imported as nat, earlier.report.blocks_imported as nat),
        per_second(
            now.report.transactions_applied as nat,
            earlier.report.transactions_applied as nat,
        ),
        per_second(now.report.gas_processed@, earlier.report.gas_processed@),
    );
    let line = Informant::kept(earlier).shown(now)->0;
    let piece = " peers, #"@ + decimal(import) + ", "@;
    let before = "[ #"@ + decimal(now.chain.best_block_number as nat) + " "@
        + now.chain.best_block_hash@ + " ]---[ "@ + decimal(blocks) + " blk/s | "@ + decimal(
        transactions,
    ) + " tx/s | "@ + decimal(gas) + " gas/s  //··· "@ + decimal(
        now.sync.num_active_peers as nat,
    ) + "/"@ + decimal(now.sync.num_peers as nat);
    let behind = line.skip((before + piece).len() as int);
    assert(line =~= before + piece + behind);
    assert(line.subrange(before.len() as int, (before + piece).len() as int) =~= piece);
    assert(occurs_at(line, piece, before.len() as int));
}

/// What was imported last changes nothing else in the line.
pub proof fn lemma_last_import_stands_alone(earlier: Readings, now: Readings) -> (words: (
    Seq<char>,
    Seq<char>,
))
    ensures
        forall|m: u64| #[trigger]
            Informant::kept(earlier).shown(
                Readings {
                    sync: SyncStatus { last_imported_block_number: Some(m), ..now.sync },
                    ..now
                },
            ) == Some(words.0 + decimal(m as nat) + words.1),
{
    let at = |m: u64|
        Readings { sync: SyncStatus { last_imported_block_number: Some(m), ..now.sync }, ..now };
    let before = "[ #"@ + decimal(now.chain.best_block_number as nat) + " "@
        + now.chain.best_block_hash@ + " ]---[ "@ + rates(now.report, earlier.report) + decimal(
        now.sync.num_active_peers as nat,
    ) + "/"@ + decimal(now.sync.num_peers as nat) + " peers, #"@;
    let behind = ", "@ + queue_and_cache(now.queue, now.cache, earlier.cache);
    assert forall|m: u64|
        #[trigger] Informant::kept(earlier).shown(
            Readings {
                sync: SyncStatus { last_imported_block_number: Some(m), ..now.sync },
                ..now
            },
        ) == Some(before + decimal(m as nat) + behind) by {
        let line = Informant::kept(earlier).shown(at(m))->0;
        assert(line =~= before + decimal(m as nat) + behind);
    }
    (before, behind)
}

/// A line is shown exactly where a report and cache sizes were read before, and it is the
/// same whatever was read of the chain then.
pub proof fn lemma_line_needs_earlier_readings(informant: Informant, now: Readings)
    ensures
        informant.shown(now) is Some <==> informant.cache_info is Some && informant.report is Some,
        (Informant { chain_info: None, ..informant }).shown(now) == informant.shown(now),
        no_readings().chain_info is None,
        no_readings().cache_info is None,
        no_readings().report is None,
{
}

/// The readings are kept as they are.
pub proof fn lemma_readings_are_kept(now: Readings)
    ensures
        Informant::kept(now).chain_info == Some(now.chain),
        Informant::kept(now).cache_info == Some(now.cache),
        Informant::kept(now).report == Some(now.report),
{
}

/// Readings can be compared exactly where nothing that the client has done has become less
/// and the changes of the cache sizes are in range; where something is missing of the
/// earlier ones, nothing is compared.
pub proof fn lemma_readings_compared_when(earlier: Readings, now: Readings, informant: Informant)
    ensures
        Informant::kept(earlier).accepts(now.cache, now.report) <==> {
            &&& earlier.report.blocks_imported <= now.report.blocks_imported
            &&& earlier.report.transactions_applied <= now.report.transactions_applied
            &&& earlier.report.gas_processed@ <= now.report.gas_processed@
            &&& isize::MIN <= as_signed(now.cache.blocks) - as_signed(earlier.cache.blocks)
                <= isize::MAX
            &&& isize::MIN <= as_signed(now.cache.block_details) - as_signed(
                earlier.cache.block_details,
            ) <= isize::MAX
        },
        informant.cache_info is None || informant.report is None ==> informant.accepts(
            now.cache,
            now.report,
        ),
        signed_difference_fits(now.cache.blocks, now.cache.blocks),
{
}

} // verus!
