use parity::basic;
use parity::informant::{Informant, SyncStatus};
use parity::status::{BlockChainInfo, BlockQueueInfo, CacheSize, ClientReport};
use parity::timer::{initialize, timeout, INFO_TIMER};
use parity::u256::U256;

fn chain(n: u64) -> BlockChainInfo {
    BlockChainInfo { best_block_number: n, best_block_hash: "d4e5\u{2026}8fa3".to_string() }
}

fn report(blocks: usize, transactions: usize, gas: U256) -> ClientReport {
    ClientReport {
        blocks_imported: blocks,
        transactions_applied: transactions,
        gas_processed: gas,
    }
}

const QUEUE: BlockQueueInfo = BlockQueueInfo { unverified_queue_size: 4, verified_queue_size: 5 };

#[test]
fn second_tick_is_shown() {
    let sync = SyncStatus {
        num_active_peers: 2,
        num_peers: 3,
        last_imported_block_number: Some(98),
    };
    let mut info = Informant::default();
    let cache = CacheSize { blocks: 1000, block_details: 70 };
    let first = report(10, 20, U256([5, 0, 0, 0]));
    assert!(info.can_tick(&cache, &first));
    assert_eq!(info.tick(chain(99), QUEUE, cache, first, sync), None);
    let cache = CacheSize { blocks: 900, block_details: 100 };
    let second = report(39, 45, U256([4, 1, 0, 0]));
    assert!(info.can_tick(&cache, &second));
    assert_eq!(
        info.tick(chain(100), QUEUE, cache, second, sync),
        Some(
            "[ #100 d4e5\u{2026}8fa3 ]---[ 5 blk/s | 5 tx/s | 3689348814741910323 gas/s  \
             //\u{b7}\u{b7}\u{b7} 2/3 peers, #98, 4+5 queued \u{b7}\u{b7}\u{b7}//  900 (-100) bl  \
             100 (30) ex ]"
                .to_string()
        )
    );
    assert_eq!(info.report, Some(second));
    assert_eq!(info.cache_info, Some(cache));
    assert_eq!(info.chain_info.map(|c| c.best_block_number), Some(100));
}

#[test]
fn best_block_stands_in_for_the_last_import() {
    let sync = SyncStatus { num_active_peers: 0, num_peers: 0, last_imported_block_number: None };
    let mut info = Informant::default();
    let cache = CacheSize { blocks: 0, block_details: 0 };
    let same = report(0, 0, U256([0, 0, 0, 0]));
    info.tick(chain(7), QUEUE, cache, same, sync);
    assert_eq!(
        info.tick(chain(7), QUEUE, cache, same, sync),
        Some(
            "[ #7 d4e5\u{2026}8fa3 ]---[ 0 blk/s | 0 tx/s | 0 gas/s  //\u{b7}\u{b7}\u{b7} 0/0 \
             peers, #7, 4+5 queued \u{b7}\u{b7}\u{b7}//  0 (0) bl  0 (0) ex ]"
                .to_string()
        )
    );
}

#[test]
fn readings_that_go_back_are_not_compared() {
    let sync = SyncStatus { num_active_peers: 0, num_peers: 0, last_imported_block_number: None };
    let mut info = Informant::default();
    let cache = CacheSize { blocks: 0, block_details: 0 };
    info.tick(chain(7), QUEUE, cache, report(5, 5, U256([0, 1, 0, 0])), sync);
    assert!(info.can_tick(&cache, &report(5, 5, U256([0, 1, 0, 0]))));
    assert!(!info.can_tick(&cache, &report(4, 5, U256([0, 1, 0, 0]))));
    assert!(!info.can_tick(&cache, &report(5, 4, U256([0, 1, 0, 0]))));
    assert!(!info.can_tick(&cache, &report(5, 5, U256([u64::MAX, 0, 0, 0]))));
    let upper = CacheSize { blocks: usize::MAX, block_details: 0 };
    assert!(info.can_tick(&upper, &report(5, 5, U256([0, 1, 0, 0]))));
    let line = info.tick(chain(7), QUEUE, upper, report(5, 5, U256([0, 1, 0, 0])), sync);
    assert!(line.unwrap().contains("//  18446744073709551615 (-1) bl"));
    let lowest = CacheSize { blocks: isize::MAX as usize, block_details: 0 };
    assert!(!info.can_tick(&lowest, &report(5, 5, U256([0, 1, 0, 0]))));
}

#[test]
fn basic_client_shows_what_was_downloaded() {
    let sync = basic::informant::SyncStatus {
        num_active_peers: 2,
        num_peers: 3,
        blocks_received: 44,
    };
    let mut info = basic::informant::Informant::default();
    let cache = CacheSize { blocks: 1000, block_details: 70 };
    assert_eq!(info.tick(chain(1), QUEUE, cache, report(0, 0, U256([0, 0, 0, 0])), sync), None);
    let cache = CacheSize { blocks: 1001, block_details: 60 };
    let second = report(50, 501, U256([60, 0, 0, 0]));
    assert!(info.can_tick(&cache, &second));
    assert_eq!(
        info.tick(chain(2), QUEUE, cache, second, sync),
        Some(
            "[ 2 d4e5\u{2026}8fa3 ]---[ 10 blk/s | 100 tx/s | 12 gas/s  //\u{b7}\u{b7}\u{b7} 2/3 \
             peers, 44 downloaded, 4+5 queued \u{b7}\u{b7}\u{b7}//  1001 (1) bl  60 (-10) ex ]"
                .to_string()
        )
    );
}

#[test]
fn status_is_due_every_five_seconds() {
    assert_eq!(initialize(), (INFO_TIMER, 5000));
    assert!(timeout(0));
    assert!(!timeout(1));
}
