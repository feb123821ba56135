use dbproject::blockchain::{block_hash, verify_chain, Block, BlockchainDBManager};
use dbproject::error::ShardError;

const HELLO_HASH: &str = "3a7b27119240465ea73d1ac2a2f171e8bf2fb8f8a4a994ca364e89788d69b890";
const WORLD_HASH: &str = "c1aff5d6340b1fac95afbd26790a567692cbdf44c52512db394720505cc655a2";

fn two_blocks() -> BlockchainDBManager {
    let mut ledger = BlockchainDBManager::new();
    ledger.send_message(7, 3, &"hello".to_string(), 100);
    ledger.send_message(7, 3, &"world".to_string(), 101);
    ledger
}

#[test]
fn block_hash_is_sha256_hex_of_previous_text_and_time() {
    assert_eq!(block_hash("", "hello", 100), HELLO_HASH);
    assert_eq!(block_hash("prev", "text", 42), "5b20cbdac755ffc4e970daaf829c4d02ca77451ab5f598403136893aa13704b3");
    assert_eq!(block_hash("ab", "c", 0).len(), 64);
}

#[test]
fn first_append_starts_the_chain() {
    let mut ledger = BlockchainDBManager::new();
    let h = ledger.send_message(1, 1, &"hello".to_string(), 100);
    assert_eq!(h, HELLO_HASH);
    let b = &ledger.blocks()[0];
    assert_eq!(b.block_id, 1);
    assert_eq!(b.previous_block_hash, "");
    assert_eq!(b.message_text, "hello");
    assert_eq!(b.timestamp, 100);
    assert_eq!(b.block_hash, HELLO_HASH);
}

#[test]
fn appends_link_each_block_to_the_one_before() {
    let ledger = two_blocks();
    let blocks = ledger.blocks();
    assert_eq!(blocks.len(), 2);
    assert_eq!(blocks[1].block_id, 2);
    assert_eq!(blocks[1].previous_block_hash, blocks[0].block_hash);
    assert_eq!(blocks[1].block_hash, WORLD_HASH);
}

#[test]
fn many_appends_number_blocks_without_gaps() {
    let mut ledger = BlockchainDBManager::new();
    for i in 0..20u64 {
        ledger.send_message(1, 2, &format!("m{}", i), 1000 + i);
    }
    let blocks = ledger.blocks();
    assert_eq!(blocks.len(), 20);
    for (i, b) in blocks.iter().enumerate() {
        assert_eq!(b.block_id, i as u64 + 1);
        if i == 0 {
            assert_eq!(b.previous_block_hash, "");
        } else {
            assert_eq!(b.previous_block_hash, blocks[i - 1].block_hash);
        }
    }
    let mut ids: Vec<u64> = blocks.iter().map(|b| b.block_id).collect();
    ids.dedup();
    assert_eq!(ids.len(), 20);
    assert!(ledger.verify());
}

#[test]
fn every_block_has_one_log_entry() {
    let ledger = two_blocks();
    let log = ledger.transactions();
    assert_eq!(log.len(), 2);
    for (i, e) in log.iter().enumerate() {
        assert_eq!(e.transaction_id, i as u64 + 1);
        assert_eq!(e.action_type, "SEND_MESSAGE");
        assert_eq!(e.block_hash, ledger.blocks()[i].block_hash);
        assert_eq!(e.user_id, 7);
        assert_eq!(e.channel_id, 3);
    }
}

#[test]
fn verify_holds_after_appends() {
    assert!(BlockchainDBManager::new().verify());
    assert!(two_blocks().verify());
    assert!(verify_chain(&two_blocks().blocks().clone()));
}

#[test]
fn corrupted_block_hash_is_detected() {
    let mut blocks: Vec<Block> = two_blocks().blocks().clone();
    blocks[0].block_hash = "00".repeat(32);
    assert!(!verify_chain(&blocks));
}

#[test]
fn corrupted_previous_hash_is_detected() {
    let mut blocks: Vec<Block> = two_blocks().blocks().clone();
    blocks[1].previous_block_hash = "ff".to_string();
    assert!(!verify_chain(&blocks));
    let mut first: Vec<Block> = two_blocks().blocks().clone();
    first[0].previous_block_hash = "x".to_string();
    assert!(!verify_chain(&first));
}

#[test]
fn edited_text_is_detected() {
    let mut blocks: Vec<Block> = two_blocks().blocks().clone();
    blocks[1].message_text = "w0rld".to_string();
    assert!(!verify_chain(&blocks));
}

#[test]
fn gap_in_positions_is_detected() {
    let mut blocks: Vec<Block> = two_blocks().blocks().clone();
    blocks[1].block_id = 3;
    assert!(!verify_chain(&blocks));
}

#[test]
fn transactions_are_per_user_in_send_order() {
    let mut ledger = BlockchainDBManager::new();
    ledger.send_message(1, 9, &"a".to_string(), 10);
    ledger.send_message(2, 9, &"b".to_string(), 11);
    ledger.send_message(1, 9, &"c".to_string(), 12);
    let mine = ledger.get_user_transactions(1);
    assert_eq!(mine.len(), 2);
    assert_eq!(mine[0].transaction_id, 1);
    assert_eq!(mine[1].transaction_id, 3);
    assert_eq!(mine[0].block_hash, ledger.blocks()[0].block_hash);
    assert_eq!(mine[1].block_hash, ledger.blocks()[2].block_hash);
    assert!(ledger.get_user_transactions(5).is_empty());
}

#[test]
fn load_accepts_stored_rows_of_an_intact_chain() {
    let stored = two_blocks();
    let loaded = BlockchainDBManager::load(stored.blocks().clone(), stored.transactions().clone()).unwrap();
    assert_eq!(loaded.len(), 2);
    assert!(loaded.verify());
    let mut grown = loaded;
    let h = grown.send_message(7, 3, &"again".to_string(), 102);
    assert_eq!(grown.blocks()[2].previous_block_hash, WORLD_HASH);
    assert_eq!(grown.blocks()[2].block_hash, h);
}

#[test]
fn load_refuses_tampered_rows() {
    let stored = two_blocks();
    let mut blocks = stored.blocks().clone();
    blocks[0].block_hash = "0".repeat(64);
    let r = BlockchainDBManager::load(blocks, stored.transactions().clone());
    assert_eq!(r.unwrap_err(), ShardError::ChainIntegrityViolation);
    let mut log = stored.transactions().clone();
    log[1].block_hash = "1".repeat(64);
    let r = BlockchainDBManager::load(stored.blocks().clone(), log);
    assert_eq!(r.unwrap_err(), ShardError::ChainIntegrityViolation);
    let mut short = stored.transactions().clone();
    short.pop();
    assert!(BlockchainDBManager::load(stored.blocks().clone(), short).is_err());
}

#[test]
fn transactions_come_in_timestamp_order() {
    let mut ledger = BlockchainDBManager::new();
    ledger.send_message(1, 9, &"late".to_string(), 50);
    ledger.send_message(1, 9, &"early".to_string(), 20);
    ledger.send_message(2, 9, &"other".to_string(), 10);
    ledger.send_message(1, 9, &"same".to_string(), 20);
    let mine = ledger.get_user_transactions(1);
    let order: Vec<(u64, u64)> = mine.iter().map(|e| (e.timestamp, e.transaction_id)).collect();
    assert_eq!(order, vec![(20, 2), (20, 4), (50, 1)]);
}
