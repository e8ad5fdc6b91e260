use solana_low_latency::blockhash::BlockhashInfo;

#[test]
fn test_not_expired_before_last_block() {
    let instance = BlockhashInfo::new(solana_hash::Hash::new_unique(), 150);
    assert!(!instance.is_expired(100));
    assert_eq!(instance.remaining_blocks(100), 50);
}

#[test]
fn test_not_expired_at_last_block() {
    let instance = BlockhashInfo::new(solana_hash::Hash::new_unique(), 150);
    assert!(!instance.is_expired(150));
    assert_eq!(instance.remaining_blocks(150), 0);
}

#[test]
fn test_expired_after_last_block() {
    let instance = BlockhashInfo::new(solana_hash::Hash::new_unique(), 150);
    assert!(instance.is_expired(151));
}

#[test]
fn test_remaining_blocks_when_expired() {
    let instance = BlockhashInfo::new(solana_hash::Hash::new_unique(), 150);
    assert_eq!(instance.remaining_blocks(151), 0);
}

#[test]
fn new_keeps_blockhash_and_height() {
    let hash = solana_hash::Hash::new_unique();
    let instance = BlockhashInfo::new(hash, 42);
    assert_eq!(instance.blockhash, hash);
    assert_eq!(instance.last_valid_block_height, 42);
    let copy = instance.clone();
    assert_eq!(copy.blockhash, hash);
}

#[test]
fn expired_blockhash_stays_expired_and_has_no_blocks_left() {
    let instance = BlockhashInfo::new(solana_hash::Hash::new_unique(), 150);
    for height in [151u64, 152, 1_000, u64::MAX] {
        assert!(instance.is_expired(height));
        assert_eq!(instance.remaining_blocks(height), 0);
    }
    for height in [0u64, 1, 149, 150] {
        assert!(!instance.is_expired(height));
        assert_eq!(height + instance.remaining_blocks(height), 150);
    }
}

#[test]
fn zero_last_valid_height_edge() {
    let instance = BlockhashInfo::new(solana_hash::Hash::new_unique(), 0);
    assert!(!instance.is_expired(0));
    assert_eq!(instance.remaining_blocks(0), 0);
    assert!(instance.is_expired(1));
    let max = BlockhashInfo::new(solana_hash::Hash::new_unique(), u64::MAX);
    assert!(!max.is_expired(u64::MAX));
    assert_eq!(max.remaining_blocks(0), u64::MAX);
}
