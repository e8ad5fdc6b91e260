use vstd::prelude::*;

verus! {

/// A block hash as the cluster reports it; opaque here, carried through unchanged.
#[verifier::external_type_specification]
#[verifier::external_body]
pub struct ExHash(solana_hash::Hash);

/// `Clone` of `solana_hash::Hash`, which is derived over its byte array:
/// the copy equals the original.
pub assume_specification[ <solana_hash::Hash as Clone>::clone ](hash: &solana_hash::Hash) -> (res: solana_hash::Hash)
    ensures
        res == *hash,
;

/// A recent blockhash together with the last block height at which
/// transactions that reference it are still accepted.
#[derive(Debug, Clone)]
pub struct BlockhashInfo {
    pub blockhash: solana_hash::Hash,
    pub last_valid_block_height: u64,
}

impl BlockhashInfo {
    /// Whether a transaction using this blockhash is rejected at `current_block_height`.
    pub open spec fn expired_at(self, current_block_height: int) -> bool {
        current_block_height > self.last_valid_block_height
    }

    /// How many more blocks the blockhash stays valid for at `current_block_height`.
    pub open spec fn blocks_left_at(self, current_block_height: int) -> int {
        if current_block_height <= self.last_valid_block_height {
            self.last_valid_block_height - current_block_height
        } else {
            0
        }
    }

    pub fn new(blockhash: solana_hash::Hash, last_valid_block_height: u64) -> (res: Self)
        ensures
            res.blockhash == blockhash,
            res.last_valid_block_height == last_valid_block_height,
    {
        Self { blockhash, last_valid_block_height }
    }

    pub fn is_expired(&self, current_block_height: u64) -> (expired: bool)
        ensures
            expired == self.expired_at(current_block_height as int),
    {
        current_block_height > self.last_valid_block_height
    }

    pub fn remaining_blocks(&self, current_block_height: u64) -> (left: u64)
        ensures
            left == self.blocks_left_at(current_block_height as int),
    {
        self.last_valid_block_height.saturating_sub(current_block_height)
    }
}

/// An expired blockhash has no blocks left, and one that is still valid has
/// exactly the blocks up to its last valid height left.
pub proof fn lemma_expiry_matches_remaining(info: BlockhashInfo, current_block_height: u64)
    ensures
        info.expired_at(current_block_height as int) ==> info.blocks_left_at(current_block_height as int) == 0,
        !info.expired_at(current_block_height as int) ==> current_block_height + info.blocks_left_at(
            current_block_height as int,
        ) == info.last_valid_block_height,
{
}

/// A blockhash is valid at every height up to and including its last valid
/// height and expired at every height above it; while valid, the blocks left
/// are the distance to the last valid height, so it is valid at its last
/// valid height with none left and expired one block later.
pub proof fn lemma_valid_through_last_height(info: BlockhashInfo, current_block_height: u64)
    ensures
        info.expired_at(current_block_height as int) <==> current_block_height > info.last_valid_block_height,
        current_block_height <= info.last_valid_block_height ==> info.blocks_left_at(
            current_block_height as int,
        ) == info.last_valid_block_height - current_block_height,
        !info.expired_at(info.last_valid_block_height as int),
        info.blocks_left_at(info.last_valid_block_height as int) == 0,
        info.expired_at(info.last_valid_block_height + 1),
{
}

/// Once a blockhash has expired it stays expired at every later height, and
/// the number of blocks left never grows as the chain advances.
pub proof fn lemma_expiry_is_permanent(info: BlockhashInfo, earlier: u64, later: u64)
    requires
        earlier <= later,
    ensures
        info.expired_at(earlier as int) ==> info.expired_at(later as int),
        info.blocks_left_at(later as int) <= info.blocks_left_at(earlier as int),
{
}

} // verus!
