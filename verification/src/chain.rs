//! Blocks, and the order in which they join and leave the chain.

use vstd::prelude::*;

verus! {

/// The hash of a block.
#[derive(Clone, Copy, Debug, PartialEq, Eq)]
pub struct BlockHash {
    pub bytes: [u8; 32],
}

impl View for BlockHash {
    type V = Seq<u8>;

    open spec fn view(&self) -> Seq<u8> {
        self.bytes@
    }
}

impl BlockHash {
    /// The two hashes are the same.
    pub fn same(&self, other: &BlockHash) -> (equal: bool)
        ensures
            equal == (self@ == other@),
    {
        let mut i: usize = 0;
        while i < 32
            invariant
                i <= 32,
                forall|j: int| 0 <= j < i ==> self.bytes@[j] == other.bytes@[j],
            decreases 32 - i,
        {
            if self.bytes[i] != other.bytes[i] {
                assert(self@[i as int] != other@[i as int]);
                return false;
            }
            i = i + 1;
        }
        assert(self@ =~= other@);
        true
    }
}

/// The hash of the block header with the given fields, in the byte order in which hashes
/// stand in headers.
pub uninterp spec fn block_hash_of(
    version: i32,
    prev_blockhash: Seq<u8>,
    merkle_root: Seq<u8>,
    time: u32,
    bits: u32,
    nonce: u32,
) -> Seq<u8>;

/// A block header.
#[derive(Clone, Copy, Debug, PartialEq, Eq)]
pub struct Header {
    pub version: i32,
    pub prev_blockhash: BlockHash,
    pub merkle_root: [u8; 32],
    pub time: u32,
    pub bits: u32,
    pub nonce: u32,
}

/// Calls `bitcoin::block::Header::block_hash` on the header with these fields. It is a
/// function of the fields alone.
#[verifier::external_body]
fn hash_header(header: &Header) -> (hash: [u8; 32])
    ensures
        hash@ == block_hash_of(
            header.version,
            header.prev_blockhash@,
            header.merkle_root@,
            header.time,
            header.bits,
            header.nonce,
        ),
{
    let header = bitcoin::block::Header {
        version: bitcoin::block::Version::from_consensus(header.version),
        prev_blockhash: bitcoin::hashes::Hash::from_byte_array(header.prev_blockhash.bytes),
        merkle_root: bitcoin::hashes::Hash::from_byte_array(header.merkle_root),
        time: header.time,
        bits: bitcoin::CompactTarget::from_consensus(header.bits),
        nonce: header.nonce,
    };
    bitcoin::hashes::Hash::to_byte_array(header.block_hash())
}

impl Header {
    /// The hash of the block.
    pub open spec fn hash(self) -> Seq<u8> {
        block_hash_of(
            self.version,
            self.prev_blockhash@,
            self.merkle_root@,
            self.time,
            self.bits,
            self.nonce,
        )
    }

    /// The hash of the block.
    pub fn block_hash(&self) -> (hash: BlockHash)
        ensures
            hash@ == self.hash(),
    {
        BlockHash { bytes: hash_header(self) }
    }
}

/// The tip of the chain.
#[derive(Clone, Copy, Debug, PartialEq, Eq)]
pub struct BestBlock {
    pub block_hash: BlockHash,
    pub height: u32,
}

impl BestBlock {
    pub fn new(block_hash: BlockHash, height: u32) -> (best_block: BestBlock)
        ensures
            best_block == (BestBlock { block_hash, height }),
    {
        BestBlock { block_hash, height }
    }
}

/// Where the chain stands when a manager starts.
#[derive(Clone, Copy, Debug, PartialEq, Eq)]
pub struct ChainParameters {
    pub best_block: BestBlock,
}

/// How a block breaks the order of the chain.
#[derive(Clone, Copy, Debug, PartialEq, Eq)]
pub enum ChainOrderError {
    /// A connected block does not build on the tip.
    ConnectedHash,
    /// A connected block is not one higher than the tip.
    ConnectedHeight,
    /// No block below the disconnected one is left to go back to.
    DisconnectedGenesis,
    /// A disconnected block is not the tip.
    DisconnectedHash,
    /// A disconnected block is not at the height of the tip.
    DisconnectedHeight,
}

impl ChainOrderError {
    /// The error in words.
    pub open spec fn text(self) -> Seq<char> {
        match self {
            ChainOrderError::ConnectedHash =>
                "Blocks must be connected in chain-order - the connected header must build on the last connected header"@,
            ChainOrderError::ConnectedHeight =>
                "Blocks must be connected in chain-order - the connected block height must be one greater than the previous height"@,
            ChainOrderError::DisconnectedGenesis => "attempt to subtract with overflow"@,
            ChainOrderError::DisconnectedHash =>
                "Blocks must be disconnected in chain-order - the disconnected header must be the last connected header"@,
            ChainOrderError::DisconnectedHeight =>
                "Blocks must be disconnected in chain-order - the disconnected block must have the correct height"@,
        }
    }

    /// The error in words.
    pub fn message(&self) -> (message: &'static str)
        ensures
            message@ == self.text(),
    {
        match self {
            ChainOrderError::ConnectedHash =>
                "Blocks must be connected in chain-order - the connected header must build on the last connected header",
            ChainOrderError::ConnectedHeight =>
                "Blocks must be connected in chain-order - the connected block height must be one greater than the previous height",
            ChainOrderError::DisconnectedGenesis => "attempt to subtract with overflow",
            ChainOrderError::DisconnectedHash =>
                "Blocks must be disconnected in chain-order - the disconnected header must be the last connected header",
            ChainOrderError::DisconnectedHeight =>
                "Blocks must be disconnected in chain-order - the disconnected block must have the correct height",
        }
    }
}

/// What is wrong with connecting `header` at `height` on top of `best_block`: nothing where
/// it builds on the tip, one higher, or where no tip is tracked.
pub open spec fn connect_error(
    best_block: Option<BestBlock>,
    header: Header,
    height: u32,
) -> Option<ChainOrderError> {
    match best_block {
        Some(best_block) => if best_block.block_hash@ != header.prev_blockhash@ {
            Some(ChainOrderError::ConnectedHash)
        } else if best_block.height != height - 1 {
            Some(ChainOrderError::ConnectedHeight)
        } else {
            None
        },
        None => None,
    }
}

/// What is wrong with disconnecting `header` at `height` from `best_block`: nothing where it
/// is the tip, at its height, or where no tip is tracked, and it is not the first block.
pub open spec fn disconnect_error(
    best_block: Option<BestBlock>,
    header: Header,
    height: u32,
) -> Option<ChainOrderError> {
    if height == 0 {
        Some(ChainOrderError::DisconnectedGenesis)
    } else {
        match best_block {
            Some(best_block) => if best_block.block_hash@ != header.hash() {
                Some(ChainOrderError::DisconnectedHash)
            } else if best_block.height != height {
                Some(ChainOrderError::DisconnectedHeight)
            } else {
                None
            },
            None => None,
        }
    }
}

/// The tip after `header` at `height` left the chain.
pub open spec fn tip_below(
    best_block: Option<BestBlock>,
    header: Header,
    height: u32,
) -> Option<BestBlock> {
    match best_block {
        Some(_) => Some(
            BestBlock { block_hash: header.prev_blockhash, height: (height - 1) as u32 },
        ),
        None => None,
    }
}

/// Computes `connect_error`.
pub fn check_connect(best_block: &Option<BestBlock>, header: &Header, height: u32) -> (error: Option<
    ChainOrderError,
>)
    ensures
        error == connect_error(*best_block, *header, height),
{
    match best_block {
        Some(best_block) => {
            if !best_block.block_hash.same(&header.prev_blockhash) {
                Some(ChainOrderError::ConnectedHash)
            } else if height == 0 || best_block.height != height - 1 {
                Some(ChainOrderError::ConnectedHeight)
            } else {
                None
            }
        },
        None => None,
    }
}

/// Computes `disconnect_error`.
pub fn check_disconnect(best_block: &Option<BestBlock>, header: &Header, height: u32) -> (error: Option<
    ChainOrderError,
>)
    ensures
        error == disconnect_error(*best_block, *header, height),
{
    if height == 0 {
        return Some(ChainOrderError::DisconnectedGenesis);
    }
    match best_block {
        Some(best_block) => {
            if !best_block.block_hash.same(&header.block_hash()) {
                Some(ChainOrderError::DisconnectedHash)
            } else if best_block.height != height {
                Some(ChainOrderError::DisconnectedHeight)
            } else {
                None
            }
        },
        None => None,
    }
}

} // verus!
