//! Message ids of the `sil` sub-protocol.

use vstd::prelude::*;
use crate::version::{version_number, SilVersion};

verus! {

/// Identifier of an `sil` message: the first byte of a message on the wire.
#[derive(Clone, Copy, Debug, Hash, PartialEq, Eq, Structural)]
pub enum SilMessageID {
    /// Status message.
    Status,
    /// New block hashes announcement.
    NewBlockHashes,
    /// Transactions broadcast.
    Transactions,
    /// Block headers request.
    GetBlockHeaders,
    /// Block headers response.
    BlockHeaders,
    /// Block bodies request.
    GetBlockBodies,
    /// Block bodies response.
    BlockBodies,
    /// New block announcement.
    NewBlock,
    /// Pooled transaction hashes announcement.
    NewPooledTransactionHashes,
    /// Pooled transactions request.
    GetPooledTransactions,
    /// Pooled transactions response.
    PooledTransactions,
    /// Node data request.
    GetNodeData,
    /// Node data response.
    NodeData,
    /// Receipts request.
    GetReceipts,
    /// Receipts response.
    Receipts,
    /// Block range update (`sil/69` and newer).
    BlockRangeUpdate,
    /// Block access lists request (`sil/71` and newer).
    GetBlockAccessLists,
    /// Block access lists response (`sil/71` and newer).
    BlockAccessLists,
    /// Cells request (`sil/72`).
    GetCells,
    /// Cells response (`sil/72`).
    Cells,
}

/// The byte of a message id.
pub open spec fn message_id_byte(id: SilMessageID) -> u8 {
    match id {
        SilMessageID::Status => 0x00,
        SilMessageID::NewBlockHashes => 0x01,
        SilMessageID::Transactions => 0x02,
        SilMessageID::GetBlockHeaders => 0x03,
        SilMessageID::BlockHeaders => 0x04,
        SilMessageID::GetBlockBodies => 0x05,
        SilMessageID::BlockBodies => 0x06,
        SilMessageID::NewBlock => 0x07,
        SilMessageID::NewPooledTransactionHashes => 0x08,
        SilMessageID::GetPooledTransactions => 0x09,
        SilMessageID::PooledTransactions => 0x0a,
        SilMessageID::GetNodeData => 0x0d,
        SilMessageID::NodeData => 0x0e,
        SilMessageID::GetReceipts => 0x0f,
        SilMessageID::Receipts => 0x10,
        SilMessageID::BlockRangeUpdate => 0x11,
        SilMessageID::GetBlockAccessLists => 0x12,
        SilMessageID::BlockAccessLists => 0x13,
        SilMessageID::GetCells => 0x14,
        SilMessageID::Cells => 0x15,
    }
}

/// How many message ids a `sil` version reserves: one more than its highest message id.
pub open spec fn eth_message_count(v: SilVersion) -> u8 {
    if version_number(v) >= 72 {
        (message_id_byte(SilMessageID::Cells) + 1) as u8
    } else if version_number(v) >= 71 {
        (message_id_byte(SilMessageID::BlockAccessLists) + 1) as u8
    } else if version_number(v) >= 69 {
        (message_id_byte(SilMessageID::BlockRangeUpdate) + 1) as u8
    } else {
        (message_id_byte(SilMessageID::Receipts) + 1) as u8
    }
}

impl SilMessageID {
    /// The byte of this message id.
    pub fn to_u8(&self) -> (r: u8)
        ensures
            r == message_id_byte(*self),
    {
        match self {
            SilMessageID::Status => 0x00,
            SilMessageID::NewBlockHashes => 0x01,
            SilMessageID::Transactions => 0x02,
            SilMessageID::GetBlockHeaders => 0x03,
            SilMessageID::BlockHeaders => 0x04,
            SilMessageID::GetBlockBodies => 0x05,
            SilMessageID::BlockBodies => 0x06,
            SilMessageID::NewBlock => 0x07,
            SilMessageID::NewPooledTransactionHashes => 0x08,
            SilMessageID::GetPooledTransactions => 0x09,
            SilMessageID::PooledTransactions => 0x0a,
            SilMessageID::GetNodeData => 0x0d,
            SilMessageID::NodeData => 0x0e,
            SilMessageID::GetReceipts => 0x0f,
            SilMessageID::Receipts => 0x10,
            SilMessageID::BlockRangeUpdate => 0x11,
            SilMessageID::GetBlockAccessLists => 0x12,
            SilMessageID::BlockAccessLists => 0x13,
            SilMessageID::GetCells => 0x14,
            SilMessageID::Cells => 0x15,
        }
    }

    /// The number of message ids that the given `sil` version reserves.
    pub fn message_count(version: SilVersion) -> (r: u8)
        ensures
            r == eth_message_count(version),
    {
        if version.is_eth72() {
            SilMessageID::Cells.to_u8() + 1
        } else if version.is_eth71() {
            SilMessageID::BlockAccessLists.to_u8() + 1
        } else if version.is_eth69_or_newer() {
            SilMessageID::BlockRangeUpdate.to_u8() + 1
        } else {
            SilMessageID::Receipts.to_u8() + 1
        }
    }
}

/// Newer versions reserve at least as many message ids as older ones.
pub proof fn lemma_message_count_monotone(a: SilVersion, b: SilVersion)
    requires
        version_number(a) <= version_number(b),
    ensures
        eth_message_count(a) <= eth_message_count(b),
{
}

} // verus!
