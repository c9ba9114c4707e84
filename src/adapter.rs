use crate::types::{
    Block, BlockHeader, Capabilities, CompactBlock, AdapterError, Digest, PeerAddr, PeerInfo,
    SnapshotFile, Transaction,
};
use vstd::prelude::*;

verus! {

/// One call made on a [`NetAdapter`], with its arguments and what it returned.
pub enum AdapterCall {
    IsBanned { addr: PeerAddr, banned: bool },
    TotalDifficulty { result: Result<u64, AdapterError> },
    TotalHeight { result: Result<u64, AdapterError> },
    PeerDifficulty { addr: PeerAddr, total_difficulty: u64, height: u64 },
    TxKernelReceived { hash: Digest, peer: PeerInfo, result: Result<(), AdapterError> },
    GetTransaction { hash: Digest, result: Option<Transaction> },
    TransactionReceived { tx: Transaction, stem: bool, result: Result<(), AdapterError> },
    GetBlock { hash: Digest, peer: PeerInfo, result: Option<Block> },
    BlockReceived { block: Block, peer: PeerInfo, result: Result<(), AdapterError> },
    CompactBlockReceived { block: CompactBlock, peer: PeerInfo, result: Result<(), AdapterError> },
    LocateHeaders { hashes: Seq<Digest>, result: Result<Vec<BlockHeader>, AdapterError> },
    HeaderReceived { header: BlockHeader, peer: PeerInfo, result: Result<(), AdapterError> },
    HeadersReceived { headers: Seq<BlockHeader>, peer: PeerInfo, result: Result<(), AdapterError> },
    FindPeerAddrs { capabilities: Capabilities, result: Vec<PeerAddr> },
    PeerAddrsReceived { addrs: Seq<PeerAddr> },
    TxHashSetArchiveHeader { result: Result<BlockHeader, AdapterError> },
    TxHashSetRead { hash: Digest, result: Option<SnapshotFile> },
    TxHashSetReceiveReady { ready: bool },
    TxHashSetDownloadUpdate { start_time: i64, downloaded: u64, total: u64 },
    GetTmpfilePathname { name: Seq<char>, result: Seq<char> },
    TxHashSetWrite { hash: Digest, path: Seq<char>, peer: PeerInfo, result: Result<bool, AdapterError> },
    RemoveTmpfile { path: Seq<char>, result: Result<(), AdapterError> },
}

/// What the protocol needs from the rest of the node: chain and pool queries,
/// the ban list, and the store of snapshot archives.
///
/// `history` is the log of the calls made on the adapter, with their results:
/// every method appends exactly its own record to it. Nothing is assumed of
/// the answers themselves.
pub trait NetAdapter {
    /// The calls made on this adapter so far. An implementation verified with
    /// Verus defines it as its own log; the default serves implementations
    /// written outside Verus, whose log nothing checks.
    open spec fn history(&self) -> Seq<AdapterCall> {
        Seq::empty()
    }

    /// Whether the peer at `addr` is banned.
    fn is_banned(&mut self, addr: PeerAddr) -> (banned: bool)
        ensures
            final(self).history() == old(self).history().push(AdapterCall::IsBanned { addr, banned }),
    ;

    /// Total difficulty of the local chain.
    fn total_difficulty(&mut self) -> (result: Result<u64, AdapterError>)
        ensures
            final(self).history() == old(self).history().push(AdapterCall::TotalDifficulty { result }),
    ;

    /// Height of the local chain.
    fn total_height(&mut self) -> (result: Result<u64, AdapterError>)
        ensures
            final(self).history() == old(self).history().push(AdapterCall::TotalHeight { result }),
    ;

    /// Records the difficulty and height that a peer declared.
    fn peer_difficulty(&mut self, addr: PeerAddr, total_difficulty: u64, height: u64)
        ensures
            final(self).history() == old(self).history().push(AdapterCall::PeerDifficulty { addr, total_difficulty, height }),
    ;

    /// A peer announced a transaction kernel.
    fn tx_kernel_received(&mut self, hash: Digest, peer: &PeerInfo) -> (result: Result<(), AdapterError>)
        ensures
            final(self).history() == old(self).history().push(AdapterCall::TxKernelReceived { hash, peer: *peer, result }),
    ;

    /// Looks up a transaction in the pool.
    fn get_transaction(&mut self, hash: Digest) -> (result: Option<Transaction>)
        ensures
            final(self).history() == old(self).history().push(AdapterCall::GetTransaction { hash, result }),
    ;

    /// A peer sent a transaction; `stem` tags a privacy-relay one.
    fn transaction_received(&mut self, tx: Transaction, stem: bool) -> (result: Result<(), AdapterError>)
        ensures
            final(self).history() == old(self).history().push(AdapterCall::TransactionReceived { tx, stem, result }),
    ;

    /// Looks up a full block by hash.
    fn get_block(&mut self, hash: Digest, peer: &PeerInfo) -> (result: Option<Block>)
        ensures
            final(self).history() == old(self).history().push(AdapterCall::GetBlock { hash, peer: *peer, result }),
    ;

    /// A peer sent a full block, with no sync intent attached.
    fn block_received(&mut self, block: Block, peer: &PeerInfo) -> (result: Result<(), AdapterError>)
        ensures
            final(self).history() == old(self).history().push(AdapterCall::BlockReceived { block, peer: *peer, result }),
    ;

    /// A peer sent a compact block.
    fn compact_block_received(&mut self, block: CompactBlock, peer: &PeerInfo) -> (result: Result<(), AdapterError>)
        ensures
            final(self).history() == old(self).history().push(AdapterCall::CompactBlockReceived { block, peer: *peer, result }),
    ;

    /// Resolves a locator to the headers that follow it.
    fn locate_headers(&mut self, hashes: &Vec<Digest>) -> (result: Result<Vec<BlockHeader>, AdapterError>)
        ensures
            final(self).history() == old(self).history().push(AdapterCall::LocateHeaders { hashes: hashes@, result }),
    ;

    /// A peer announced a single header.
    fn header_received(&mut self, header: BlockHeader, peer: &PeerInfo) -> (result: Result<(), AdapterError>)
        ensures
            final(self).history() == old(self).history().push(AdapterCall::HeaderReceived { header, peer: *peer, result }),
    ;

    /// A peer sent a batch of headers.
    fn headers_received(&mut self, headers: &Vec<BlockHeader>, peer: &PeerInfo) -> (result: Result<(), AdapterError>)
        ensures
            final(self).history() == old(self).history().push(AdapterCall::HeadersReceived { headers: headers@, peer: *peer, result }),
    ;

    /// Known peer addresses with the given capabilities.
    fn find_peer_addrs(&mut self, capabilities: Capabilities) -> (result: Vec<PeerAddr>)
        ensures
            final(self).history() == old(self).history().push(AdapterCall::FindPeerAddrs { capabilities, result }),
    ;

    /// A peer sent addresses of other peers.
    fn peer_addrs_received(&mut self, addrs: Vec<PeerAddr>)
        ensures
            final(self).history() == old(self).history().push(AdapterCall::PeerAddrsReceived { addrs: addrs@ }),
    ;

    /// Header of the block at which the local snapshot is taken.
    fn txhashset_archive_header(&mut self) -> (result: Result<BlockHeader, AdapterError>)
        ensures
            final(self).history() == old(self).history().push(AdapterCall::TxHashSetArchiveHeader { result }),
    ;

    /// The local snapshot archive for the block `hash`, if there is one.
    fn txhashset_read(&mut self, hash: Digest) -> (result: Option<SnapshotFile>)
        ensures
            final(self).history() == old(self).history().push(AdapterCall::TxHashSetRead { hash, result }),
    ;

    /// Whether the node currently expects a snapshot archive.
    fn txhashset_receive_ready(&mut self) -> (ready: bool)
        ensures
            final(self).history() == old(self).history().push(AdapterCall::TxHashSetReceiveReady { ready }),
    ;

    /// Progress of a snapshot download.
    fn txhashset_download_update(&mut self, start_time: i64, downloaded: u64, total: u64)
        ensures
            final(self).history() == old(self).history().push(AdapterCall::TxHashSetDownloadUpdate { start_time, downloaded, total }),
    ;

    /// Full path of a temporary file called `name`.
    fn get_tmpfile_pathname(&mut self, name: &String) -> (result: String)
        ensures
            final(self).history() == old(self).history().push(AdapterCall::GetTmpfilePathname { name: name@, result: result@ }),
    ;

    /// Validates and applies the snapshot archive held in the file at `path`;
    /// `Ok(true)` means that validation failed.
    fn txhashset_write(&mut self, hash: Digest, path: &String, peer: &PeerInfo) -> (result: Result<bool, AdapterError>)
        ensures
            final(self).history() == old(self).history().push(AdapterCall::TxHashSetWrite { hash, path: path@, peer: *peer, result }),
    ;

    /// Deletes the temporary file at `path`.
    fn remove_tmpfile(&mut self, path: &String) -> (result: Result<(), AdapterError>)
        ensures
            final(self).history() == old(self).history().push(AdapterCall::RemoveTmpfile { path: path@, result }),
    ;
}

} // verus!
