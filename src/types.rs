use vstd::prelude::*;

verus! {

/// Content hash of a block, header, transaction or snapshot archive.
#[derive(Clone, Copy, Debug, PartialEq, Eq, Structural)]
pub struct Digest(pub u64);

/// Network address of a peer: IPv4 address as a number, and port.
#[derive(Clone, Copy, Debug, PartialEq, Eq, Structural)]
pub struct PeerAddr {
    pub ip: u32,
    pub port: u16,
}

/// Negotiated wire protocol version of a connection.
#[derive(Clone, Copy, Debug, PartialEq, Eq, Structural)]
pub struct ProtocolVersion(pub u32);

impl ProtocolVersion {
    pub fn value(&self) -> (r: u32)
        ensures
            r == self.0,
    {
        self.0
    }
}

/// Capability bitmask advertised by a peer.
#[derive(Clone, Copy, Debug, PartialEq, Eq, Structural)]
pub struct Capabilities(pub u32);

/// Identity and negotiated parameters of one connection.
#[derive(Clone, Copy, Debug, PartialEq, Eq, Structural)]
pub struct PeerInfo {
    pub addr: PeerAddr,
    pub version: ProtocolVersion,
    pub capabilities: Capabilities,
    pub total_difficulty: u64,
    pub height: u64,
}

/// The network the node runs on.
#[derive(Clone, Copy, Debug, PartialEq, Eq, Structural)]
pub enum ChainType {
    AutomatedTesting,
    UserTesting,
    Testnet,
    Mainnet,
}

/// A block header, already decoded, with its hash.
#[derive(Clone, Copy, Debug, PartialEq, Eq, Structural)]
pub struct BlockHeader {
    pub hash: Digest,
    pub height: u64,
    pub total_difficulty: u64,
}

/// A transaction, already decoded; `kernel` identifies its kernel.
#[derive(Clone, Copy, Debug, PartialEq, Eq, Structural)]
pub struct Transaction {
    pub hash: Digest,
    pub kernel: Digest,
}

/// A full block: its header and its transactions.
#[derive(Clone, Debug)]
pub struct Block {
    pub header: BlockHeader,
    pub txs: Vec<Transaction>,
}

/// A block in compact form: its header and the kernel of each transaction,
/// from which a receiver rebuilds the body out of its own pool.
#[derive(Clone, Debug)]
pub struct CompactBlock {
    pub header: BlockHeader,
    pub kernel_ids: Vec<Digest>,
}

/// The kernels of a sequence of transactions, in order.
pub open spec fn kernels_of(txs: Seq<Transaction>) -> Seq<Digest> {
    txs.map_values(|t: Transaction| t.kernel)
}

impl CompactBlock {
    /// The compact form of a block.
    pub fn from_block(b: &Block) -> (r: CompactBlock)
        ensures
            r.header == b.header,
            r.kernel_ids@ == kernels_of(b.txs@),
    {
        let mut ids: Vec<Digest> = Vec::new();
        let mut i: usize = 0;
        while i < b.txs.len()
            invariant
                i <= b.txs@.len(),
                ids@ == kernels_of(b.txs@.subrange(0, i as int)),
            decreases b.txs@.len() - i,
        {
            ids.push(b.txs[i].kernel);
            assert(b.txs@.subrange(0, i + 1) == b.txs@.subrange(0, i as int).push(b.txs@[i as int]));
            i = i + 1;
        }
        assert(b.txs@.subrange(0, b.txs@.len() as int) == b.txs@);
        CompactBlock { header: b.header, kernel_ids: ids }
    }
}

/// A snapshot archive that the node has on disk, ready to be sent.
#[derive(Clone, Debug)]
pub struct SnapshotFile {
    pub path: String,
    pub size: u64,
}

/// Header of a snapshot archive as carried on the wire.
#[derive(Clone, Copy, Debug, PartialEq, Eq, Structural)]
pub struct TxHashSetArchive {
    pub height: u64,
    pub hash: Digest,
    pub bytes: u64,
}

/// A peer's request for a snapshot at a given block.
#[derive(Clone, Copy, Debug, PartialEq, Eq, Structural)]
pub struct TxHashSetRequest {
    pub hash: Digest,
    pub height: u64,
}

/// Descriptor of a snapshot transfer in progress.
#[derive(Clone, Debug)]
pub struct AttachmentMeta {
    /// Expected total size in bytes.
    pub size: u64,
    pub hash: Digest,
    pub height: u64,
    /// Transfer start, in seconds since the Unix epoch.
    pub start_time: i64,
    /// Temporary file that receives the bytes.
    pub path: String,
}

/// Progress of a snapshot transfer: `left` bytes are still to come.
#[derive(Clone, Debug)]
pub struct AttachmentUpdate {
    pub meta: AttachmentMeta,
    pub left: u64,
}

impl AttachmentUpdate {
    pub open spec fn wf(&self) -> bool {
        self.left <= self.meta.size
    }
}

/// A decoded inbound message.
#[derive(Clone, Debug)]
pub enum Message {
    Unknown(u8),
    Ping { total_difficulty: u64, height: u64 },
    Pong { total_difficulty: u64, height: u64 },
    BanReason(u32),
    TransactionKernel(Digest),
    GetTransaction(Digest),
    Transaction(Transaction),
    StemTransaction(Transaction),
    GetBlock(Digest),
    Block(Block),
    GetCompactBlock(Digest),
    CompactBlock(CompactBlock),
    GetHeaders(Vec<Digest>),
    Header(BlockHeader),
    Headers(Vec<BlockHeader>),
    GetPeerAddrs(Capabilities),
    PeerAddrs(Vec<PeerAddr>),
    TxHashSetRequest(TxHashSetRequest),
    TxHashSetArchive(TxHashSetArchive),
    Attachment(AttachmentUpdate),
}

impl Message {
    pub open spec fn wf(&self) -> bool {
        match self {
            Message::Attachment(u) => u.wf(),
            _ => true,
        }
    }
}

/// An outbound reply.
#[derive(Clone, Debug)]
pub enum Msg {
    Pong { total_difficulty: u64, height: u64 },
    Transaction(Transaction),
    Block(Block),
    CompactBlock(CompactBlock),
    Headers(Vec<BlockHeader>),
    PeerAddrs(Vec<PeerAddr>),
    /// Archive header, followed on the wire by the bytes of `attachment`.
    TxHashSetArchive { archive: TxHashSetArchive, attachment: SnapshotFile },
}

/// How the connection goes on after one message.
#[derive(Clone, Debug)]
pub enum Consumed {
    /// Nothing to send: the message is dropped.
    Nothing,
    /// Send exactly this reply.
    Response(Msg),
    /// Close the connection without a reply.
    Disconnect,
    /// Stream the next `meta.size` raw bytes into a new file at `meta.path`.
    Attachment(AttachmentMeta),
}

/// Why a message could not be honoured.
#[derive(Clone, Copy, Debug, PartialEq, Eq, Structural)]
pub enum Error {
    /// The peer's protocol version is below the minimum: disconnect.
    LowProtocolVersion,
    /// The message violates the protocol sequence: disconnect.
    BadMessage,
    /// A file could not be created, opened or read.
    Io,
    /// The adapter failed; its error is passed on unchanged.
    Adapter(AdapterError),
}

/// Why the node's adapter could not answer.
#[derive(Clone, Copy, Debug, PartialEq, Eq, Structural)]
pub enum AdapterError {
    /// A file could not be created, opened or read.
    Io,
    /// The chain refused or could not answer.
    Chain,
    /// The node's store failed.
    Store,
}

} // verus!
