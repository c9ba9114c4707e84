use crate::adapter::{AdapterCall, NetAdapter};
use crate::clock::{archive_file_name, archive_file_name_of, now_timestamp, random_below};
use crate::types::{
    AdapterError,    AttachmentMeta, AttachmentUpdate, ChainType, CompactBlock, Consumed, Error, Message, Msg,
    PeerInfo, TxHashSetArchive, kernels_of,
};
use crate::version::{check_version, third_hard_fork_height_spec};
use std::sync::atomic::{AtomicBool, Ordering};
use std::sync::Arc;
use vstd::prelude::*;

verus! {

/// Upper bound (exclusive) of the random part of a temporary file name.
pub const NONCE_BOUND: u32 = 1_000_000;

/// The calls made on an adapter between the histories `before` and `after`.
pub open spec fn added(before: Seq<AdapterCall>, after: Seq<AdapterCall>) -> Seq<AdapterCall> {
    after.subrange(before.len() as int, after.len() as int)
}

/// `after` is `before` followed by more calls.
pub open spec fn extends(before: Seq<AdapterCall>, after: Seq<AdapterCall>) -> bool {
    before.len() <= after.len() && after.subrange(0, before.len() as int) == before
}

proof fn lemma_extends_refl(a: Seq<AdapterCall>)
    ensures
        extends(a, a),
        added(a, a) == Seq::<AdapterCall>::empty(),
{
    assert(a.subrange(0, a.len() as int) =~= a);
    assert(added(a, a) =~= Seq::<AdapterCall>::empty());
}

proof fn lemma_extends_push(a: Seq<AdapterCall>, x: AdapterCall)
    ensures
        extends(a, a.push(x)),
        added(a, a.push(x)) == seq![x],
{
    assert(a.push(x).subrange(0, a.len() as int) =~= a);
    assert(added(a, a.push(x)) =~= seq![x]);
}

proof fn lemma_extends_append(a: Seq<AdapterCall>, b: Seq<AdapterCall>)
    ensures
        extends(a, a + b),
        added(a, a + b) == b,
{
    assert((a + b).subrange(0, a.len() as int) =~= a);
    assert(added(a, a + b) =~= b);
}

proof fn lemma_extends_trans(a: Seq<AdapterCall>, b: Seq<AdapterCall>, c: Seq<AdapterCall>)
    requires
        extends(a, b),
        extends(b, c),
    ensures
        extends(a, c),
        added(a, c) == added(a, b) + added(b, c),
{
    assert(c.subrange(0, a.len() as int) =~= b.subrange(0, a.len() as int));
    assert(added(a, c) =~= added(a, b) + added(b, c));
}

/// Minimum peer version that needs no chain height to decide.
pub open spec fn static_min_version(chain: ChainType) -> u32 {
    if chain == ChainType::Testnet { 3 } else { 2 }
}

/// A forwarded announcement yields nothing to send, or the adapter's error.
pub open spec fn forwarded(result: Result<(), AdapterError>, r: Result<Consumed, Error>) -> bool {
    match result {
        Ok(_) => r == Ok::<Consumed, Error>(Consumed::Nothing),
        Err(e) => r == Err::<Consumed, Error>(Error::Adapter(e)),
    }
}

/// The version gate, as the calls `t` it made and its result `r`; `Ok` lets
/// the message through.
pub open spec fn gate_spec(chain: ChainType, version: u32, t: Seq<AdapterCall>, r: Result<(), Error>) -> bool {
    if version < static_min_version(chain) {
        t.len() == 0 && r == Err::<(), Error>(Error::LowProtocolVersion)
    } else {
        t.len() == 1 && match t[0] {
            AdapterCall::TotalHeight { result: Err(e) } => r == Err::<(), Error>(Error::Adapter(e)),
            AdapterCall::TotalHeight { result: Ok(h) } =>
                if h >= third_hard_fork_height_spec(chain) && version < 3 {
                    r == Err::<(), Error>(Error::LowProtocolVersion)
                } else {
                    r == Ok::<(), Error>(())
                },
            _ => false,
        }
    }
}

/// What the per-message handling did: the calls `t` that it made on the
/// adapter for a peer `peer` and message `msg`, and its result `r`.
pub open spec fn handle_spec(peer: PeerInfo, msg: Message, t: Seq<AdapterCall>, r: Result<Consumed, Error>) -> bool {
    match msg {
        Message::Unknown(_) => t.len() == 0 && r == Ok::<Consumed, Error>(Consumed::Nothing),
        Message::Ping { total_difficulty, height } => ping_spec(peer, total_difficulty, height, t, r),
        Message::Pong { total_difficulty, height } => {
            &&& t == seq![AdapterCall::PeerDifficulty { addr: peer.addr, total_difficulty, height }]
            &&& r == Ok::<Consumed, Error>(Consumed::Nothing)
        },
        Message::BanReason(_) => t.len() == 0 && r == Ok::<Consumed, Error>(Consumed::Disconnect),
        Message::TransactionKernel(h) => t.len() == 1 && match t[0] {
            AdapterCall::TxKernelReceived { hash, peer: p, result } =>
                hash == h && p == peer && forwarded(result, r),
            _ => false,
        },
        Message::GetTransaction(h) => t.len() == 1 && match t[0] {
            AdapterCall::GetTransaction { hash, result } => hash == h && match result {
                Some(tx) => r == Ok::<Consumed, Error>(Consumed::Response(Msg::Transaction(tx))),
                None => r == Ok::<Consumed, Error>(Consumed::Nothing),
            },
            _ => false,
        },
        Message::Transaction(tx) => t.len() == 1 && match t[0] {
            AdapterCall::TransactionReceived { tx: sent, stem, result } =>
                sent == tx && !stem && forwarded(result, r),
            _ => false,
        },
        Message::StemTransaction(tx) => t.len() == 1 && match t[0] {
            AdapterCall::TransactionReceived { tx: sent, stem, result } =>
                sent == tx && stem && forwarded(result, r),
            _ => false,
        },
        Message::GetBlock(h) => t.len() == 1 && match t[0] {
            AdapterCall::GetBlock { hash, peer: p, result } => hash == h && p == peer && match result {
                Some(b) => r == Ok::<Consumed, Error>(Consumed::Response(Msg::Block(b))),
                None => r == Ok::<Consumed, Error>(Consumed::Nothing),
            },
            _ => false,
        },
        Message::Block(b) => t.len() == 1 && match t[0] {
            AdapterCall::BlockReceived { block, peer: p, result } =>
                block == b && p == peer && forwarded(result, r),
            _ => false,
        },
        Message::GetCompactBlock(h) => t.len() == 1 && match t[0] {
            AdapterCall::GetBlock { hash, peer: p, result } => hash == h && p == peer && match result {
                Some(b) => match r {
                    Ok(Consumed::Response(Msg::CompactBlock(cb))) =>
                        cb.header == b.header && cb.kernel_ids@ == kernels_of(b.txs@),
                    _ => false,
                },
                None => r == Ok::<Consumed, Error>(Consumed::Nothing),
            },
            _ => false,
        },
        Message::CompactBlock(cb) => t.len() == 1 && match t[0] {
            AdapterCall::CompactBlockReceived { block, peer: p, result } =>
                block == cb && p == peer && forwarded(result, r),
            _ => false,
        },
        Message::GetHeaders(locator) => t.len() == 1 && match t[0] {
            AdapterCall::LocateHeaders { hashes, result } => hashes == locator@ && match result {
                Ok(headers) => r == Ok::<Consumed, Error>(Consumed::Response(Msg::Headers(headers))),
                Err(e) => r == Err::<Consumed, Error>(Error::Adapter(e)),
            },
            _ => false,
        },
        Message::Header(h) => t.len() == 1 && match t[0] {
            AdapterCall::HeaderReceived { header, peer: p, result } =>
                header == h && p == peer && forwarded(result, r),
            _ => false,
        },
        Message::Headers(hs) => t.len() == 1 && match t[0] {
            AdapterCall::HeadersReceived { headers, peer: p, result } =>
                headers == hs@ && p == peer && forwarded(result, r),
            _ => false,
        },
        Message::GetPeerAddrs(c) => t.len() == 1 && match t[0] {
            AdapterCall::FindPeerAddrs { capabilities, result } =>
                capabilities == c && r == Ok::<Consumed, Error>(Consumed::Response(Msg::PeerAddrs(result))),
            _ => false,
        },
        Message::PeerAddrs(a) => {
            &&& t == seq![AdapterCall::PeerAddrsReceived { addrs: a@ }]
            &&& r == Ok::<Consumed, Error>(Consumed::Nothing)
        },
        Message::TxHashSetRequest(_) => snapshot_request_spec(t, r),
        Message::TxHashSetArchive(arch) => t.len() >= 1 && match t[0] {
            AdapterCall::TxHashSetReceiveReady { ready } => if !ready {
                t.len() == 1 && r == Err::<Consumed, Error>(Error::BadMessage)
            } else {
                ||| transfer_spec(arch, false, 0, 0, t.skip(1), r)
                ||| exists|start_time: i64, nonce: u32|
                    nonce < NONCE_BOUND && #[trigger] transfer_spec(arch, true, start_time, nonce, t.skip(1), r)
            },
            _ => false,
        },
        Message::Attachment(u) => attachment_spec(peer, u, t, r),
    }
}

/// A ping: the peer's declared state is recorded, and the reply carries the
/// node's own total difficulty and height.
pub open spec fn ping_spec(peer: PeerInfo, d: u64, h: u64, t: Seq<AdapterCall>, r: Result<Consumed, Error>) -> bool {
    &&& t.len() >= 2
    &&& t[0] == AdapterCall::PeerDifficulty { addr: peer.addr, total_difficulty: d, height: h }
    &&& match t[1] {
        AdapterCall::TotalDifficulty { result: Err(e) } => t.len() == 2 && r == Err::<Consumed, Error>(Error::Adapter(e)),
        AdapterCall::TotalDifficulty { result: Ok(td) } => t.len() == 3 && match t[2] {
            AdapterCall::TotalHeight { result: Err(e) } => r == Err::<Consumed, Error>(Error::Adapter(e)),
            AdapterCall::TotalHeight { result: Ok(th) } =>
                r == Ok::<Consumed, Error>(Consumed::Response(Msg::Pong { total_difficulty: td, height: th })),
            _ => false,
        },
        _ => false,
    }
}

/// A snapshot request: the local archive, if any, is offered with its header.
pub open spec fn snapshot_request_spec(t: Seq<AdapterCall>, r: Result<Consumed, Error>) -> bool {
    t.len() >= 1 && match t[0] {
        AdapterCall::TxHashSetArchiveHeader { result: Err(e) } => t.len() == 1 && r == Err::<Consumed, Error>(Error::Adapter(e)),
        AdapterCall::TxHashSetArchiveHeader { result: Ok(header) } => t.len() == 2 && match t[1] {
            AdapterCall::TxHashSetRead { hash, result: None } =>
                hash == header.hash && r == Ok::<Consumed, Error>(Consumed::Nothing),
            AdapterCall::TxHashSetRead { hash, result: Some(f) } => hash == header.hash && r == Ok::<Consumed, Error>(
                Consumed::Response(Msg::TxHashSetArchive {
                    archive: TxHashSetArchive { height: header.height, hash: header.hash, bytes: f.size },
                    attachment: f,
                }),
            ),
            _ => false,
        },
        _ => false,
    }
}

/// Start of a snapshot transfer once the node is ready for one: refused
/// unless this connection `claimed` the node's pending request; otherwise the
/// progress starts at zero and the bytes go to a fresh temporary file.
pub open spec fn transfer_spec(
    arch: TxHashSetArchive,
    claimed: bool,
    start_time: i64,
    nonce: u32,
    t: Seq<AdapterCall>,
    r: Result<Consumed, Error>,
) -> bool {
    if !claimed {
        t.len() == 0 && r == Err::<Consumed, Error>(Error::BadMessage)
    } else {
        &&& t.len() == 2
        &&& t[0] == AdapterCall::TxHashSetDownloadUpdate { start_time, downloaded: 0, total: arch.bytes }
        &&& match t[1] {
            AdapterCall::GetTmpfilePathname { name, result } => {
                &&& name == archive_file_name(start_time as int, nonce as int)
                &&& match r {
                    Ok(Consumed::Attachment(meta)) => {
                        &&& meta.size == arch.bytes
                        &&& meta.hash == arch.hash
                        &&& meta.height == arch.height
                        &&& meta.start_time == start_time
                        &&& meta.path@ == result
                    },
                    _ => false,
                }
            },
            _ => false,
        }
    }
}

/// A chunk of a snapshot transfer: progress is reported, and on the last
/// chunk the archive is handed over once and its file deleted, whatever the
/// outcome.
pub open spec fn attachment_spec(peer: PeerInfo, u: AttachmentUpdate, t: Seq<AdapterCall>, r: Result<Consumed, Error>) -> bool {
    &&& t.len() >= 1
    &&& t[0] == AdapterCall::TxHashSetDownloadUpdate {
        start_time: u.meta.start_time,
        downloaded: (u.meta.size - u.left) as u64,
        total: u.meta.size,
    }
    &&& if u.left != 0 {
        t.len() == 1 && r == Ok::<Consumed, Error>(Consumed::Nothing)
    } else {
        &&& t.len() == 3
        &&& match t[1] {
            AdapterCall::TxHashSetWrite { hash, path, peer: p, result } => {
                &&& hash == u.meta.hash
                &&& path == u.meta.path@
                &&& p == peer
                &&& match result {
                    Ok(_) => r == Ok::<Consumed, Error>(Consumed::Nothing),
                    Err(e) => r == Err::<Consumed, Error>(Error::Adapter(e)),
                }
            },
            _ => false,
        }
        &&& match t[2] {
            AdapterCall::RemoveTmpfile { path, result: _ } => path == u.meta.path@,
            _ => false,
        }
    }
}

/// What one message did: the calls `t` made on the adapter and the result `r`.
/// A banned peer is dropped at once; then the version gate; then the message.
pub open spec fn consume_spec(
    peer: PeerInfo,
    chain: ChainType,
    msg: Message,
    t: Seq<AdapterCall>,
    r: Result<Consumed, Error>,
) -> bool {
    t.len() >= 1 && match t[0] {
        AdapterCall::IsBanned { addr, banned } => addr == peer.addr && if banned {
            t.len() == 1 && r == Ok::<Consumed, Error>(Consumed::Disconnect)
        } else if peer.version.0 < static_min_version(chain) {
            t.len() == 1 && r == Err::<Consumed, Error>(Error::LowProtocolVersion)
        } else {
            t.len() >= 2 && match t[1] {
                AdapterCall::TotalHeight { result: Err(e) } => t.len() == 2 && r == Err::<Consumed, Error>(Error::Adapter(e)),
                AdapterCall::TotalHeight { result: Ok(h) } =>
                    if h >= third_hard_fork_height_spec(chain) && peer.version.0 < 3 {
                        t.len() == 2 && r == Err::<Consumed, Error>(Error::LowProtocolVersion)
                    } else {
                        handle_spec(peer, msg, t.skip(2), r)
                    },
                _ => false,
            }
        },
        _ => false,
    }
}

/// The handler of one peer connection: it holds the peer's negotiated
/// parameters, the node's adapter and the node-wide snapshot request flag.
pub struct Protocol<A: NetAdapter> {
    pub adapter: A,
    pub peer_info: PeerInfo,
    /// Set while this node expects a snapshot archive; shared by every
    /// connection of the node.
    pub state_sync_requested: Arc<AtomicBool>,
    pub chain_type: ChainType,
}

impl<A: NetAdapter> Protocol<A> {
    pub open spec fn same_setup(&self, other: &Protocol<A>) -> bool {
        &&& self.peer_info == other.peer_info
        &&& self.state_sync_requested == other.state_sync_requested
        &&& self.chain_type == other.chain_type
    }

    pub fn new(
        adapter: A,
        peer_info: PeerInfo,
        state_sync_requested: Arc<AtomicBool>,
        chain_type: ChainType,
    ) -> (r: Protocol<A>)
        ensures
            r.adapter == adapter,
            r.peer_info == peer_info,
            r.state_sync_requested == state_sync_requested,
            r.chain_type == chain_type,
    {
        Protocol { adapter, peer_info, state_sync_requested, chain_type }
    }

    /// Rejects a peer whose version is below the minimum for the current
    /// chain height; asked on every message, so that a connection is dropped
    /// as soon as the chain crosses the fork height.
    pub fn check_protocol_version(&mut self) -> (r: Result<(), Error>)
        ensures
            final(self).same_setup(old(self)),
            extends(old(self).adapter.history(), final(self).adapter.history()),
            gate_spec(
                old(self).chain_type,
                old(self).peer_info.version.0,
                added(old(self).adapter.history(), final(self).adapter.history()),
                r,
            ),
    {
        let version = self.peer_info.version.value();
        let minimum: u32 = if self.chain_type == ChainType::Testnet { 3 } else { 2 };
        if version < minimum {
            proof {
                lemma_extends_refl(self.adapter.history());
            }
            return Err(Error::LowProtocolVersion);
        }
        let height = self.adapter.total_height();
        proof {
            lemma_extends_push(old(self).adapter.history(), AdapterCall::TotalHeight { result: height });
        }
        match height {
            Ok(h) => check_version(self.chain_type, h, version),
            Err(e) => Err(Error::Adapter(e)),
        }
    }

    /// Handles one inbound message: drops a banned peer, applies the version
    /// gate, then acts on the message.
    pub fn consume(&mut self, msg: Message) -> (r: Result<Consumed, Error>)
        requires
            msg.wf(),
        ensures
            final(self).same_setup(old(self)),
            extends(old(self).adapter.history(), final(self).adapter.history()),
            consume_spec(
                old(self).peer_info,
                old(self).chain_type,
                msg,
                added(old(self).adapter.history(), final(self).adapter.history()),
                r,
            ),
    {
        let ghost start = self.adapter.history();
        let addr = self.peer_info.addr;
        let banned = self.adapter.is_banned(addr);
        proof {
            lemma_extends_push(start, AdapterCall::IsBanned { addr, banned });
        }
        if banned {
            return Ok(Consumed::Disconnect);
        }
        let ghost after_ban = self.adapter.history();
        let gate = self.check_protocol_version();
        let ghost after_gate = self.adapter.history();
        proof {
            lemma_extends_trans(start, after_ban, after_gate);
        }
        if let Err(e) = gate {
            return Err(e);
        }
        let r = self.handle(msg);
        proof {
            let fin = self.adapter.history();
            lemma_extends_trans(start, after_gate, fin);
            assert(added(start, fin).skip(2) =~= added(after_gate, fin));
        }
        r
    }

    /// Acts on a message that passed the ban check and the version gate.
    fn handle(&mut self, msg: Message) -> (r: Result<Consumed, Error>)
        requires
            msg.wf(),
        ensures
            final(self).same_setup(old(self)),
            extends(old(self).adapter.history(), final(self).adapter.history()),
            handle_spec(old(self).peer_info, msg, added(old(self).adapter.history(), final(self).adapter.history()), r),
    {
        let ghost start = self.adapter.history();
        match msg {
            Message::Attachment(update) => self.handle_attachment(update),
            Message::Ping { total_difficulty, height } => self.handle_ping(total_difficulty, height),
            Message::Pong { total_difficulty, height } => {
                self.adapter.peer_difficulty(self.peer_info.addr, total_difficulty, height);
                proof {
                    lemma_extends_push(start, AdapterCall::PeerDifficulty {
                        addr: self.peer_info.addr,
                        total_difficulty,
                        height,
                    });
                }
                Ok(Consumed::Nothing)
            },
            Message::BanReason(_) => {
                proof {
                    lemma_extends_refl(start);
                }
                Ok(Consumed::Disconnect)
            },
            Message::TransactionKernel(h) => {
                let res = self.adapter.tx_kernel_received(h, &self.peer_info);
                proof {
                    lemma_extends_push(start, AdapterCall::TxKernelReceived { hash: h, peer: self.peer_info, result: res });
                }
                match res {
                    Ok(()) => Ok(Consumed::Nothing),
                    Err(e) => Err(Error::Adapter(e)),
                }
            },
            Message::GetTransaction(h) => {
                let found = self.adapter.get_transaction(h);
                proof {
                    lemma_extends_push(start, AdapterCall::GetTransaction { hash: h, result: found });
                }
                match found {
                    Some(tx) => Ok(Consumed::Response(Msg::Transaction(tx))),
                    None => Ok(Consumed::Nothing),
                }
            },
            Message::Transaction(tx) => {
                let res = self.adapter.transaction_received(tx, false);
                proof {
                    lemma_extends_push(start, AdapterCall::TransactionReceived { tx, stem: false, result: res });
                }
                match res {
                    Ok(()) => Ok(Consumed::Nothing),
                    Err(e) => Err(Error::Adapter(e)),
                }
            },
            Message::StemTransaction(tx) => {
                let res = self.adapter.transaction_received(tx, true);
                proof {
                    lemma_extends_push(start, AdapterCall::TransactionReceived { tx, stem: true, result: res });
                }
                match res {
                    Ok(()) => Ok(Consumed::Nothing),
                    Err(e) => Err(Error::Adapter(e)),
                }
            },
            Message::GetBlock(h) => {
                let found = self.adapter.get_block(h, &self.peer_info);
                proof {
                    lemma_extends_push(start, AdapterCall::GetBlock { hash: h, peer: self.peer_info, result: found });
                }
                match found {
                    Some(b) => Ok(Consumed::Response(Msg::Block(b))),
                    None => Ok(Consumed::Nothing),
                }
            },
            Message::Block(b) => {
                let ghost block = b;
                let res = self.adapter.block_received(b, &self.peer_info);
                proof {
                    lemma_extends_push(start, AdapterCall::BlockReceived { block, peer: self.peer_info, result: res });
                }
                match res {
                    Ok(()) => Ok(Consumed::Nothing),
                    Err(e) => Err(Error::Adapter(e)),
                }
            },
            Message::GetCompactBlock(h) => {
                let found = self.adapter.get_block(h, &self.peer_info);
                proof {
                    lemma_extends_push(start, AdapterCall::GetBlock { hash: h, peer: self.peer_info, result: found });
                }
                match found {
                    Some(b) => Ok(Consumed::Response(Msg::CompactBlock(CompactBlock::from_block(&b)))),
                    None => Ok(Consumed::Nothing),
                }
            },
            Message::CompactBlock(cb) => {
                let ghost block = cb;
                let res = self.adapter.compact_block_received(cb, &self.peer_info);
                proof {
                    lemma_extends_push(start, AdapterCall::CompactBlockReceived { block, peer: self.peer_info, result: res });
                }
                match res {
                    Ok(()) => Ok(Consumed::Nothing),
                    Err(e) => Err(Error::Adapter(e)),
                }
            },
            Message::GetHeaders(locator) => {
                let res = self.adapter.locate_headers(&locator);
                proof {
                    lemma_extends_push(start, AdapterCall::LocateHeaders { hashes: locator@, result: res });
                }
                match res {
                    Ok(headers) => Ok(Consumed::Response(Msg::Headers(headers))),
                    Err(e) => Err(Error::Adapter(e)),
                }
            },
            Message::Header(header) => {
                let res = self.adapter.header_received(header, &self.peer_info);
                proof {
                    lemma_extends_push(start, AdapterCall::HeaderReceived { header, peer: self.peer_info, result: res });
                }
                match res {
                    Ok(()) => Ok(Consumed::Nothing),
                    Err(e) => Err(Error::Adapter(e)),
                }
            },
            Message::Headers(headers) => {
                let res = self.adapter.headers_received(&headers, &self.peer_info);
                proof {
                    lemma_extends_push(start, AdapterCall::HeadersReceived { headers: headers@, peer: self.peer_info, result: res });
                }
                match res {
                    Ok(()) => Ok(Consumed::Nothing),
                    Err(e) => Err(Error::Adapter(e)),
                }
            },
            Message::GetPeerAddrs(capabilities) => {
                let peers = self.adapter.find_peer_addrs(capabilities);
                proof {
                    lemma_extends_push(start, AdapterCall::FindPeerAddrs { capabilities, result: peers });
                }
                Ok(Consumed::Response(Msg::PeerAddrs(peers)))
            },
            Message::PeerAddrs(addrs) => {
                let ghost a = addrs@;
                self.adapter.peer_addrs_received(addrs);
                proof {
                    lemma_extends_push(start, AdapterCall::PeerAddrsReceived { addrs: a });
                }
                Ok(Consumed::Nothing)
            },
            Message::TxHashSetRequest(_) => self.handle_snapshot_request(),
            Message::TxHashSetArchive(arch) => self.handle_archive(arch),
            Message::Unknown(_) => {
                proof {
                    lemma_extends_refl(start);
                }
                Ok(Consumed::Nothing)
            },
        }
    }

    fn handle_ping(&mut self, total_difficulty: u64, height: u64) -> (r: Result<Consumed, Error>)
        ensures
            final(self).same_setup(old(self)),
            extends(old(self).adapter.history(), final(self).adapter.history()),
            ping_spec(
                old(self).peer_info,
                total_difficulty,
                height,
                added(old(self).adapter.history(), final(self).adapter.history()),
                r,
            ),
    {
        let ghost start = self.adapter.history();
        self.adapter.peer_difficulty(self.peer_info.addr, total_difficulty, height);
        let ghost c0 = AdapterCall::PeerDifficulty { addr: self.peer_info.addr, total_difficulty, height };
        let td = self.adapter.total_difficulty();
        let ghost c1 = AdapterCall::TotalDifficulty { result: td };
        let td = match td {
            Ok(d) => d,
            Err(e) => {
                proof {
                    assert(self.adapter.history() =~= start + seq![c0, c1]);
                    lemma_extends_append(start, seq![c0, c1]);
                }
                return Err(Error::Adapter(e));
            },
        };
        let th = self.adapter.total_height();
        let ghost c2 = AdapterCall::TotalHeight { result: th };
        proof {
            assert(self.adapter.history() =~= start + seq![c0, c1, c2]);
            lemma_extends_append(start, seq![c0, c1, c2]);
        }
        let th = match th {
            Ok(h) => h,
            Err(e) => return Err(Error::Adapter(e)),
        };
        Ok(Consumed::Response(Msg::Pong { total_difficulty: td, height: th }))
    }

    fn handle_snapshot_request(&mut self) -> (r: Result<Consumed, Error>)
        ensures
            final(self).same_setup(old(self)),
            extends(old(self).adapter.history(), final(self).adapter.history()),
            snapshot_request_spec(added(old(self).adapter.history(), final(self).adapter.history()), r),
    {
        let ghost start = self.adapter.history();
        let header = self.adapter.txhashset_archive_header();
        let ghost c0 = AdapterCall::TxHashSetArchiveHeader { result: header };
        let header = match header {
            Ok(h) => h,
            Err(e) => {
                proof {
                    lemma_extends_push(start, c0);
                }
                return Err(Error::Adapter(e));
            },
        };
        let snapshot = self.adapter.txhashset_read(header.hash);
        let ghost c1 = AdapterCall::TxHashSetRead { hash: header.hash, result: snapshot };
        proof {
            assert(self.adapter.history() =~= start + seq![c0, c1]);
            lemma_extends_append(start, seq![c0, c1]);
        }
        match snapshot {
            Some(f) => {
                let archive = TxHashSetArchive { height: header.height, hash: header.hash, bytes: f.size };
                Ok(Consumed::Response(Msg::TxHashSetArchive { archive, attachment: f }))
            },
            None => Ok(Consumed::Nothing),
        }
    }

    fn handle_archive(&mut self, arch: TxHashSetArchive) -> (r: Result<Consumed, Error>)
        ensures
            final(self).same_setup(old(self)),
            extends(old(self).adapter.history(), final(self).adapter.history()),
            handle_spec(
                old(self).peer_info,
                Message::TxHashSetArchive(arch),
                added(old(self).adapter.history(), final(self).adapter.history()),
                r,
            ),
    {
        let ghost start = self.adapter.history();
        let ready = self.adapter.txhashset_receive_ready();
        let ghost after_ready = self.adapter.history();
        proof {
            lemma_extends_push(start, AdapterCall::TxHashSetReceiveReady { ready });
        }
        if !ready {
            return Err(Error::BadMessage);
        }
        let claimed = self.claim_sync_request();
        let start_time = now_timestamp();
        let nonce = random_below(NONCE_BOUND);
        let r = self.start_transfer(arch, claimed, start_time, nonce);
        proof {
            let fin = self.adapter.history();
            lemma_extends_trans(start, after_ready, fin);
            assert(added(start, fin).skip(1) =~= added(after_ready, fin));
            if claimed {
                assert(transfer_spec(arch, true, start_time, nonce, added(start, fin).skip(1), r));
            } else {
                assert(transfer_spec(arch, false, 0, 0, added(start, fin).skip(1), r));
            }
        }
        r
    }

    /// Takes the node's pending snapshot request for this connection: true
    /// when the shared flag was set, in which case it is now clear. The flag
    /// is tested and cleared in one atomic step, so that of two connections
    /// only one can take a request.
    fn claim_sync_request(&self) -> (claimed: bool) {
        let flag: &AtomicBool = &self.state_sync_requested;
        let prev = flag.compare_exchange(true, false, Ordering::SeqCst, Ordering::SeqCst);
        prev.is_ok()
    }

    /// Starts receiving a snapshot archive, given whether this connection
    /// `claimed` the node's pending request, the transfer's `start_time` and a
    /// `nonce` that tells its temporary file apart.
    pub fn start_transfer(&mut self, arch: TxHashSetArchive, claimed: bool, start_time: i64, nonce: u32) -> (r: Result<Consumed, Error>)
        ensures
            final(self).same_setup(old(self)),
            extends(old(self).adapter.history(), final(self).adapter.history()),
            transfer_spec(arch, claimed, start_time, nonce, added(old(self).adapter.history(), final(self).adapter.history()), r),
            r is Ok <==> claimed,
    {
        let ghost start = self.adapter.history();
        if !claimed {
            proof {
                lemma_extends_refl(start);
            }
            return Err(Error::BadMessage);
        }
        self.adapter.txhashset_download_update(start_time, 0, arch.bytes);
        let ghost c0 = AdapterCall::TxHashSetDownloadUpdate { start_time, downloaded: 0, total: arch.bytes };
        let name = archive_file_name_of(start_time, nonce);
        let path = self.adapter.get_tmpfile_pathname(&name);
        let ghost c1 = AdapterCall::GetTmpfilePathname { name: name@, result: path@ };
        proof {
            assert(self.adapter.history() =~= start + seq![c0, c1]);
            lemma_extends_append(start, seq![c0, c1]);
        }
        let meta = AttachmentMeta {
            size: arch.bytes,
            hash: arch.hash,
            height: arch.height,
            start_time,
            path,
        };
        Ok(Consumed::Attachment(meta))
    }

    fn handle_attachment(&mut self, update: AttachmentUpdate) -> (r: Result<Consumed, Error>)
        requires
            update.wf(),
        ensures
            final(self).same_setup(old(self)),
            extends(old(self).adapter.history(), final(self).adapter.history()),
            attachment_spec(
                old(self).peer_info,
                update,
                added(old(self).adapter.history(), final(self).adapter.history()),
                r,
            ),
    {
        let ghost start = self.adapter.history();
        let downloaded = update.meta.size - update.left;
        self.adapter.txhashset_download_update(update.meta.start_time, downloaded, update.meta.size);
        let ghost c0 = AdapterCall::TxHashSetDownloadUpdate {
            start_time: update.meta.start_time,
            downloaded,
            total: update.meta.size,
        };
        if update.left != 0 {
            proof {
                lemma_extends_push(start, c0);
            }
            return Ok(Consumed::Nothing);
        }
        let written = self.adapter.txhashset_write(update.meta.hash, &update.meta.path, &self.peer_info);
        let ghost c1 = AdapterCall::TxHashSetWrite {
            hash: update.meta.hash,
            path: update.meta.path@,
            peer: self.peer_info,
            result: written,
        };
        let removed = self.adapter.remove_tmpfile(&update.meta.path);
        let ghost c2 = AdapterCall::RemoveTmpfile { path: update.meta.path@, result: removed };
        proof {
            assert(self.adapter.history() =~= start + seq![c0, c1, c2]);
            lemma_extends_append(start, seq![c0, c1, c2]);
        }
        match written {
            Ok(_) => Ok(Consumed::Nothing),
            Err(e) => Err(Error::Adapter(e)),
        }
    }
}

} // verus!
