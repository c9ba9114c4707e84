use grin_protocol::adapter::NetAdapter;
use grin_protocol::clock::archive_file_name_of;
use grin_protocol::protocol::Protocol;
use grin_protocol::types::{
    AdapterError,    AttachmentMeta, AttachmentUpdate, Block, BlockHeader, Capabilities, ChainType, CompactBlock,
    Consumed, Digest, Error, Message, Msg, PeerAddr, PeerInfo, ProtocolVersion, SnapshotFile,
    Transaction, TxHashSetArchive, TxHashSetRequest,
};
use grin_protocol::version::{check_version, min_compatible_version, third_hard_fork_height};
use std::sync::atomic::{AtomicBool, Ordering};
use std::sync::Arc;

/// An adapter that answers from fixed state and records every call by name.
struct Recorder {
    banned: bool,
    difficulty: Result<u64, AdapterError>,
    height: Result<u64, AdapterError>,
    blocks: Vec<Block>,
    txs: Vec<Transaction>,
    peers: Vec<PeerAddr>,
    ready: bool,
    archive_header: Result<BlockHeader, AdapterError>,
    snapshot: Option<SnapshotFile>,
    write_result: Result<bool, AdapterError>,
    calls: Vec<String>,
    updates: Vec<(i64, u64, u64)>,
    writes: Vec<(Digest, String)>,
    removed: Vec<String>,
    tmp_names: Vec<String>,
    received_txs: Vec<(Transaction, bool)>,
}

impl Recorder {
    fn new() -> Recorder {
        Recorder {
            banned: false,
            difficulty: Ok(1000),
            height: Ok(5),
            blocks: vec![],
            txs: vec![],
            peers: vec![],
            ready: false,
            archive_header: Err(AdapterError::Chain),
            snapshot: None,
            write_result: Ok(false),
            calls: vec![],
            updates: vec![],
            writes: vec![],
            removed: vec![],
            tmp_names: vec![],
            received_txs: vec![],
        }
    }
    fn note(&mut self, s: &str) {
        self.calls.push(s.to_string());
    }
}

impl NetAdapter for Recorder {
    fn is_banned(&mut self, _addr: PeerAddr) -> bool {
        self.note("is_banned");
        self.banned
    }
    fn total_difficulty(&mut self) -> Result<u64, AdapterError> {
        self.note("total_difficulty");
        self.difficulty
    }
    fn total_height(&mut self) -> Result<u64, AdapterError> {
        self.note("total_height");
        self.height
    }
    fn peer_difficulty(&mut self, _addr: PeerAddr, _d: u64, _h: u64) {
        self.note("peer_difficulty");
    }
    fn tx_kernel_received(&mut self, _hash: Digest, _peer: &PeerInfo) -> Result<(), AdapterError> {
        self.note("tx_kernel_received");
        Ok(())
    }
    fn get_transaction(&mut self, hash: Digest) -> Option<Transaction> {
        self.note("get_transaction");
        self.txs.iter().find(|t| t.hash == hash).copied()
    }
    fn transaction_received(&mut self, tx: Transaction, stem: bool) -> Result<(), AdapterError> {
        self.note("transaction_received");
        self.received_txs.push((tx, stem));
        Ok(())
    }
    fn get_block(&mut self, hash: Digest, _peer: &PeerInfo) -> Option<Block> {
        self.note("get_block");
        self.blocks.iter().find(|b| b.header.hash == hash).cloned()
    }
    fn block_received(&mut self, _block: Block, _peer: &PeerInfo) -> Result<(), AdapterError> {
        self.note("block_received");
        Err(AdapterError::Chain)
    }
    fn compact_block_received(&mut self, _block: CompactBlock, _peer: &PeerInfo) -> Result<(), AdapterError> {
        self.note("compact_block_received");
        Ok(())
    }
    fn locate_headers(&mut self, hashes: &Vec<Digest>) -> Result<Vec<BlockHeader>, AdapterError> {
        self.note("locate_headers");
        Ok(hashes
            .iter()
            .map(|h| BlockHeader { hash: *h, height: 1, total_difficulty: 1 })
            .collect())
    }
    fn header_received(&mut self, _header: BlockHeader, _peer: &PeerInfo) -> Result<(), AdapterError> {
        self.note("header_received");
        Ok(())
    }
    fn headers_received(&mut self, _headers: &Vec<BlockHeader>, _peer: &PeerInfo) -> Result<(), AdapterError> {
        self.note("headers_received");
        Ok(())
    }
    fn find_peer_addrs(&mut self, _capabilities: Capabilities) -> Vec<PeerAddr> {
        self.note("find_peer_addrs");
        self.peers.clone()
    }
    fn peer_addrs_received(&mut self, addrs: Vec<PeerAddr>) {
        self.note("peer_addrs_received");
        self.peers.extend(addrs);
    }
    fn txhashset_archive_header(&mut self) -> Result<BlockHeader, AdapterError> {
        self.note("txhashset_archive_header");
        self.archive_header
    }
    fn txhashset_read(&mut self, _hash: Digest) -> Option<SnapshotFile> {
        self.note("txhashset_read");
        self.snapshot.clone()
    }
    fn txhashset_receive_ready(&mut self) -> bool {
        self.note("txhashset_receive_ready");
        self.ready
    }
    fn txhashset_download_update(&mut self, start_time: i64, downloaded: u64, total: u64) {
        self.note("txhashset_download_update");
        self.updates.push((start_time, downloaded, total));
    }
    fn get_tmpfile_pathname(&mut self, name: &String) -> String {
        self.note("get_tmpfile_pathname");
        self.tmp_names.push(name.clone());
        format!("/tmp/node/{}", name)
    }
    fn txhashset_write(&mut self, hash: Digest, path: &String, _peer: &PeerInfo) -> Result<bool, AdapterError> {
        self.note("txhashset_write");
        self.writes.push((hash, path.clone()));
        self.write_result
    }
    fn remove_tmpfile(&mut self, path: &String) -> Result<(), AdapterError> {
        self.note("remove_tmpfile");
        self.removed.push(path.clone());
        Err(AdapterError::Io)
    }
}

fn peer(version: u32) -> PeerInfo {
    PeerInfo {
        addr: PeerAddr { ip: 0x7f000001, port: 5000 },
        version: ProtocolVersion(version),
        capabilities: Capabilities(0),
        total_difficulty: 7,
        height: 3,
    }
}

fn protocol(adapter: Recorder, version: u32, chain: ChainType, flag: bool) -> Protocol<Recorder> {
    Protocol::new(adapter, peer(version), Arc::new(AtomicBool::new(flag)), chain)
}

fn header(h: u64, height: u64) -> BlockHeader {
    BlockHeader { hash: Digest(h), height, total_difficulty: 10 * height }
}

fn tx(h: u64, k: u64) -> Transaction {
    Transaction { hash: Digest(h), kernel: Digest(k) }
}

#[test]
fn banned_peer_is_disconnected_without_other_calls() {
    let mut a = Recorder::new();
    a.banned = true;
    let mut p = protocol(a, 1, ChainType::Mainnet, true);
    let r = p.consume(Message::Ping { total_difficulty: 1, height: 1 });
    assert!(matches!(r, Ok(Consumed::Disconnect)));
    assert_eq!(p.adapter.calls, vec!["is_banned".to_string()]);
    assert!(p.state_sync_requested.load(Ordering::SeqCst));
}

#[test]
fn low_version_is_rejected_before_any_handling() {
    let mut p = protocol(Recorder::new(), 1, ChainType::Mainnet, false);
    let r = p.consume(Message::PeerAddrs(vec![PeerAddr { ip: 1, port: 2 }]));
    assert!(matches!(r, Err(Error::LowProtocolVersion)));
    assert_eq!(p.adapter.calls, vec!["is_banned".to_string()]);
    assert!(p.adapter.peers.is_empty());

    let mut p = protocol(Recorder::new(), 2, ChainType::Testnet, false);
    let r = p.consume(Message::Pong { total_difficulty: 1, height: 1 });
    assert!(matches!(r, Err(Error::LowProtocolVersion)));
    assert_eq!(p.adapter.calls, vec!["is_banned".to_string()]);
}

#[test]
fn height_read_failure_propagates() {
    let mut a = Recorder::new();
    a.height = Err(AdapterError::Store);
    let mut p = protocol(a, 3, ChainType::Mainnet, false);
    let r = p.consume(Message::Unknown(9));
    assert!(matches!(r, Err(Error::Adapter(AdapterError::Store))));
    assert_eq!(p.adapter.calls, vec!["is_banned".to_string(), "total_height".to_string()]);
}

#[test]
fn ping_answers_with_own_difficulty_and_height() {
    let mut a = Recorder::new();
    a.difficulty = Ok(123_456);
    a.height = Ok(77);
    let mut p = protocol(a, 2, ChainType::Mainnet, false);
    let r = p.consume(Message::Ping { total_difficulty: 5, height: 6 });
    match r {
        Ok(Consumed::Response(Msg::Pong { total_difficulty, height })) => {
            assert_eq!(total_difficulty, 123_456);
            assert_eq!(height, 77);
        }
        other => panic!("unexpected {:?}", other),
    }
}

#[test]
fn ping_difficulty_failure_propagates() {
    let mut a = Recorder::new();
    a.difficulty = Err(AdapterError::Chain);
    let mut p = protocol(a, 2, ChainType::Mainnet, false);
    let r = p.consume(Message::Ping { total_difficulty: 5, height: 6 });
    assert!(matches!(r, Err(Error::Adapter(AdapterError::Chain))));
}

#[test]
fn pong_records_peer_state_only() {
    let mut p = protocol(Recorder::new(), 2, ChainType::Mainnet, false);
    let r = p.consume(Message::Pong { total_difficulty: 5, height: 6 });
    assert!(matches!(r, Ok(Consumed::Nothing)));
    assert_eq!(p.adapter.calls.last().unwrap(), "peer_difficulty");
}

#[test]
fn ban_reason_disconnects() {
    let mut p = protocol(Recorder::new(), 2, ChainType::Mainnet, false);
    assert!(matches!(p.consume(Message::BanReason(3)), Ok(Consumed::Disconnect)));
}

#[test]
fn unknown_message_is_dropped() {
    let mut p = protocol(Recorder::new(), 2, ChainType::Mainnet, false);
    assert!(matches!(p.consume(Message::Unknown(200)), Ok(Consumed::Nothing)));
    assert_eq!(p.adapter.calls.len(), 2);
}

#[test]
fn kernel_announcement_is_forwarded() {
    let mut p = protocol(Recorder::new(), 2, ChainType::Mainnet, false);
    assert!(matches!(p.consume(Message::TransactionKernel(Digest(4))), Ok(Consumed::Nothing)));
    assert_eq!(p.adapter.calls.last().unwrap(), "tx_kernel_received");
}

#[test]
fn transactions_are_forwarded_with_stem_tag() {
    let mut p = protocol(Recorder::new(), 2, ChainType::Mainnet, false);
    assert!(matches!(p.consume(Message::Transaction(tx(1, 11))), Ok(Consumed::Nothing)));
    assert!(matches!(p.consume(Message::StemTransaction(tx(2, 12))), Ok(Consumed::Nothing)));
    assert_eq!(p.adapter.received_txs, vec![(tx(1, 11), false), (tx(2, 12), true)]);
}

#[test]
fn get_transaction_replies_when_found() {
    let mut a = Recorder::new();
    a.txs = vec![tx(8, 80)];
    let mut p = protocol(a, 2, ChainType::Mainnet, false);
    match p.consume(Message::GetTransaction(Digest(8))) {
        Ok(Consumed::Response(Msg::Transaction(t))) => assert_eq!(t, tx(8, 80)),
        other => panic!("unexpected {:?}", other),
    }
    assert!(matches!(p.consume(Message::GetTransaction(Digest(9))), Ok(Consumed::Nothing)));
}

#[test]
fn get_block_unknown_and_known() {
    let mut a = Recorder::new();
    a.blocks = vec![Block { header: header(42, 10), txs: vec![tx(1, 11)] }];
    let mut p = protocol(a, 2, ChainType::Mainnet, false);
    assert!(matches!(p.consume(Message::GetBlock(Digest(41))), Ok(Consumed::Nothing)));
    match p.consume(Message::GetBlock(Digest(42))) {
        Ok(Consumed::Response(Msg::Block(b))) => {
            assert_eq!(b.header, header(42, 10));
            assert_eq!(b.txs, vec![tx(1, 11)]);
        }
        other => panic!("unexpected {:?}", other),
    }
}

#[test]
fn block_error_propagates() {
    let mut p = protocol(Recorder::new(), 2, ChainType::Mainnet, false);
    let b = Block { header: header(1, 1), txs: vec![] };
    assert!(matches!(p.consume(Message::Block(b)), Err(Error::Adapter(AdapterError::Chain))));
}

#[test]
fn get_compact_block_replies_with_kernels() {
    let mut a = Recorder::new();
    a.blocks = vec![Block { header: header(42, 10), txs: vec![tx(1, 11), tx(2, 22)] }];
    let mut p = protocol(a, 2, ChainType::Mainnet, false);
    match p.consume(Message::GetCompactBlock(Digest(42))) {
        Ok(Consumed::Response(Msg::CompactBlock(cb))) => {
            assert_eq!(cb.header, header(42, 10));
            assert_eq!(cb.kernel_ids, vec![Digest(11), Digest(22)]);
        }
        other => panic!("unexpected {:?}", other),
    }
    assert!(matches!(p.consume(Message::GetCompactBlock(Digest(1))), Ok(Consumed::Nothing)));
}

#[test]
fn compact_block_of_empty_block() {
    let b = Block { header: header(3, 3), txs: vec![] };
    let cb = CompactBlock::from_block(&b);
    assert_eq!(cb.header, header(3, 3));
    assert!(cb.kernel_ids.is_empty());
}

#[test]
fn headers_and_peer_addresses() {
    let mut a = Recorder::new();
    a.peers = vec![PeerAddr { ip: 9, port: 9 }];
    let mut p = protocol(a, 2, ChainType::Mainnet, false);
    match p.consume(Message::GetHeaders(vec![Digest(5), Digest(6)])) {
        Ok(Consumed::Response(Msg::Headers(hs))) => {
            assert_eq!(hs.len(), 2);
            assert_eq!(hs[1].hash, Digest(6));
        }
        other => panic!("unexpected {:?}", other),
    }
    assert!(matches!(p.consume(Message::Header(header(1, 1))), Ok(Consumed::Nothing)));
    assert!(matches!(p.consume(Message::Headers(vec![header(1, 1)])), Ok(Consumed::Nothing)));
    match p.consume(Message::GetPeerAddrs(Capabilities(1))) {
        Ok(Consumed::Response(Msg::PeerAddrs(peers))) => assert_eq!(peers, vec![PeerAddr { ip: 9, port: 9 }]),
        other => panic!("unexpected {:?}", other),
    }
    assert!(matches!(p.consume(Message::PeerAddrs(vec![PeerAddr { ip: 8, port: 8 }])), Ok(Consumed::Nothing)));
    assert_eq!(p.adapter.peers.len(), 2);
}

#[test]
fn snapshot_request_offers_local_archive() {
    let mut a = Recorder::new();
    a.archive_header = Ok(header(77, 1440));
    a.snapshot = Some(SnapshotFile { path: "/data/snap.zip".to_string(), size: 9000 });
    let mut p = protocol(a, 2, ChainType::Mainnet, false);
    let req = Message::TxHashSetRequest(TxHashSetRequest { hash: Digest(77), height: 1440 });
    match p.consume(req) {
        Ok(Consumed::Response(Msg::TxHashSetArchive { archive, attachment })) => {
            assert_eq!(archive, TxHashSetArchive { height: 1440, hash: Digest(77), bytes: 9000 });
            assert_eq!(attachment.path, "/data/snap.zip");
        }
        other => panic!("unexpected {:?}", other),
    }
}

#[test]
fn snapshot_request_without_archive_is_dropped() {
    let mut a = Recorder::new();
    a.archive_header = Ok(header(77, 1440));
    let mut p = protocol(a, 2, ChainType::Mainnet, false);
    let req = Message::TxHashSetRequest(TxHashSetRequest { hash: Digest(77), height: 1440 });
    assert!(matches!(p.consume(req), Ok(Consumed::Nothing)));
    let mut p = protocol(Recorder::new(), 2, ChainType::Mainnet, false);
    let req = Message::TxHashSetRequest(TxHashSetRequest { hash: Digest(77), height: 1440 });
    assert!(matches!(p.consume(req), Err(Error::Adapter(AdapterError::Chain))));
}

fn archive() -> Message {
    Message::TxHashSetArchive(TxHashSetArchive { height: 100, hash: Digest(0xabc), bytes: 4096 })
}

#[test]
fn archive_accepted_when_ready_and_requested() {
    let mut a = Recorder::new();
    a.ready = true;
    let mut p = protocol(a, 2, ChainType::Mainnet, true);
    match p.consume(archive()) {
        Ok(Consumed::Attachment(meta)) => {
            assert_eq!(meta.size, 4096);
            assert_eq!(meta.hash, Digest(0xabc));
            assert_eq!(meta.height, 100);
            assert!(meta.path.starts_with("/tmp/node/txhashset-"));
            assert!(meta.path.ends_with(".zip"));
        }
        other => panic!("unexpected {:?}", other),
    }
    assert!(!p.state_sync_requested.load(Ordering::SeqCst));
    assert_eq!(p.adapter.updates.len(), 1);
    assert_eq!((p.adapter.updates[0].1, p.adapter.updates[0].2), (0, 4096));
}

#[test]
fn archive_refused_when_not_ready() {
    let mut p = protocol(Recorder::new(), 2, ChainType::Mainnet, true);
    assert!(matches!(p.consume(archive()), Err(Error::BadMessage)));
    assert!(p.state_sync_requested.load(Ordering::SeqCst));
    assert!(p.adapter.updates.is_empty());
}

#[test]
fn archive_refused_when_not_requested_and_flag_stays_clear() {
    let mut a = Recorder::new();
    a.ready = true;
    let mut p = protocol(a, 2, ChainType::Mainnet, false);
    assert!(matches!(p.consume(archive()), Err(Error::BadMessage)));
    assert!(!p.state_sync_requested.load(Ordering::SeqCst));
    assert!(matches!(p.consume(archive()), Err(Error::BadMessage)));
    assert!(!p.state_sync_requested.load(Ordering::SeqCst));
    assert!(p.adapter.tmp_names.is_empty());
}

#[test]
fn second_archive_after_acceptance_is_refused() {
    let mut a = Recorder::new();
    a.ready = true;
    let mut p = protocol(a, 2, ChainType::Mainnet, true);
    assert!(matches!(p.consume(archive()), Ok(Consumed::Attachment(_))));
    assert!(matches!(p.consume(archive()), Err(Error::BadMessage)));
}

#[test]
fn start_transfer_names_the_file_from_time_and_nonce() {
    let mut p = protocol(Recorder::new(), 2, ChainType::Mainnet, false);
    let arch = TxHashSetArchive { height: 100, hash: Digest(1), bytes: 50 };
    match p.start_transfer(arch, true, 1_600_000_000, 42) {
        Ok(Consumed::Attachment(meta)) => {
            assert_eq!(meta.path, "/tmp/node/txhashset-1600000000-42.zip");
            assert_eq!(meta.start_time, 1_600_000_000);
        }
        other => panic!("unexpected {:?}", other),
    }
    assert_eq!(p.adapter.tmp_names, vec!["txhashset-1600000000-42.zip".to_string()]);
    assert_eq!(p.adapter.updates, vec![(1_600_000_000, 0, 50)]);
    assert!(p.start_transfer(arch, true, -5, 0).is_ok());
    assert_eq!(p.adapter.tmp_names[1], "txhashset--5-0.zip");
    assert!(matches!(p.start_transfer(arch, false, 1, 1), Err(Error::BadMessage)));
    assert_eq!(p.adapter.tmp_names.len(), 2);
}

fn update(left: u64) -> Message {
    Message::Attachment(AttachmentUpdate {
        meta: AttachmentMeta {
            size: 4096,
            hash: Digest(0xabc),
            height: 100,
            start_time: 1000,
            path: "/tmp/node/t.zip".to_string(),
        },
        left,
    })
}

#[test]
fn completion_writes_once_and_removes_file() {
    let mut p = protocol(Recorder::new(), 2, ChainType::Mainnet, false);
    assert!(matches!(p.consume(update(1024)), Ok(Consumed::Nothing)));
    assert!(p.adapter.writes.is_empty());
    assert!(matches!(p.consume(update(0)), Ok(Consumed::Nothing)));
    assert_eq!(p.adapter.writes, vec![(Digest(0xabc), "/tmp/node/t.zip".to_string())]);
    assert_eq!(p.adapter.removed, vec!["/tmp/node/t.zip".to_string()]);
    assert_eq!(p.adapter.updates, vec![(1000, 3072, 4096), (1000, 4096, 4096)]);
}

#[test]
fn completion_removes_file_when_validation_fails() {
    let mut a = Recorder::new();
    a.write_result = Ok(true);
    let mut p = protocol(a, 2, ChainType::Mainnet, false);
    assert!(matches!(p.consume(update(0)), Ok(Consumed::Nothing)));
    assert_eq!(p.adapter.removed.len(), 1);
}

#[test]
fn completion_removes_file_when_write_errors() {
    let mut a = Recorder::new();
    a.write_result = Err(AdapterError::Chain);
    let mut p = protocol(a, 2, ChainType::Mainnet, false);
    assert!(matches!(p.consume(update(0)), Err(Error::Adapter(AdapterError::Chain))));
    assert_eq!(p.adapter.writes.len(), 1);
    assert_eq!(p.adapter.removed, vec!["/tmp/node/t.zip".to_string()]);
}

#[test]
fn version_gate_follows_fork_height_mid_session() {
    let mut a = Recorder::new();
    a.height = Ok(786_239);
    let mut p = protocol(a, 2, ChainType::Mainnet, false);
    assert!(matches!(p.consume(Message::Pong { total_difficulty: 1, height: 1 }), Ok(Consumed::Nothing)));
    assert!(p.check_protocol_version().is_ok());
    p.adapter.height = Ok(786_240);
    assert!(matches!(
        p.consume(Message::Pong { total_difficulty: 1, height: 1 }),
        Err(Error::LowProtocolVersion)
    ));
    assert!(matches!(p.check_protocol_version(), Err(Error::LowProtocolVersion)));
}

#[test]
fn snapshot_download_end_to_end() {
    let mut a = Recorder::new();
    a.ready = true;
    let mut p = protocol(a, 2, ChainType::Mainnet, true);
    let meta = match p.consume(archive()) {
        Ok(Consumed::Attachment(meta)) => meta,
        other => panic!("unexpected {:?}", other),
    };
    assert!(!p.state_sync_requested.load(Ordering::SeqCst));
    let chunk = |left: u64| Message::Attachment(AttachmentUpdate { meta: meta.clone(), left });
    assert!(matches!(p.consume(chunk(2048)), Ok(Consumed::Nothing)));
    assert!(p.adapter.writes.is_empty());
    assert!(matches!(p.consume(chunk(0)), Ok(Consumed::Nothing)));
    let progress: Vec<(u64, u64)> = p.adapter.updates.iter().map(|u| (u.1, u.2)).collect();
    assert_eq!(progress, vec![(0, 4096), (2048, 4096), (4096, 4096)]);
    assert!(p.adapter.updates.iter().all(|u| u.0 == meta.start_time));
    assert_eq!(p.adapter.writes, vec![(Digest(0xabc), meta.path.clone())]);
    assert_eq!(p.adapter.removed, vec![meta.path.clone()]);
}

#[test]
fn minimum_versions_by_chain_and_height() {
    assert_eq!(min_compatible_version(ChainType::Mainnet, 0), 2);
    assert_eq!(min_compatible_version(ChainType::Mainnet, 786_239), 2);
    assert_eq!(min_compatible_version(ChainType::Mainnet, 786_240), 3);
    assert_eq!(min_compatible_version(ChainType::Testnet, 0), 3);
    assert_eq!(min_compatible_version(ChainType::AutomatedTesting, 8), 2);
    assert_eq!(min_compatible_version(ChainType::AutomatedTesting, 9), 3);
    assert_eq!(third_hard_fork_height(ChainType::Testnet), 552_960);
    assert_eq!(third_hard_fork_height(ChainType::UserTesting), 9);
    assert!(check_version(ChainType::Mainnet, 10, 2).is_ok());
    assert_eq!(check_version(ChainType::Testnet, 10, 2), Err(Error::LowProtocolVersion));
    assert_eq!(check_version(ChainType::Mainnet, 786_240, 2), Err(Error::LowProtocolVersion));
    assert!(check_version(ChainType::Mainnet, 786_240, 3).is_ok());
}

#[test]
fn archive_file_names_in_decimal() {
    assert_eq!(archive_file_name_of(0, 0), "txhashset-0-0.zip");
    assert_eq!(archive_file_name_of(1_700_000_123, 999_999), "txhashset-1700000123-999999.zip");
    assert_eq!(archive_file_name_of(-42, 7), "txhashset--42-7.zip");
    assert_eq!(archive_file_name_of(i64::MIN, u32::MAX), "txhashset--9223372036854775808-4294967295.zip");
}
