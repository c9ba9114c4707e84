//! Properties of the dispatcher that hold for every peer, message and
//! adapter behaviour, stated over the traces of adapter calls.

use crate::adapter::AdapterCall;
use crate::protocol::{attachment_spec, consume_spec, handle_spec, ping_spec, transfer_spec};
use crate::types::{
    AttachmentMeta, AttachmentUpdate, ChainType, Consumed, Digest, Error, Message, Msg, PeerInfo, TxHashSetArchive,
};
use crate::version::min_compatible_version_spec;
use vstd::prelude::*;

verus! {

/// A message from a banned peer ends the connection, and the ban check is
/// the only call made on the adapter.
pub proof fn lemma_banned_peer_disconnected(
    peer: PeerInfo,
    chain: ChainType,
    msg: Message,
    t: Seq<AdapterCall>,
    r: Result<Consumed, Error>,
)
    requires
        consume_spec(peer, chain, msg, t, r),
        t[0] == (AdapterCall::IsBanned { addr: peer.addr, banned: true }),
    ensures
        r == Ok::<Consumed, Error>(Consumed::Disconnect),
        t == seq![AdapterCall::IsBanned { addr: peer.addr, banned: true }],
{
    assert(t =~= seq![AdapterCall::IsBanned { addr: peer.addr, banned: true }]);
}

/// A peer whose version is below the minimum for the chain's height fails
/// every message with `LowProtocolVersion`; the only calls made are the ban
/// check and at most one read of the chain height.
pub proof fn lemma_low_version_rejected(
    peer: PeerInfo,
    chain: ChainType,
    msg: Message,
    t: Seq<AdapterCall>,
    r: Result<Consumed, Error>,
    height: u64,
)
    requires
        consume_spec(peer, chain, msg, t, r),
        t[0] == (AdapterCall::IsBanned { addr: peer.addr, banned: false }),
        t.len() >= 2 ==> t[1] == (AdapterCall::TotalHeight { result: Ok(height) }),
        peer.version.0 < min_compatible_version_spec(chain, height),
    ensures
        r == Err::<Consumed, Error>(Error::LowProtocolVersion),
        1 <= t.len() <= 2,
        t.len() == 2 ==> t[1] == (AdapterCall::TotalHeight { result: Ok(height) }),
{
}

/// A ping is answered with the node's own total difficulty and height, not
/// with what the peer declared.
pub proof fn lemma_ping_answers_own_state(
    peer: PeerInfo,
    declared_difficulty: u64,
    declared_height: u64,
    t: Seq<AdapterCall>,
    r: Result<Consumed, Error>,
    total_difficulty: u64,
    height: u64,
)
    requires
        ping_spec(peer, declared_difficulty, declared_height, t, r),
        t.len() >= 3,
        t[1] == (AdapterCall::TotalDifficulty { result: Ok(total_difficulty) }),
        t[2] == (AdapterCall::TotalHeight { result: Ok(height) }),
    ensures
        r == Ok::<Consumed, Error>(Consumed::Response(Msg::Pong { total_difficulty, height })),
{
}

/// Once the node is ready for an archive, the archive is accepted exactly
/// when this connection claimed the node's pending request; otherwise it is
/// a `BadMessage` and nothing more is asked of the adapter.
pub proof fn lemma_archive_accepted_iff_claimed(
    arch: TxHashSetArchive,
    claimed: bool,
    start_time: i64,
    nonce: u32,
    t: Seq<AdapterCall>,
    r: Result<Consumed, Error>,
)
    requires
        transfer_spec(arch, claimed, start_time, nonce, t, r),
    ensures
        (r matches Ok(Consumed::Attachment(_))) <==> claimed,
        !claimed ==> r == Err::<Consumed, Error>(Error::BadMessage) && t.len() == 0,
{
}

/// An archive is never accepted unless the node reported that it expects
/// one; a refused archive is a `BadMessage` after which nothing more is asked
/// of the adapter; an accepted one reports zero progress and streams into the
/// temporary path that the adapter gave, under the declared size and hash.
pub proof fn lemma_archive_needs_ready(
    peer: PeerInfo,
    arch: TxHashSetArchive,
    t: Seq<AdapterCall>,
    r: Result<Consumed, Error>,
)
    requires
        handle_spec(peer, Message::TxHashSetArchive(arch), t, r),
    ensures
        (r matches Ok(Consumed::Attachment(_))) ==> t[0] == (AdapterCall::TxHashSetReceiveReady { ready: true }),
        r is Ok ==> (r matches Ok(Consumed::Attachment(_))),
        t[0] == (AdapterCall::TxHashSetReceiveReady { ready: false }) ==> r == Err::<Consumed, Error>(Error::BadMessage) && t.len() == 1,
        r is Err ==> r == Err::<Consumed, Error>(Error::BadMessage) && t.len() == 1,
        r matches Ok(Consumed::Attachment(meta)) ==> {
            &&& t.len() == 3
            &&& meta.size == arch.bytes && meta.hash == arch.hash && meta.height == arch.height
            &&& t[1] == (AdapterCall::TxHashSetDownloadUpdate {
                start_time: meta.start_time,
                downloaded: 0,
                total: arch.bytes,
            })
            &&& t[2] matches AdapterCall::GetTmpfilePathname { result, .. } && result == meta.path@
        },
{
    if r is Ok {
        if t[0] == (AdapterCall::TxHashSetReceiveReady { ready: true }) {
            if !transfer_spec(arch, false, 0, 0, t.skip(1), r) {
                let (st, nonce) = choose|st: i64, nonce: u32|
                    nonce < crate::protocol::NONCE_BOUND && #[trigger] transfer_spec(arch, true, st, nonce, t.skip(1), r);
                lemma_archive_accepted_iff_claimed(arch, true, st, nonce, t.skip(1), r);
            }
        }
    }
}

/// When the last chunk of a transfer arrives, the archive is handed to the
/// adapter exactly once, under the hash declared at the start, and its
/// temporary file is deleted afterwards whatever the adapter reported.
pub proof fn lemma_completion_writes_once(
    peer: PeerInfo,
    u: AttachmentUpdate,
    t: Seq<AdapterCall>,
    r: Result<Consumed, Error>,
)
    requires
        attachment_spec(peer, u, t, r),
        u.left == 0,
    ensures
        t[1] matches AdapterCall::TxHashSetWrite { hash, .. } && hash == u.meta.hash,
        forall|i: int| 0 <= i < t.len() && (#[trigger] t[i] is TxHashSetWrite) ==> i == 1,
        t.last() matches AdapterCall::RemoveTmpfile { path, .. } && path == u.meta.path@,
{
}

/// A block request is answered with exactly the block the node has under
/// that hash, and not at all when it has none.
pub proof fn lemma_get_block_answer(
    peer: PeerInfo,
    h: Digest,
    t: Seq<AdapterCall>,
    r: Result<Consumed, Error>,
)
    requires
        handle_spec(peer, Message::GetBlock(h), t, r),
    ensures
        t.len() == 1,
        t[0] matches AdapterCall::GetBlock { hash, result, .. } && hash == h && match result {
            Some(b) => r == Ok::<Consumed, Error>(Consumed::Response(Msg::Block(b))),
            None => r == Ok::<Consumed, Error>(Consumed::Nothing),
        },
{
}

/// A whole snapshot transfer: once an archive of `arch.bytes` bytes is
/// accepted, a chunk that leaves `left` bytes to come and then the last chunk
/// report progress 0, `arch.bytes - left` and `arch.bytes` of `arch.bytes`,
/// all from the same start time; the archive is handed to the adapter only on
/// the last chunk, once, under the declared hash.
pub proof fn lemma_snapshot_transfer(
    peer: PeerInfo,
    arch: TxHashSetArchive,
    start_time: i64,
    nonce: u32,
    t1: Seq<AdapterCall>,
    meta: AttachmentMeta,
    left: u64,
    t2: Seq<AdapterCall>,
    r2: Result<Consumed, Error>,
    t3: Seq<AdapterCall>,
    r3: Result<Consumed, Error>,
)
    requires
        transfer_spec(arch, true, start_time, nonce, t1, Ok::<Consumed, Error>(Consumed::Attachment(meta))),
        0 < left <= meta.size,
        attachment_spec(peer, AttachmentUpdate { meta, left }, t2, r2),
        attachment_spec(peer, AttachmentUpdate { meta, left: 0 }, t3, r3),
    ensures
        meta.size == arch.bytes && meta.hash == arch.hash && meta.height == arch.height,
        t1[0] == (AdapterCall::TxHashSetDownloadUpdate { start_time, downloaded: 0, total: arch.bytes }),
        t2[0] == (AdapterCall::TxHashSetDownloadUpdate {
            start_time,
            downloaded: (arch.bytes - left) as u64,
            total: arch.bytes,
        }),
        t3[0] == (AdapterCall::TxHashSetDownloadUpdate { start_time, downloaded: arch.bytes, total: arch.bytes }),
        r2 == Ok::<Consumed, Error>(Consumed::Nothing),
        forall|i: int| 0 <= i < t1.len() ==> !(#[trigger] t1[i] is TxHashSetWrite),
        forall|i: int| 0 <= i < t2.len() ==> !(#[trigger] t2[i] is TxHashSetWrite),
        forall|i: int| 0 <= i < t3.len() && (#[trigger] t3[i] is TxHashSetWrite) ==> i == 1,
        t3[1] matches AdapterCall::TxHashSetWrite { hash, .. } && hash == arch.hash,
{
}

} // verus!
