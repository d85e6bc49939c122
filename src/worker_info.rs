//! What the gatekeeper tracks of one worker, its model, and the order of
//! the worker map.

use crate::hashing::{bytes_lt, lemma_bytes_lt_asymmetric};
use crate::messages::WorkerPublicKey;
use crate::tokenomic::{spec_default_tokenomic, TokenomicInfo};
use crate::worker::WorkerState;
use std::collections::VecDeque;
use vstd::prelude::*;

verus! {

/// Everything the gatekeeper tracks of one worker.
#[derive(Clone, Debug)]
pub struct WorkerInfo {
    pub state: WorkerState,
    /// Blocks of the challenges still waiting for a heartbeat, oldest first.
    pub waiting_heartbeats: VecDeque<u32>,
    pub unresponsive: bool,
    pub tokenomic: TokenomicInfo,
    /// Set when a valid heartbeat arrives in the current block.
    pub heartbeat_flag: bool,
    pub last_heartbeat_for_block: u32,
    pub last_heartbeat_at_block: u32,
    pub last_gk_responsive_event: i32,
    pub last_gk_responsive_event_at_block: u32,
}

/// The mathematical model of a `WorkerInfo`.
pub struct WorkerInfoView {
    pub state: WorkerState,
    pub waiting_heartbeats: Seq<u32>,
    pub unresponsive: bool,
    pub tokenomic: TokenomicInfo,
    pub heartbeat_flag: bool,
    pub last_heartbeat_for_block: u32,
    pub last_heartbeat_at_block: u32,
    pub last_gk_responsive_event: i32,
    pub last_gk_responsive_event_at_block: u32,
}

impl View for WorkerInfo {
    type V = WorkerInfoView;

    open spec fn view(&self) -> WorkerInfoView {
        WorkerInfoView {
            state: self.state,
            waiting_heartbeats: self.waiting_heartbeats@,
            unresponsive: self.unresponsive,
            tokenomic: self.tokenomic,
            heartbeat_flag: self.heartbeat_flag,
            last_heartbeat_for_block: self.last_heartbeat_for_block,
            last_heartbeat_at_block: self.last_heartbeat_at_block,
            last_gk_responsive_event: self.last_gk_responsive_event,
            last_gk_responsive_event_at_block: self.last_gk_responsive_event_at_block,
        }
    }
}

/// A worker seen for the first time.
pub open spec fn fresh_worker(pubkey: WorkerPublicKey) -> WorkerInfoView {
    WorkerInfoView {
        state: WorkerState { pubkey, registered: false, bench_state: None, mining_state: None },
        waiting_heartbeats: Seq::empty(),
        unresponsive: false,
        tokenomic: spec_default_tokenomic(),
        heartbeat_flag: false,
        last_heartbeat_for_block: 0,
        last_heartbeat_at_block: 0,
        last_gk_responsive_event: 0,
        last_gk_responsive_event_at_block: 0,
    }
}

impl WorkerInfo {
    pub fn new(pubkey: WorkerPublicKey) -> (r: WorkerInfo)
        ensures
            r@ == fresh_worker(pubkey),
    {
        WorkerInfo {
            state: WorkerState::new(pubkey),
            waiting_heartbeats: VecDeque::new(),
            unresponsive: false,
            tokenomic: TokenomicInfo::default(),
            heartbeat_flag: false,
            last_heartbeat_for_block: 0,
            last_heartbeat_at_block: 0,
            last_gk_responsive_event: 0,
            last_gk_responsive_event_at_block: 0,
        }
    }
}

impl WorkerInfo {
    /// A copy with the same model.
    pub fn clone_info(&self) -> (r: WorkerInfo)
        ensures
            r@ == self@,
    {
        let waiting_heartbeats = self.waiting_heartbeats.clone();
        assert(waiting_heartbeats@ =~= self.waiting_heartbeats@);
        WorkerInfo {
            state: self.state,
            waiting_heartbeats,
            unresponsive: self.unresponsive,
            tokenomic: self.tokenomic,
            heartbeat_flag: self.heartbeat_flag,
            last_heartbeat_for_block: self.last_heartbeat_for_block,
            last_heartbeat_at_block: self.last_heartbeat_at_block,
            last_gk_responsive_event: self.last_gk_responsive_event,
            last_gk_responsive_event_at_block: self.last_gk_responsive_event_at_block,
        }
    }
}

/// The workers are in strictly ascending order of public key.
pub open spec fn keys_sorted(ws: Seq<WorkerInfoView>) -> bool {
    forall|i: int, j: int|
        0 <= i < j < ws.len() ==> bytes_lt(#[trigger] ws[i].state.pubkey@, #[trigger] ws[j].state.pubkey@)
}

pub open spec fn has_key(ws: Seq<WorkerInfoView>, key: Seq<u8>) -> bool {
    exists|i: int| 0 <= i < ws.len() && #[trigger] ws[i].state.pubkey@ == key
}

/// `p` is where `key` goes in the sorted workers.
pub open spec fn is_insert_pos(ws: Seq<WorkerInfoView>, key: Seq<u8>, p: int) -> bool {
    &&& 0 <= p <= ws.len()
    &&& forall|j: int| 0 <= j < p ==> bytes_lt(#[trigger] ws[j].state.pubkey@, key)
    &&& forall|j: int| p <= j < ws.len() ==> bytes_lt(key, #[trigger] ws[j].state.pubkey@)
}

pub open spec fn insert_pos(ws: Seq<WorkerInfoView>, key: Seq<u8>) -> int {
    choose|p: int| is_insert_pos(ws, key, p)
}

/// The workers once `pubkey` is known: a fresh entry goes in at its place
/// in key order.
pub open spec fn spec_ensure_worker(ws: Seq<WorkerInfoView>, pubkey: WorkerPublicKey) -> Seq<WorkerInfoView> {
    if has_key(ws, pubkey@) {
        ws
    } else {
        ws.insert(insert_pos(ws, pubkey@), fresh_worker(pubkey))
    }
}

/// At most one place suits a key among sorted workers.
pub proof fn lemma_insert_pos_unique(ws: Seq<WorkerInfoView>, key: Seq<u8>, p: int, q: int)
    requires
        is_insert_pos(ws, key, p),
        is_insert_pos(ws, key, q),
    ensures
        p == q,
{
    if p < q {
        assert(bytes_lt(ws[p].state.pubkey@, key));
        assert(bytes_lt(key, ws[p].state.pubkey@));
        lemma_bytes_lt_asymmetric(ws[p].state.pubkey@, key);
    } else if q < p {
        assert(bytes_lt(ws[q].state.pubkey@, key));
        assert(bytes_lt(key, ws[q].state.pubkey@));
        lemma_bytes_lt_asymmetric(ws[q].state.pubkey@, key);
    }
}

/// Index of the worker with `key`, when one has it.
pub open spec fn key_index(ws: Seq<WorkerInfoView>, key: Seq<u8>) -> int {
    choose|i: int| 0 <= i < ws.len() && #[trigger] ws[i].state.pubkey@ == key
}

/// `key_index` finds a worker with the key when there is one.
pub proof fn lemma_key_index(ws: Seq<WorkerInfoView>, key: Seq<u8>)
    requires
        has_key(ws, key),
    ensures
        0 <= key_index(ws, key) < ws.len(),
        ws[key_index(ws, key)].state.pubkey@ == key,
{
}

} // verus!
