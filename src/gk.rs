//! The gatekeeper: its state, the worker map, and the per-block, beacon
//! and key-distribution entry points.

use crate::beacon::{
    extend_be_u32, extend_be_u64, extend_bytes, next_random_number, spec_iv, spec_next_random_number,
    be_bytes_u32, be_bytes_u64,
};
use crate::channel::MessageChannel;
use crate::hashing::{
    blake2_256, bytes_lt, key_cmp, key_eq, lemma_bytes_lt_asymmetric, lemma_bytes_lt_transitive,
};
use crate::messages::{
    BlockInfo, EcdhPublicKey, EgressMessage, GatekeeperEvent, IncomingMessage, Iv, KeyDistribution,
    MessageOrigin, MiningInfoUpdateEvent, MiningReportEvent, RandomNumber, RandomNumberEvent,
    SystemEvent, WorkerPublicKey,
};
use crate::processor::{spec_block_outcome, sum_share, GKMessageProcesser};
use crate::prpc;
use crate::tokenomic::{test_params, Params};
use crate::worker::MiningState;
use crate::worker_info::{
    fresh_worker, has_key, insert_pos, is_insert_pos, keys_sorted, lemma_insert_pos_unique,
    spec_ensure_worker, WorkerInfo, WorkerInfoView,
};
use vstd::prelude::*;

verus! {

/// Block interval of the randomness beacon. It must exceed the latency of
/// the message queue.
pub const VRF_INTERVAL: u32 = 5;

/// Inconsistencies between the local state and verified inputs. Either
/// means the state has diverged from its peers; the host must stop.
#[derive(Clone, Copy, Debug, PartialEq, Eq, Structural)]
pub enum GatekeeperError {
    /// A heartbeat that does not answer the oldest pending challenge.
    UnexpectedHeartbeat,
    /// A beacon value that differs from the local derivation.
    RandomNumberMismatch,
}

/// What the gatekeeper reads of its master key: the secret bytes of the
/// keys derived from it for the beacon and for IV generation.
#[derive(Clone, Debug)]
pub struct MasterKey {
    pub random_secret: Vec<u8>,
    pub iv_secret: Vec<u8>,
}

/// The gatekeeper state.
pub struct Gatekeeper {
    pub master_key: MasterKey,
    pub master_pubkey_on_chain: bool,
    pub registered_on_chain: bool,
    pub egress: MessageChannel,
    pub mining_events: Vec<(MessageOrigin, MiningReportEvent)>,
    pub system_events: Vec<(MessageOrigin, SystemEvent)>,
    pub gatekeeper_events: Vec<(MessageOrigin, GatekeeperEvent)>,
    /// In strictly ascending order of public key.
    pub workers: Vec<WorkerInfo>,
    pub last_random_number: RandomNumber,
    pub iv_seq: u64,
    pub tokenomic_params: Params,
}

impl Gatekeeper {
    pub open spec fn workers_view(&self) -> Seq<WorkerInfoView> {
        self.workers@.map_values(|w: WorkerInfo| w@)
    }

    pub open spec fn wf(&self) -> bool {
        keys_sorted(self.workers_view())
    }

    /// Everything but the workers is the same in `self` and `other`.
    pub open spec fn same_but_workers(&self, other: &Gatekeeper) -> bool {
        &&& self.master_key == other.master_key
        &&& self.master_pubkey_on_chain == other.master_pubkey_on_chain
        &&& self.registered_on_chain == other.registered_on_chain
        &&& self.egress == other.egress
        &&& self.mining_events == other.mining_events
        &&& self.system_events == other.system_events
        &&& self.gatekeeper_events == other.gatekeeper_events
        &&& self.last_random_number == other.last_random_number
        &&& self.iv_seq == other.iv_seq
        &&& self.tokenomic_params == other.tokenomic_params
    }

    /// Index of the worker with `pubkey`, if it is known.
    pub fn find_worker(&self, pubkey: &WorkerPublicKey) -> (r: Option<usize>)
        requires
            self.wf(),
        ensures
            match r {
                Some(i) => i < self.workers@.len() && self.workers_view()[i as int].state.pubkey@ == pubkey@,
                None => !has_key(self.workers_view(), pubkey@),
            },
    {
        let mut i: usize = 0;
        while i < self.workers.len()
            invariant
                0 <= i <= self.workers@.len(),
                forall|j: int| 0 <= j < i ==> self.workers_view()[j].state.pubkey@ != pubkey@,
            decreases self.workers@.len() - i,
        {
            if key_eq(&self.workers[i].state.pubkey, pubkey) {
                return Some(i);
            }
            i = i + 1;
        }
        None
    }

    /// Where `pubkey` stands or would stand among the workers.
    fn lower_bound(&self, pubkey: &WorkerPublicKey) -> (r: usize)
        requires
            self.wf(),
        ensures
            r <= self.workers@.len(),
            forall|j: int| 0 <= j < r ==> bytes_lt(#[trigger] self.workers_view()[j].state.pubkey@, pubkey@),
            r < self.workers@.len() ==> (self.workers_view()[r as int].state.pubkey@ == pubkey@ || bytes_lt(
                pubkey@,
                self.workers_view()[r as int].state.pubkey@,
            )),
    {
        let mut i: usize = 0;
        while i < self.workers.len()
            invariant
                0 <= i <= self.workers@.len(),
                forall|j: int| 0 <= j < i ==> bytes_lt(#[trigger] self.workers_view()[j].state.pubkey@, pubkey@),
            decreases self.workers@.len() - i,
        {
            if key_cmp(&self.workers[i].state.pubkey, pubkey) >= 0 {
                return i;
            }
            i = i + 1;
        }
        i
    }

    /// Adds a fresh entry for `pubkey` unless it is known.
    pub fn ensure_worker(&mut self, pubkey: &WorkerPublicKey)
        requires
            old(self).wf(),
        ensures
            final(self).wf(),
            final(self).same_but_workers(old(self)),
            final(self).workers_view() == spec_ensure_worker(old(self).workers_view(), *pubkey),
    {
        let p = self.lower_bound(pubkey);
        let ghost ws = self.workers_view();
        if p < self.workers.len() && key_eq(&self.workers[p].state.pubkey, pubkey) {
            assert(has_key(ws, pubkey@)) by {
                assert(ws[p as int].state.pubkey@ == pubkey@);
            }
            return;
        }
        proof {
            assert forall|j: int| p <= j < ws.len() implies bytes_lt(pubkey@, #[trigger] ws[j].state.pubkey@) by {
                if j > p {
                    lemma_bytes_lt_transitive(pubkey@, ws[p as int].state.pubkey@, ws[j].state.pubkey@);
                }
            }
            assert(is_insert_pos(ws, pubkey@, p as int));
            lemma_insert_pos_unique(ws, pubkey@, p as int, insert_pos(ws, pubkey@));
            assert(!has_key(ws, pubkey@)) by {
                if has_key(ws, pubkey@) {
                    let k = choose|k: int| 0 <= k < ws.len() && #[trigger] ws[k].state.pubkey@ == pubkey@;
                    if k < p {
                        lemma_bytes_lt_asymmetric(ws[k].state.pubkey@, pubkey@);
                    } else {
                        lemma_bytes_lt_asymmetric(pubkey@, ws[k].state.pubkey@);
                    }
                }
            }
        }
        self.workers.insert(p, WorkerInfo::new(*pubkey));
        assert(self.workers_view() =~= ws.insert(p as int, fresh_worker(*pubkey)));
    }
}

impl Gatekeeper {
    /// A gatekeeper with no workers. Its egress drops messages until it
    /// is registered on chain.
    pub fn new(master_key: MasterKey) -> (r: Gatekeeper)
        ensures
            r.wf(),
            r.master_key == master_key,
            !r.master_pubkey_on_chain,
            !r.registered_on_chain,
            r.egress.dummy,
            r.egress.messages@.len() == 0,
            r.mining_events@.len() == 0,
            r.system_events@.len() == 0,
            r.gatekeeper_events@.len() == 0,
            r.workers@.len() == 0,
            r.last_random_number@ == Seq::new(32, |i: int| 0u8),
            r.iv_seq == 0,
            r.tokenomic_params == crate::tokenomic::spec_test_params(),
    {
        let r = Gatekeeper {
            master_key,
            master_pubkey_on_chain: false,
            registered_on_chain: false,
            egress: MessageChannel::new(),
            mining_events: Vec::new(),
            system_events: Vec::new(),
            gatekeeper_events: Vec::new(),
            workers: Vec::new(),
            last_random_number: [0u8; 32],
            iv_seq: 0,
            tokenomic_params: test_params(),
        };
        assert(r.last_random_number@ =~= Seq::new(32, |i: int| 0u8));
        r
    }

    /// Messages are sent from now on.
    pub fn register_on_chain(&mut self)
        ensures
            *final(self) == (Gatekeeper {
                registered_on_chain: true,
                egress: MessageChannel { dummy: false, ..old(self).egress },
                ..*old(self)
            }),
    {
        self.egress.set_dummy(false);
        self.registered_on_chain = true;
    }

    /// Messages are dropped from now on.
    pub fn unregister_on_chain(&mut self)
        ensures
            *final(self) == (Gatekeeper {
                registered_on_chain: false,
                egress: MessageChannel { dummy: true, ..old(self).egress },
                ..*old(self)
            }),
    {
        self.egress.set_dummy(true);
        self.registered_on_chain = false;
    }

    pub fn registered_on_chain(&self) -> (r: bool)
        ensures
            r == self.registered_on_chain,
    {
        self.registered_on_chain
    }

    /// The master public key is on chain: blocks are processed from now on.
    pub fn master_pubkey_uploaded(&mut self)
        ensures
            *final(self) == (Gatekeeper { master_pubkey_on_chain: true, ..*old(self) }),
    {
        self.master_pubkey_on_chain = true;
    }

    /// Puts a delivered message in its inbox.
    pub fn receive(&mut self, origin: MessageOrigin, message: IncomingMessage)
        ensures
            match message {
                IncomingMessage::MiningReport(e) => *final(self) == (Gatekeeper {
                    mining_events: final(self).mining_events,
                    ..*old(self)
                }) && final(self).mining_events@ == old(self).mining_events@.push((origin, e)),
                IncomingMessage::System(e) => *final(self) == (Gatekeeper {
                    system_events: final(self).system_events,
                    ..*old(self)
                }) && final(self).system_events@ == old(self).system_events@.push((origin, e)),
                IncomingMessage::Gatekeeper(e) => *final(self) == (Gatekeeper {
                    gatekeeper_events: final(self).gatekeeper_events,
                    ..*old(self)
                }) && final(self).gatekeeper_events@ == old(self).gatekeeper_events@.push((origin, e)),
            },
    {
        match message {
            IncomingMessage::MiningReport(e) => self.mining_events.push((origin, e)),
            IncomingMessage::System(e) => self.system_events.push((origin, e)),
            IncomingMessage::Gatekeeper(e) => self.gatekeeper_events.push((origin, e)),
        }
    }

    /// The per-block tick. Until the master public key is on chain nothing
    /// happens. Otherwise the inboxes are drained and the block's report, if
    /// it holds anything, is sent as one message.
    pub fn process_messages(&mut self, block: &BlockInfo) -> (r: Result<(), GatekeeperError>)
        requires
            old(self).wf(),
        ensures
            final(self).wf(),
            !old(self).master_pubkey_on_chain ==> *final(self) == *old(self) && r is Ok,
            final(self).master_key == old(self).master_key,
            final(self).master_pubkey_on_chain == old(self).master_pubkey_on_chain,
            final(self).registered_on_chain == old(self).registered_on_chain,
            final(self).last_random_number == old(self).last_random_number,
            final(self).iv_seq == old(self).iv_seq,
            final(self).egress.dummy == old(self).egress.dummy,
            r is Err ==> final(self).egress == old(self).egress,
            old(self).master_pubkey_on_chain ==> ({
                let out = spec_block_outcome(*old(self), *block);
                &&& (r is Ok <==> out is Some)
                &&& r is Ok ==> {
                    let o = out.unwrap();
                    &&& final(self).mining_events@.len() == 0
                    &&& final(self).system_events@.len() == 0
                    &&& final(self).gatekeeper_events@.len() == 0
                    &&& final(self).workers_view() == o.workers
                    &&& final(self).tokenomic_params == o.params
                    &&& (o.offline.len() == 0 && o.recovered_to_online.len() == 0 && o.settle.len() == 0)
                        ==> final(self).egress == old(self).egress
                    &&& !(o.offline.len() == 0 && o.recovered_to_online.len() == 0 && o.settle.len() == 0)
                        ==> exists|report: MiningInfoUpdateEvent|
                        {
                            &&& report.block_number == block.block_number
                            &&& report.timestamp_ms == block.now_ms
                            &&& report.offline@ == o.offline
                            &&& report.recovered_to_online@ == o.recovered_to_online
                            &&& report.settle@ == o.settle
                            &&& final(self).egress.messages@ == old(self).egress.spec_push(
                                EgressMessage::MiningInfoUpdate(report),
                            )
                        }
                }
            }),
    {
        if !self.master_pubkey_on_chain {
            return Ok(());
        }
        let sum_share = sum_share(self);
        let mut processor = GKMessageProcesser {
            block: *block,
            report: MiningInfoUpdateEvent::new(block.block_number, block.now_ms),
            sum_share,
        };
        let res = processor.process(self);
        if res.is_err() {
            return res;
        }
        let report = processor.report;
        if !report.is_empty() {
            self.egress.push_message(EgressMessage::MiningInfoUpdate(report));
        }
        Ok(())
    }

    /// The beacon tick: on every `VRF_INTERVAL`-th block, the next random
    /// number is derived and sent.
    pub fn emit_random_number(&mut self, block_number: u32)
        ensures
            block_number % VRF_INTERVAL != 0 ==> *final(self) == *old(self),
            block_number % VRF_INTERVAL == 0 ==> {
                &&& final(self).last_random_number@ == spec_next_random_number(
                    old(self).master_key.random_secret@,
                    block_number,
                    old(self).last_random_number@,
                )
                &&& final(self).egress.messages@ == old(self).egress.spec_push(
                    EgressMessage::Gatekeeper(
                        GatekeeperEvent::NewRandomNumber(
                            RandomNumberEvent {
                                block_number,
                                random_number: final(self).last_random_number,
                                last_random_number: old(self).last_random_number,
                            },
                        ),
                    ),
                )
                &&& *final(self) == (Gatekeeper {
                    egress: final(self).egress,
                    last_random_number: final(self).last_random_number,
                    ..*old(self)
                })
                &&& final(self).egress.dummy == old(self).egress.dummy
            },
    {
        if block_number % VRF_INTERVAL != 0 {
            return;
        }
        let random_number = next_random_number(&self.master_key, block_number, self.last_random_number);
        self.egress.push_message(
            EgressMessage::Gatekeeper(
                GatekeeperEvent::new_random_number(block_number, random_number, self.last_random_number),
            ),
        );
        self.last_random_number = random_number;
    }

    /// The IV of the next dispatch of the master key; no two dispatches
    /// share one.
    pub fn generate_iv(&mut self, block_number: u32) -> (r: Iv)
        requires
            old(self).iv_seq < u64::MAX,
        ensures
            r@ == spec_iv(old(self).master_key.iv_secret@, block_number, old(self).iv_seq),
            *final(self) == (Gatekeeper { iv_seq: (old(self).iv_seq + 1) as u64, ..*old(self) }),
    {
        let mut buf: Vec<u8> = Vec::new();
        extend_bytes(&mut buf, self.master_key.iv_secret.as_slice());
        extend_be_u32(&mut buf, block_number);
        extend_be_u64(&mut buf, self.iv_seq);
        assert(buf@ =~= self.master_key.iv_secret@ + be_bytes_u32(block_number) + be_bytes_u64(self.iv_seq));
        self.iv_seq = self.iv_seq + 1;
        let hash = blake2_256(buf.as_slice());
        let mut iv: Iv = [0u8; 12];
        let mut i: usize = 0;
        while i < 12
            invariant
                0 <= i <= 12,
                hash@.len() == 32,
                iv@.len() == 12,
                forall|j: int| 0 <= j < i ==> iv@[j] == hash@[j],
            decreases 12 - i,
        {
            iv[i] = hash[i];
            i = i + 1;
        }
        assert(iv@ =~= hash@.subrange(0, 12));
        iv
    }

    /// Sends the master key to a worker. `seal` stands for the key
    /// collaborator: given the worker's ECDH key and the IV, it derives an
    /// ephemeral key from the master key, agrees on a secret with the
    /// worker and encrypts the master key under it; it returns the
    /// ephemeral public key and the ciphertext.
    pub fn share_master_key<F: FnOnce(&EcdhPublicKey, Iv) -> (EcdhPublicKey, Vec<u8>)>(
        &mut self,
        pubkey: &WorkerPublicKey,
        ecdh_pubkey: &EcdhPublicKey,
        block_number: u32,
        seal: F,
    )
        requires
            old(self).iv_seq < u64::MAX,
            forall|iv: Iv| seal.requires((ecdh_pubkey, iv)),
        ensures
            final(self).iv_seq == old(self).iv_seq + 1,
            *final(self) == (Gatekeeper { iv_seq: final(self).iv_seq, egress: final(self).egress, ..*old(self) }),
            final(self).egress.dummy == old(self).egress.dummy,
            exists|iv: Iv, sealed: (EcdhPublicKey, Vec<u8>)|
                {
                    &&& iv@ == spec_iv(old(self).master_key.iv_secret@, block_number, old(self).iv_seq)
                    &&& seal.ensures((ecdh_pubkey, iv), sealed)
                    &&& final(self).egress.messages@ == old(self).egress.spec_push(
                        EgressMessage::KeyDistribution(
                            KeyDistribution::MasterKeyDistribution {
                                target: *pubkey,
                                ecdh_pubkey: sealed.0,
                                encrypted_master_key: sealed.1,
                                iv,
                            },
                        ),
                    )
                },
    {
        let iv = self.generate_iv(block_number);
        let sealed = seal(ecdh_pubkey, iv);
        let (ephemeral_pubkey, encrypted) = sealed;
        self.egress.push_message(
            EgressMessage::KeyDistribution(
                KeyDistribution::MasterKeyDistribution {
                    target: *pubkey,
                    ecdh_pubkey: ephemeral_pubkey,
                    encrypted_master_key: encrypted,
                    iv,
                },
            ),
        );
    }

    /// Number of known workers.
    pub fn worker_count(&self) -> (r: usize)
        ensures
            r == self.workers@.len(),
    {
        self.workers.len()
    }

    /// Everything tracked of the worker with `pubkey`, if it is known.
    pub fn worker_info(&self, pubkey: &WorkerPublicKey) -> (r: Option<&WorkerInfo>)
        requires
            self.wf(),
        ensures
            match r {
                Some(w) => w.state.pubkey@ == pubkey@ && exists|i: int|
                    0 <= i < self.workers@.len() && self.workers@[i] == *w,
                None => !has_key(self.workers_view(), pubkey@),
            },
    {
        match self.find_worker(pubkey) {
            Some(i) => Some(&self.workers[i]),
            None => None,
        }
    }
}

/// The snapshot of a worker's model.
pub open spec fn is_worker_snapshot(s: prpc::WorkerState, w: WorkerInfoView) -> bool {
    &&& s.registered == w.state.registered
    &&& s.unresponsive == w.unresponsive
    &&& s.bench_state == match w.state.bench_state {
        Some(b) => Some(
            prpc::BenchState { start_block: b.start_block, start_time: b.start_time, duration: b.duration },
        ),
        None => None,
    }
    &&& s.mining_state == match w.state.mining_state {
        Some(m) => Some(
            prpc::MiningState {
                session_id: m.session_id,
                paused: m.state is Paused,
                start_time: m.start_time,
            },
        ),
        None => None,
    }
    &&& s.waiting_heartbeats@ == w.waiting_heartbeats
    &&& s.last_heartbeat_for_block == w.last_heartbeat_for_block
    &&& s.last_heartbeat_at_block == w.last_heartbeat_at_block
    &&& s.last_gk_responsive_event == w.last_gk_responsive_event
    &&& s.last_gk_responsive_event_at_block == w.last_gk_responsive_event_at_block
    &&& match s.tokenomic_info {
        Some(t) => w.state.mining_state is Some && t.is_snapshot_of(w.tokenomic),
        None => w.state.mining_state is None,
    }
}

impl Gatekeeper {
    /// Snapshot of the worker with `pubkey`, if it is known.
    pub fn worker_state(&self, pubkey: &WorkerPublicKey) -> (r: Option<prpc::WorkerState>)
        requires
            self.wf(),
        ensures
            match r {
                Some(s) => exists|i: int|
                    0 <= i < self.workers@.len() && #[trigger] self.workers_view()[i].state.pubkey@ == pubkey@
                        && is_worker_snapshot(s, self.workers_view()[i]),
                None => !has_key(self.workers_view(), pubkey@),
            },
    {
        let idx = match self.find_worker(pubkey) {
            Some(idx) => idx,
            None => {
                return None;
            },
        };
        let info = &self.workers[idx];
        assert(self.workers_view()[idx as int] == info@);
        let bench_state = match info.state.bench_state {
            Some(b) => Some(
                prpc::BenchState { start_block: b.start_block, start_time: b.start_time, duration: b.duration },
            ),
            None => None,
        };
        let mining_state = match info.state.mining_state {
            Some(m) => Some(
                prpc::MiningState {
                    session_id: m.session_id,
                    paused: match m.state {
                        MiningState::Paused => true,
                        MiningState::Mining => false,
                    },
                    start_time: m.start_time,
                },
            ),
            None => None,
        };
        let mut waiting_heartbeats: Vec<u32> = Vec::new();
        let mut i: usize = 0;
        while i < info.waiting_heartbeats.len()
            invariant
                0 <= i <= info.waiting_heartbeats@.len(),
                waiting_heartbeats@ == info.waiting_heartbeats@.subrange(0, i as int),
            decreases info.waiting_heartbeats@.len() - i,
        {
            waiting_heartbeats.push(info.waiting_heartbeats[i]);
            i = i + 1;
            assert(waiting_heartbeats@ =~= info.waiting_heartbeats@.subrange(0, i as int));
        }
        assert(waiting_heartbeats@ =~= info.waiting_heartbeats@);
        let tokenomic_info = if info.state.mining_state.is_some() {
            Some(prpc::TokenomicInfo::from(info.tokenomic))
        } else {
            None
        };
        Some(
            prpc::WorkerState {
                registered: info.state.registered,
                unresponsive: info.unresponsive,
                bench_state,
                mining_state,
                waiting_heartbeats,
                last_heartbeat_for_block: info.last_heartbeat_for_block,
                last_heartbeat_at_block: info.last_heartbeat_at_block,
                last_gk_responsive_event: info.last_gk_responsive_event,
                last_gk_responsive_event_at_block: info.last_gk_responsive_event_at_block,
                tokenomic_info,
            },
        )
    }
}

/// Processing a block is deterministic: two gatekeepers that hold the
/// same workers, inboxes, parameters and beacon secret reach the same
/// outcome, so they send the same report.
pub proof fn lemma_block_determinism(a: Gatekeeper, b: Gatekeeper, block: BlockInfo)
    requires
        a.workers_view() == b.workers_view(),
        a.mining_events@ == b.mining_events@,
        a.system_events@ == b.system_events@,
        a.gatekeeper_events@ == b.gatekeeper_events@,
        a.tokenomic_params == b.tokenomic_params,
        a.master_key.random_secret@ == b.master_key.random_secret@,
    ensures
        spec_block_outcome(a, block) == spec_block_outcome(b, block),
{
}

} // verus!
