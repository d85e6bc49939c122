//! Processing of one block's messages: mining reports, system events and
//! gatekeeper events, then the end-of-block pass over every worker.

use crate::beacon::spec_next_random_number;
use crate::fixed_point::{spec_add, FixedPoint, ONE_BITS};
use crate::gk::{Gatekeeper, GatekeeperError};
use crate::hashing::{bytes_lt, key_eq, lemma_bytes_lt_asymmetric};
use crate::messages::{
    BlockInfo, GatekeeperEvent, MessageOrigin, MiningInfoUpdateEvent, MiningReportEvent,
    RandomNumberEvent, SettleInfo, SystemEvent, WorkerEvent, WorkerEventWithKey, WorkerPublicKey,
};
use crate::tokenomic::{spec_default_tokenomic, Params, TokenomicInfo};
use crate::worker_info::{
    has_key, key_index, keys_sorted, lemma_key_index, spec_ensure_worker, WorkerInfoView,
};
use crate::beacon::next_random_number;
use vstd::prelude::*;

verus! {

/// Responsive transition recorded when a worker goes unresponsive.
pub const RESPONSIVE_EVENT_ENTER: i32 = 1;

/// Responsive transition recorded when a worker is back online.
pub const RESPONSIVE_EVENT_EXIT: i32 = 2;

pub open spec fn opt_seq<T>(o: Option<T>) -> Seq<T> {
    match o {
        Some(x) => seq![x],
        None => Seq::empty(),
    }
}

/// The heartbeat belongs to the worker's current mining session.
pub open spec fn in_session(w: WorkerInfoView, session_id: u32) -> bool {
    &&& w.state.mining_state is Some
    &&& w.state.mining_state.unwrap().session_id == session_id
}

/// The tokenomic record once a heartbeat's measurement is taken in.
pub open spec fn spec_measured(t: TokenomicInfo, challenge_time: u64, iterations: u64, block: BlockInfo) -> TokenomicInfo {
    TokenomicInfo {
        challenge_time_last: challenge_time,
        iteration_last: iterations,
        ..t.spec_update_p_instant(block.now_ms, iterations)
    }
}

/// The worker after a heartbeat that answers its oldest challenge. A
/// heartbeat of another session only answers the challenge.
pub open spec fn spec_heartbeat_worker(
    w: WorkerInfoView,
    session_id: u32,
    challenge_block: u32,
    challenge_time: u64,
    iterations: u64,
    block: BlockInfo,
    params: Params,
    sum_share: u128,
) -> WorkerInfoView {
    let w1 = WorkerInfoView {
        last_heartbeat_at_block: block.block_number,
        last_heartbeat_for_block: challenge_block,
        waiting_heartbeats: w.waiting_heartbeats.drop_first(),
        ..w
    };
    if in_session(w, session_id) {
        let t = spec_measured(w.tokenomic, challenge_time, iterations, block);
        let paid = if w.unresponsive || t.spec_no_payout(sum_share, block.block_number) {
            t
        } else {
            t.spec_paid(params, sum_share, block.now_ms, block.block_number)
        };
        WorkerInfoView { heartbeat_flag: true, tokenomic: paid, ..w1 }
    } else {
        w1
    }
}

/// The settlement a heartbeat reports: one for a responsive worker in
/// session whose payout is not zero.
pub open spec fn spec_heartbeat_settle(
    w: WorkerInfoView,
    session_id: u32,
    challenge_time: u64,
    iterations: u64,
    block: BlockInfo,
    params: Params,
    sum_share: u128,
) -> Option<SettleInfo> {
    let t = spec_measured(w.tokenomic, challenge_time, iterations, block);
    let payout = t.spec_payout(params, sum_share, block.block_number);
    if in_session(w, session_id) && !w.unresponsive && !t.spec_no_payout(sum_share, block.block_number)
        && payout != 0 {
        Some(
            SettleInfo {
                pubkey: w.state.pubkey,
                v: t.spec_paid(params, sum_share, block.now_ms, block.block_number).v.bits,
                payout,
                treasury: t.spec_treasury(params, sum_share, block.block_number),
            },
        )
    } else {
        None
    }
}

/// Processing of one block's messages.
pub struct GKMessageProcesser {
    pub block: BlockInfo,
    pub report: MiningInfoUpdateEvent,
    /// Sum of the shares of the responsive workers at the start of the block.
    pub sum_share: FixedPoint,
}

impl GKMessageProcesser {
    /// The processor is the same in `self` and `other` but for the
    /// settlements of the report.
    pub open spec fn same_but_settle(&self, other: &GKMessageProcesser) -> bool {
        &&& self.block == other.block
        &&& self.sum_share == other.sum_share
        &&& self.report.block_number == other.report.block_number
        &&& self.report.timestamp_ms == other.report.timestamp_ms
        &&& self.report.offline@ == other.report.offline@
        &&& self.report.recovered_to_online@ == other.report.recovered_to_online@
    }

    /// A heartbeat from a worker. It must answer the oldest challenge the
    /// worker has pending; otherwise the state is poisoned.
    pub fn process_mining_report(
        &mut self,
        state: &mut Gatekeeper,
        origin: &MessageOrigin,
        event: &MiningReportEvent,
    ) -> (r: Result<(), GatekeeperError>)
        requires
            old(state).wf(),
        ensures
            final(state).wf(),
            final(state).same_but_workers(old(state)),
            final(self).same_but_settle(old(self)),
            old(self).report.settle@.is_prefix_of(final(self).report.settle@),
            match (*origin, *event) {
                (
                    MessageOrigin::Worker(pk),
                    MiningReportEvent::Heartbeat { session_id, challenge_block, challenge_time, iterations },
                ) => {
                    &&& forall|i: int|
                        0 <= i < old(state).workers@.len() && #[trigger] old(state).workers_view()[i].state.pubkey@
                            == pk@ ==> {
                            let w = old(state).workers_view()[i];
                            if w.waiting_heartbeats.len() > 0 && w.waiting_heartbeats[0] == challenge_block {
                                &&& r is Ok
                                &&& final(state).workers_view() == old(state).workers_view().update(
                                    i,
                                    spec_heartbeat_worker(
                                        w,
                                        session_id,
                                        challenge_block,
                                        challenge_time,
                                        iterations,
                                        old(self).block,
                                        old(state).tokenomic_params,
                                        old(self).sum_share.bits,
                                    ),
                                )
                                &&& final(self).report.settle@ == old(self).report.settle@ + opt_seq(
                                    spec_heartbeat_settle(
                                        w,
                                        session_id,
                                        challenge_time,
                                        iterations,
                                        old(self).block,
                                        old(state).tokenomic_params,
                                        old(self).sum_share.bits,
                                    ),
                                )
                            } else {
                                r == Err::<(), GatekeeperError>(GatekeeperError::UnexpectedHeartbeat)
                            }
                        }
                    &&& !has_key(old(state).workers_view(), pk@) ==> {
                        &&& r is Ok
                        &&& final(state).workers_view() == old(state).workers_view()
                        &&& final(self).report.settle@ == old(self).report.settle@
                    }
                },
                _ => {
                    &&& r is Ok
                    &&& final(state).workers_view() == old(state).workers_view()
                    &&& final(self).report.settle@ == old(self).report.settle@
                },
            },
    {
        assert(self.report.settle@ =~= self.report.settle@.subrange(0, self.report.settle@.len() as int));
        let pubkey = match origin {
            MessageOrigin::Worker(pubkey) => pubkey,
            _ => {
                return Ok(());
            },
        };
        let MiningReportEvent::Heartbeat { session_id, challenge_block, challenge_time, iterations } =
            *event;
        let idx = match state.find_worker(pubkey) {
            Some(idx) => idx,
            None => {
                return Ok(());
            },
        };
        let ghost ws = state.workers_view();
        proof {
            assert forall|i: int|
                0 <= i < ws.len() && #[trigger] ws[i].state.pubkey@ == pubkey@ implies i == idx by {
                if i < idx {
                    lemma_bytes_lt_asymmetric(ws[i].state.pubkey@, ws[idx as int].state.pubkey@);
                } else if i > idx {
                    lemma_bytes_lt_asymmetric(ws[idx as int].state.pubkey@, ws[i].state.pubkey@);
                }
            }
        }
        let params = state.tokenomic_params;
        let block = self.block;
        let sum_share = self.sum_share;
        let mut w = state.workers[idx].clone_info();
        w.last_heartbeat_at_block = block.block_number;
        w.last_heartbeat_for_block = challenge_block;

        let matches_front = w.waiting_heartbeats.len() > 0 && w.waiting_heartbeats[0] == challenge_block;
        if !matches_front {
            return Err(GatekeeperError::UnexpectedHeartbeat);
        }
        // The oldest challenge is answered.
        let _ = w.waiting_heartbeats.pop_front();

        let in_session = match w.state.mining_state {
            Some(m) => m.session_id == session_id,
            None => false,
        };
        if in_session {
            w.heartbeat_flag = true;
            w.tokenomic.update_p_instant(block.now_ms, iterations);
            w.tokenomic.challenge_time_last = challenge_time;
            w.tokenomic.iteration_last = iterations;
            if !w.unresponsive {
                let (payout, treasury) = w.tokenomic.update_v_heartbeat(
                    &params,
                    sum_share,
                    block.now_ms,
                    block.block_number,
                );
                if !payout.is_zero() {
                    // Settlements keep the order in which they occur.
                    self.report.settle.push(
                        SettleInfo {
                            pubkey: w.state.pubkey,
                            v: w.tokenomic.v.to_bits(),
                            payout: payout.to_bits(),
                            treasury: treasury.to_bits(),
                        },
                    );
                }
            }
        }
        state.workers.set(idx, w);
        assert(old(self).report.settle@ =~= self.report.settle@.subrange(
            0,
            old(self).report.settle@.len() as int,
        ));
        assert(state.workers_view() =~= ws.update(idx as int, w@));
        assert(self.report.settle@ =~= old(self).report.settle@ + opt_seq(
            spec_heartbeat_settle(
                ws[idx as int],
                session_id,
                challenge_time,
                iterations,
                block,
                params,
                sum_share.bits,
            ),
        ));
        Ok(())
    }
}

/// The tokenomic record of a fresh mining session: only the confidence
/// level carries over.
pub open spec fn spec_mining_start_tokenomic(prev: TokenomicInfo, init_v: u128, init_p: u32, block: BlockInfo) -> TokenomicInfo {
    TokenomicInfo {
        v: FixedPoint { bits: init_v },
        v_init: FixedPoint { bits: init_v },
        payable: FixedPoint { bits: 0 },
        v_update_at: block.now_ms,
        v_update_block: block.block_number,
        iteration_last: 0,
        challenge_time_last: block.now_ms,
        p_bench: FixedPoint { bits: (init_p * ONE_BITS) as u128 },
        p_instant: FixedPoint { bits: (init_p * ONE_BITS) as u128 },
        confidence_level: prev.confidence_level,
        ..spec_default_tokenomic()
    }
}

/// A worker after its sub-state machine replays a system event; a
/// challenge it must answer joins its pending ones.
pub open spec fn spec_replay(w: WorkerInfoView, block: BlockInfo, event: SystemEvent) -> WorkerInfoView {
    WorkerInfoView {
        state: w.state.spec_process_event(block, event),
        waiting_heartbeats: match w.state.spec_challenge(block, event) {
            Some(b) => w.waiting_heartbeats.push(b),
            None => w.waiting_heartbeats,
        },
        ..w
    }
}

/// What the gatekeeper itself does on the worker's own events: record the
/// confidence level, or start the tokenomics of a new session.
pub open spec fn spec_own_event(w: WorkerInfoView, block: BlockInfo, event: SystemEvent) -> WorkerInfoView {
    match event {
        SystemEvent::WorkerEvent(e) => if e.pubkey@ == w.state.pubkey@ {
            match e.event {
                WorkerEvent::Registered(info) => WorkerInfoView {
                    tokenomic: TokenomicInfo { confidence_level: info.confidence_level, ..w.tokenomic },
                    ..w
                },
                WorkerEvent::MiningStart { session_id: _, init_v, init_p } => WorkerInfoView {
                    unresponsive: false,
                    tokenomic: spec_mining_start_tokenomic(w.tokenomic, init_v, init_p, block),
                    ..w
                },
                _ => w,
            }
        } else {
            w
        },
        SystemEvent::HeartbeatChallenge(_) => w,
    }
}

pub open spec fn spec_system_worker(w: WorkerInfoView, block: BlockInfo, event: SystemEvent) -> WorkerInfoView {
    spec_own_event(spec_replay(w, block, event), block, event)
}

/// The workers once a system event is known: a registration adds the
/// worker first.
pub open spec fn spec_system_base(ws: Seq<WorkerInfoView>, event: SystemEvent) -> Seq<WorkerInfoView> {
    match event {
        SystemEvent::WorkerEvent(e) => match e.event {
            WorkerEvent::Registered(_) => spec_ensure_worker(ws, e.pubkey),
            _ => ws,
        },
        SystemEvent::HeartbeatChallenge(_) => ws,
    }
}

/// The settlement a system event reports: the last V of a known worker
/// that stops mining, with nothing paid.
pub open spec fn spec_stop_settle(ws: Seq<WorkerInfoView>, event: SystemEvent) -> Seq<SettleInfo> {
    match event {
        SystemEvent::WorkerEvent(e) => if e.event is MiningStop && has_key(ws, e.pubkey@) {
            let w = ws[key_index(ws, e.pubkey@)];
            seq![SettleInfo { pubkey: w.state.pubkey, v: w.tokenomic.v.bits, payout: 0, treasury: 0 }]
        } else {
            Seq::empty()
        },
        SystemEvent::HeartbeatChallenge(_) => Seq::empty(),
    }
}

impl GKMessageProcesser {
    /// An event from a pallet: replayed on every worker's sub-state machine,
    /// then applied to the worker it names.
    pub fn process_system_event(&mut self, state: &mut Gatekeeper, origin: &MessageOrigin, event: &SystemEvent)
        requires
            old(state).wf(),
        ensures
            final(state).wf(),
            final(state).same_but_workers(old(state)),
            final(self).same_but_settle(old(self)),
            old(self).report.settle@.is_prefix_of(final(self).report.settle@),
            !(origin is Pallet) ==> {
                &&& final(state).workers_view() == old(state).workers_view()
                &&& final(self).report.settle@ == old(self).report.settle@
            },
            origin is Pallet ==> {
                let base = spec_system_base(old(state).workers_view(), *event);
                &&& final(state).workers_view().len() == base.len()
                &&& forall|j: int|
                    0 <= j < base.len() ==> #[trigger] final(state).workers_view()[j] == spec_system_worker(
                        base[j],
                        old(self).block,
                        *event,
                    )
                &&& final(self).report.settle@ == old(self).report.settle@ + spec_stop_settle(base, *event)
            },
    {
        if !origin.is_pallet() {
            return;
        }
        // A worker's entry is created on its first registration.
        if let SystemEvent::WorkerEvent(WorkerEventWithKey { pubkey, event: WorkerEvent::Registered(_) }) =
            event {
            state.ensure_worker(pubkey);
        }
        let ghost base = state.workers_view();
        assert(base == spec_system_base(old(state).workers_view(), *event));
        let block = self.block;

        let mut i: usize = 0;
        while i < state.workers.len()
            invariant
                0 <= i <= state.workers@.len(),
                state.workers@.len() == base.len(),
                state.same_but_workers(old(state)),
                keys_sorted(base),
                forall|j: int| 0 <= j < i ==> #[trigger] state.workers_view()[j] == spec_replay(base[j], block, *event),
                forall|j: int| i <= j < base.len() ==> #[trigger] state.workers_view()[j] == base[j],
            decreases base.len() - i,
        {
            let ghost before = state.workers_view();
            assert(before[i as int] == state.workers@[i as int]@);
            let mut w = state.workers[i].clone_info();
            w.state.process_event(&block, event, &mut w.waiting_heartbeats);
            state.workers.set(i, w);
            assert(state.workers_view() =~= before.update(i as int, w@));
            i = i + 1;
        }
        let ghost replayed = state.workers_view();
        assert(keys_sorted(replayed)) by {
            assert forall|a: int, b: int| 0 <= a < b < replayed.len() implies bytes_lt(
                #[trigger] replayed[a].state.pubkey@,
                #[trigger] replayed[b].state.pubkey@,
            ) by {
                assert(replayed[a].state.pubkey == base[a].state.pubkey);
                assert(replayed[b].state.pubkey == base[b].state.pubkey);
            }
        }

        if let SystemEvent::WorkerEvent(e) = event {
            if let Some(idx) = state.find_worker(&e.pubkey) {
                proof {
                    assert forall|j: int|
                        0 <= j < replayed.len() && j != idx implies #[trigger] replayed[j].state.pubkey@
                        != e.pubkey@ by {
                        if j < idx {
                            lemma_bytes_lt_asymmetric(replayed[j].state.pubkey@, replayed[idx as int].state.pubkey@);
                        } else {
                            lemma_bytes_lt_asymmetric(replayed[idx as int].state.pubkey@, replayed[j].state.pubkey@);
                        }
                    }
                }
                let mut w = state.workers[idx].clone_info();
                match e.event {
                    WorkerEvent::Registered(info) => {
                        w.tokenomic.confidence_level = info.confidence_level;
                    },
                    WorkerEvent::MiningStart { session_id: _, init_v, init_p } => {
                        // Pending challenges stay: they are tracked across sessions.
                        let v = FixedPoint::from_bits(init_v);
                        let p = FixedPoint::from_int(init_p as u64);
                        let prev = w.tokenomic;
                        w.unresponsive = false;
                        w.tokenomic =
                            TokenomicInfo {
                                v,
                                v_init: v,
                                payable: FixedPoint::zero(),
                                v_update_at: block.now_ms,
                                v_update_block: block.block_number,
                                iteration_last: 0,
                                challenge_time_last: block.now_ms,
                                p_bench: p,
                                p_instant: p,
                                confidence_level: prev.confidence_level,
                                last_payout: FixedPoint::zero(),
                                last_payout_at_block: 0,
                                total_payout: FixedPoint::zero(),
                                total_payout_count: 0,
                                last_slash: FixedPoint::zero(),
                                last_slash_at_block: 0,
                                total_slash: FixedPoint::zero(),
                                total_slash_count: 0,
                            };
                    },
                    WorkerEvent::MiningStop => {
                        // The final V is reported as it stands, with nothing paid.
                        self.report.settle.push(
                            SettleInfo {
                                pubkey: w.state.pubkey,
                                v: w.tokenomic.v.to_bits(),
                                payout: 0,
                                treasury: 0,
                            },
                        );
                        proof {
                            assert(old(self).report.settle@ =~= self.report.settle@.subrange(
                                0,
                                old(self).report.settle@.len() as int,
                            ));
                            assert(base[idx as int].state.pubkey@ == e.pubkey@);
                            assert(has_key(base, e.pubkey@));
                            let k = key_index(base, e.pubkey@);
                            assert(replayed[k].state.pubkey == base[k].state.pubkey);
                            assert(k == idx);
                            assert(self.report.settle@ =~= old(self).report.settle@ + spec_stop_settle(
                                base,
                                *event,
                            ));
                        }
                    },
                    _ => {},
                }
                state.workers.set(idx, w);
                assert(state.workers_view() =~= replayed.update(idx as int, w@));
                proof {
                    if !(e.event is MiningStop) {
                        assert(self.report.settle@ =~= old(self).report.settle@ + spec_stop_settle(
                            base,
                            *event,
                        ));
                    }
                }
            } else {
                proof {
                    assert forall|j: int| 0 <= j < base.len() implies #[trigger] base[j].state.pubkey@ != e.pubkey@ by {
                        assert(replayed[j].state.pubkey == base[j].state.pubkey);
                        if base[j].state.pubkey@ == e.pubkey@ {
                            assert(has_key(replayed, e.pubkey@));
                        }
                    }
                    assert(!has_key(base, e.pubkey@));
                    assert(self.report.settle@ =~= old(self).report.settle@ + spec_stop_settle(base, *event));
                }
            }
        }
        proof {
            if let SystemEvent::HeartbeatChallenge(_) = event {
                assert(self.report.settle@ =~= old(self).report.settle@ + spec_stop_settle(base, *event));
            }
            assert forall|j: int| 0 <= j < base.len() implies #[trigger] state.workers_view()[j] == spec_system_worker(
                base[j],
                block,
                *event,
            ) by {
                assert(replayed[j] == spec_replay(base[j], block, *event));
            }
        }
    }
}

/// A responsive worker whose oldest challenge is more than the heartbeat
/// window old.
pub open spec fn heartbeat_timed_out(w: WorkerInfoView, block: BlockInfo, params: Params) -> bool {
    &&& w.waiting_heartbeats.len() > 0
    &&& block.block_number > w.waiting_heartbeats[0]
    &&& block.block_number - w.waiting_heartbeats[0] > params.heartbeat_window
}

/// A mining worker that goes offline at the end of this block.
pub open spec fn goes_offline(w: WorkerInfoView, block: BlockInfo, params: Params) -> bool {
    w.state.mining_state is Some && !w.unresponsive && heartbeat_timed_out(w, block, params)
}

/// A mining worker that is back online at the end of this block.
pub open spec fn recovers(w: WorkerInfoView) -> bool {
    w.state.mining_state is Some && w.unresponsive && w.heartbeat_flag
}

/// A worker at the end of a block: its sub-state machine advances; if it
/// mines, its liveness is settled, then it is slashed while unresponsive
/// or accrues V while idle.
pub open spec fn spec_post_worker(w: WorkerInfoView, block: BlockInfo, params: Params) -> WorkerInfoView {
    let w0 = WorkerInfoView { state: w.state.spec_on_block_processed(block), ..w };
    if w0.state.mining_state is None {
        w0
    } else {
        let w1 = if recovers(w0) {
            WorkerInfoView {
                unresponsive: false,
                last_gk_responsive_event: RESPONSIVE_EVENT_EXIT,
                last_gk_responsive_event_at_block: block.block_number,
                ..w0
            }
        } else if goes_offline(w0, block, params) {
            WorkerInfoView {
                unresponsive: true,
                last_gk_responsive_event: RESPONSIVE_EVENT_ENTER,
                last_gk_responsive_event_at_block: block.block_number,
                ..w0
            }
        } else {
            w0
        };
        if w1.unresponsive {
            WorkerInfoView { tokenomic: w1.tokenomic.spec_update_v_slash(params, block.block_number), ..w1 }
        } else if !w1.heartbeat_flag {
            WorkerInfoView { tokenomic: w1.tokenomic.spec_update_v_idle(params), ..w1 }
        } else {
            w1
        }
    }
}

/// Keys of the workers that go offline, in worker order.
pub open spec fn offline_keys(ws: Seq<WorkerInfoView>, block: BlockInfo, params: Params) -> Seq<WorkerPublicKey>
    decreases ws.len(),
{
    if ws.len() == 0 {
        Seq::empty()
    } else {
        let rest = offline_keys(ws.drop_last(), block, params);
        if goes_offline(ws.last(), block, params) {
            rest.push(ws.last().state.pubkey)
        } else {
            rest
        }
    }
}

/// Keys of the workers that are back online, in worker order.
pub open spec fn recovered_keys(ws: Seq<WorkerInfoView>) -> Seq<WorkerPublicKey>
    decreases ws.len(),
{
    if ws.len() == 0 {
        Seq::empty()
    } else {
        let rest = recovered_keys(ws.drop_last());
        if recovers(ws.last()) {
            rest.push(ws.last().state.pubkey)
        } else {
            rest
        }
    }
}

/// Saturating sum of the shares of the responsive workers.
pub open spec fn total_share(ws: Seq<WorkerInfoView>) -> u128
    decreases ws.len(),
{
    if ws.len() == 0 {
        0
    } else {
        let rest = total_share(ws.drop_last());
        if ws.last().unresponsive {
            rest
        } else {
            spec_add(rest, ws.last().tokenomic.spec_share())
        }
    }
}

/// Saturating sum of the shares of the responsive workers.
pub fn sum_share(state: &Gatekeeper) -> (r: FixedPoint)
    ensures
        r.bits == total_share(state.workers_view()),
{
    let ghost ws = state.workers_view();
    let mut sum = FixedPoint::zero();
    let mut i: usize = 0;
    while i < state.workers.len()
        invariant
            0 <= i <= ws.len(),
            ws == state.workers_view(),
            sum.bits == total_share(ws.subrange(0, i as int)),
        decreases ws.len() - i,
    {
        assert(ws.subrange(0, i + 1 as int).drop_last() =~= ws.subrange(0, i as int));
        assert(ws[i as int] == state.workers@[i as int]@);
        if !state.workers[i].unresponsive {
            sum = sum.saturating_add(state.workers[i].tokenomic.share());
        }
        i = i + 1;
    }
    assert(ws.subrange(0, ws.len() as int) =~= ws);
    sum
}

impl GKMessageProcesser {
    /// Starts a block: no worker has sent a heartbeat in it yet.
    pub fn prepare(&mut self, state: &mut Gatekeeper)
        requires
            old(state).wf(),
        ensures
            final(state).wf(),
            final(state).same_but_workers(old(state)),
            *final(self) == *old(self),
            final(state).workers_view().len() == old(state).workers_view().len(),
            forall|j: int|
                0 <= j < old(state).workers_view().len() ==> #[trigger] final(state).workers_view()[j]
                    == (WorkerInfoView { heartbeat_flag: false, ..old(state).workers_view()[j] }),
    {
        let ghost ws = state.workers_view();
        let mut i: usize = 0;
        while i < state.workers.len()
            invariant
                0 <= i <= ws.len(),
                state.workers@.len() == ws.len(),
                state.same_but_workers(old(state)),
                forall|j: int|
                    0 <= j < i ==> #[trigger] state.workers_view()[j] == (WorkerInfoView {
                        heartbeat_flag: false,
                        ..ws[j]
                    }),
                forall|j: int| i <= j < ws.len() ==> #[trigger] state.workers_view()[j] == ws[j],
            decreases ws.len() - i,
        {
            let ghost before = state.workers_view();
            assert(before[i as int] == state.workers@[i as int]@);
            let mut w = state.workers[i].clone_info();
            w.heartbeat_flag = false;
            state.workers.set(i, w);
            assert(state.workers_view() =~= before.update(i as int, w@));
            i = i + 1;
        }
        proof {
            let fs = state.workers_view();
            assert forall|a: int, b: int| 0 <= a < b < fs.len() implies bytes_lt(
                #[trigger] fs[a].state.pubkey@,
                #[trigger] fs[b].state.pubkey@,
            ) by {
                assert(fs[a].state.pubkey == ws[a].state.pubkey);
                assert(fs[b].state.pubkey == ws[b].state.pubkey);
            }
        }
    }

    /// An event for the gatekeeper role: a beacon value to check against the
    /// local derivation, or new tokenomic parameters from a pallet.
    pub fn process_gatekeeper_event(
        &mut self,
        state: &mut Gatekeeper,
        origin: &MessageOrigin,
        event: &GatekeeperEvent,
    ) -> (r: Result<(), GatekeeperError>)
        ensures
            *final(self) == *old(self),
            final(state).workers == old(state).workers,
            match *event {
                GatekeeperEvent::NewRandomNumber(e) => {
                    &&& *final(state) == *old(state)
                    &&& r == if origin is Gatekeeper && spec_next_random_number(
                        old(state).master_key.random_secret@,
                        e.block_number,
                        e.last_random_number@,
                    ) != e.random_number@ {
                        Err::<(), GatekeeperError>(GatekeeperError::RandomNumberMismatch)
                    } else {
                        Ok(())
                    }
                },
                GatekeeperEvent::TokenomicParametersChanged(p) => {
                    &&& r is Ok
                    &&& final(state).tokenomic_params == if origin is Pallet {
                        Params::spec_from(p)
                    } else {
                        old(state).tokenomic_params
                    }
                    &&& *final(state) == (Gatekeeper {
                        tokenomic_params: final(state).tokenomic_params,
                        ..*old(state)
                    })
                },
            },
    {
        match event {
            GatekeeperEvent::NewRandomNumber(e) => self.process_random_number_event(state, origin, e),
            GatekeeperEvent::TokenomicParametersChanged(params) => {
                if origin.is_pallet() {
                    state.tokenomic_params = Params::from(*params);
                }
                Ok(())
            },
        }
    }

    /// Checks a beacon value against the local derivation.
    pub fn process_random_number_event(
        &mut self,
        state: &mut Gatekeeper,
        origin: &MessageOrigin,
        event: &RandomNumberEvent,
    ) -> (r: Result<(), GatekeeperError>)
        ensures
            *final(self) == *old(self),
            *final(state) == *old(state),
            r == if origin is Gatekeeper && spec_next_random_number(
                old(state).master_key.random_secret@,
                event.block_number,
                event.last_random_number@,
            ) != event.random_number@ {
                Err::<(), GatekeeperError>(GatekeeperError::RandomNumberMismatch)
            } else {
                Ok(())
            },
    {
        if !origin.is_gatekeeper() {
            return Ok(());
        }
        let expect_random = next_random_number(
            &state.master_key,
            event.block_number,
            event.last_random_number,
        );
        if !key_eq(&expect_random, &event.random_number) {
            return Err(GatekeeperError::RandomNumberMismatch);
        }
        Ok(())
    }

    /// Ends a block, worker by worker in key order: detects workers that
    /// go offline or come back, then slashes or accrues.
    pub fn block_post_process(&mut self, state: &mut Gatekeeper)
        requires
            old(state).wf(),
        ensures
            final(state).wf(),
            final(state).same_but_workers(old(state)),
            final(state).workers_view().len() == old(state).workers_view().len(),
            forall|j: int|
                0 <= j < old(state).workers_view().len() ==> #[trigger] final(state).workers_view()[j]
                    == spec_post_worker(old(state).workers_view()[j], old(self).block, old(state).tokenomic_params),
            final(self).block == old(self).block,
            final(self).sum_share == old(self).sum_share,
            final(self).report.block_number == old(self).report.block_number,
            final(self).report.timestamp_ms == old(self).report.timestamp_ms,
            final(self).report.settle@ == old(self).report.settle@,
            final(self).report.offline@ == old(self).report.offline@ + offline_keys(
                old(state).workers_view(),
                old(self).block,
                old(state).tokenomic_params,
            ),
            final(self).report.recovered_to_online@ == old(self).report.recovered_to_online@
                + recovered_keys(old(state).workers_view()),
    {
        let ghost ws = state.workers_view();
        let params = state.tokenomic_params;
        let block = self.block;
        let mut i: usize = 0;
        while i < state.workers.len()
            invariant
                0 <= i <= ws.len(),
                state.workers@.len() == ws.len(),
                state.same_but_workers(old(state)),
                params == old(state).tokenomic_params,
                block == old(self).block,
                self.block == old(self).block,
                self.sum_share == old(self).sum_share,
                self.report.block_number == old(self).report.block_number,
                self.report.timestamp_ms == old(self).report.timestamp_ms,
                self.report.settle@ == old(self).report.settle@,
                self.report.offline@ == old(self).report.offline@ + offline_keys(ws.subrange(0, i as int), block, params),
                self.report.recovered_to_online@ == old(self).report.recovered_to_online@
                    + recovered_keys(ws.subrange(0, i as int)),
                forall|j: int| 0 <= j < i ==> #[trigger] state.workers_view()[j] == spec_post_worker(ws[j], block, params),
                forall|j: int| i <= j < ws.len() ==> #[trigger] state.workers_view()[j] == ws[j],
            decreases ws.len() - i,
        {
            let ghost before = state.workers_view();
            assert(before[i as int] == state.workers@[i as int]@);
            assert(ws.subrange(0, i + 1 as int).drop_last() =~= ws.subrange(0, i as int));
            assert(ws.subrange(0, i + 1 as int).last() == ws[i as int]);
            let mut w = state.workers[i].clone_info();
            w.state.on_block_processed(&block);
            if w.state.mining_state.is_some() {
                if w.unresponsive {
                    if w.heartbeat_flag {
                        w.unresponsive = false;
                        self.report.recovered_to_online.push(w.state.pubkey);
                        w.last_gk_responsive_event = RESPONSIVE_EVENT_EXIT;
                        w.last_gk_responsive_event_at_block = block.block_number;
                    }
                } else if w.waiting_heartbeats.len() > 0 {
                    let hb_sent_at = w.waiting_heartbeats[0];
                    if block.block_number > hb_sent_at && block.block_number - hb_sent_at
                        > params.heartbeat_window {
                        self.report.offline.push(w.state.pubkey);
                        w.unresponsive = true;
                        w.last_gk_responsive_event = RESPONSIVE_EVENT_ENTER;
                        w.last_gk_responsive_event_at_block = block.block_number;
                    }
                }
                if w.unresponsive {
                    w.tokenomic.update_v_slash(&params, block.block_number);
                } else if !w.heartbeat_flag {
                    w.tokenomic.update_v_idle(&params);
                }
            }
            assert(w@ == spec_post_worker(ws[i as int], block, params));
            state.workers.set(i, w);
            assert(state.workers_view() =~= before.update(i as int, w@));
            i = i + 1;
        }
        assert(ws.subrange(0, ws.len() as int) =~= ws);
        proof {
            let fs = state.workers_view();
            assert forall|a: int, b: int| 0 <= a < b < fs.len() implies bytes_lt(
                #[trigger] fs[a].state.pubkey@,
                #[trigger] fs[b].state.pubkey@,
            ) by {
                assert(fs[a].state.pubkey == ws[a].state.pubkey);
                assert(fs[b].state.pubkey == ws[b].state.pubkey);
            }
        }
    }
}

proof fn lemma_prefix_transitive<T>(a: Seq<T>, b: Seq<T>, c: Seq<T>)
    requires
        a.is_prefix_of(b),
        b.is_prefix_of(c),
    ensures
        a.is_prefix_of(c),
{
    assert(a =~= c.subrange(0, a.len() as int)) by {
        assert forall|i: int| 0 <= i < a.len() implies a[i] == c.subrange(0, a.len() as int)[i] by {
            assert(a[i] == b.subrange(0, a.len() as int)[i]);
            assert(b[i] == c.subrange(0, b.len() as int)[i]);
        }
    }
}

/// The workers at the start of a block: no heartbeat yet.
pub open spec fn spec_prepared(ws: Seq<WorkerInfoView>) -> Seq<WorkerInfoView> {
    Seq::new(ws.len(), |j: int| WorkerInfoView { heartbeat_flag: false, ..ws[j] })
}

/// The workers at the end of a block.
pub open spec fn spec_post_all(ws: Seq<WorkerInfoView>, block: BlockInfo, params: Params) -> Seq<WorkerInfoView> {
    Seq::new(ws.len(), |j: int| spec_post_worker(ws[j], block, params))
}

/// Workers and settlements after one mining report; `None` when the
/// report poisons the state.
pub open spec fn spec_mining_step(
    ws: Seq<WorkerInfoView>,
    settle: Seq<SettleInfo>,
    msg: (MessageOrigin, MiningReportEvent),
    block: BlockInfo,
    params: Params,
    sum_share: u128,
) -> Option<(Seq<WorkerInfoView>, Seq<SettleInfo>)> {
    match (msg.0, msg.1) {
        (
            MessageOrigin::Worker(pk),
            MiningReportEvent::Heartbeat { session_id, challenge_block, challenge_time, iterations },
        ) => if has_key(ws, pk@) {
            let i = key_index(ws, pk@);
            let w = ws[i];
            if w.waiting_heartbeats.len() > 0 && w.waiting_heartbeats[0] == challenge_block {
                Some(
                    (
                        ws.update(
                            i,
                            spec_heartbeat_worker(
                                w,
                                session_id,
                                challenge_block,
                                challenge_time,
                                iterations,
                                block,
                                params,
                                sum_share,
                            ),
                        ),
                        settle + opt_seq(
                            spec_heartbeat_settle(w, session_id, challenge_time, iterations, block, params, sum_share),
                        ),
                    ),
                )
            } else {
                None
            }
        } else {
            Some((ws, settle))
        },
        _ => Some((ws, settle)),
    }
}

/// Mining reports, in order.
pub open spec fn spec_mining_phase(
    ws: Seq<WorkerInfoView>,
    settle: Seq<SettleInfo>,
    msgs: Seq<(MessageOrigin, MiningReportEvent)>,
    block: BlockInfo,
    params: Params,
    sum_share: u128,
) -> Option<(Seq<WorkerInfoView>, Seq<SettleInfo>)>
    decreases msgs.len(),
{
    if msgs.len() == 0 {
        Some((ws, settle))
    } else {
        match spec_mining_step(ws, settle, msgs[0], block, params, sum_share) {
            Some(next) => spec_mining_phase(next.0, next.1, msgs.drop_first(), block, params, sum_share),
            None => None,
        }
    }
}

/// Workers and settlements after one system event.
pub open spec fn spec_system_step(
    ws: Seq<WorkerInfoView>,
    settle: Seq<SettleInfo>,
    msg: (MessageOrigin, SystemEvent),
    block: BlockInfo,
) -> (Seq<WorkerInfoView>, Seq<SettleInfo>) {
    if msg.0 is Pallet {
        let base = spec_system_base(ws, msg.1);
        (
            Seq::new(base.len(), |j: int| spec_system_worker(base[j], block, msg.1)),
            settle + spec_stop_settle(base, msg.1),
        )
    } else {
        (ws, settle)
    }
}

/// System events, in order.
pub open spec fn spec_system_phase(
    ws: Seq<WorkerInfoView>,
    settle: Seq<SettleInfo>,
    msgs: Seq<(MessageOrigin, SystemEvent)>,
    block: BlockInfo,
) -> (Seq<WorkerInfoView>, Seq<SettleInfo>)
    decreases msgs.len(),
{
    if msgs.len() == 0 {
        (ws, settle)
    } else {
        let next = spec_system_step(ws, settle, msgs[0], block);
        spec_system_phase(next.0, next.1, msgs.drop_first(), block)
    }
}

/// Parameters after one gatekeeper event; `None` when a beacon value from
/// the gatekeeper differs from the local derivation.
pub open spec fn spec_gatekeeper_step(
    params: Params,
    random_secret: Seq<u8>,
    msg: (MessageOrigin, GatekeeperEvent),
) -> Option<Params> {
    match msg.1 {
        GatekeeperEvent::NewRandomNumber(e) => if msg.0 is Gatekeeper && spec_next_random_number(
            random_secret,
            e.block_number,
            e.last_random_number@,
        ) != e.random_number@ {
            None
        } else {
            Some(params)
        },
        GatekeeperEvent::TokenomicParametersChanged(p) => Some(
            if msg.0 is Pallet {
                Params::spec_from(p)
            } else {
                params
            },
        ),
    }
}

/// Gatekeeper events, in order.
pub open spec fn spec_gatekeeper_phase(
    params: Params,
    random_secret: Seq<u8>,
    msgs: Seq<(MessageOrigin, GatekeeperEvent)>,
) -> Option<Params>
    decreases msgs.len(),
{
    if msgs.len() == 0 {
        Some(params)
    } else {
        match spec_gatekeeper_step(params, random_secret, msgs[0]) {
            Some(next) => spec_gatekeeper_phase(next, random_secret, msgs.drop_first()),
            None => None,
        }
    }
}

/// What one block does: the workers, parameters and report lists at its
/// end, or `None` when a message poisons the state.
pub struct BlockOutcome {
    pub workers: Seq<WorkerInfoView>,
    pub params: Params,
    pub offline: Seq<WorkerPublicKey>,
    pub recovered_to_online: Seq<WorkerPublicKey>,
    pub settle: Seq<SettleInfo>,
}

pub open spec fn spec_drain(
    ws: Seq<WorkerInfoView>,
    settle: Seq<SettleInfo>,
    mining: Seq<(MessageOrigin, MiningReportEvent)>,
    system: Seq<(MessageOrigin, SystemEvent)>,
    gatekeeper: Seq<(MessageOrigin, GatekeeperEvent)>,
    block: BlockInfo,
    params: Params,
    random_secret: Seq<u8>,
    sum_share: u128,
) -> Option<BlockOutcome> {
    let mined = spec_mining_phase(spec_prepared(ws), settle, mining, block, params, sum_share);
    let new_params = spec_gatekeeper_phase(params, random_secret, gatekeeper);
    if mined is Some && new_params is Some {
        let sys = spec_system_phase(mined.unwrap().0, mined.unwrap().1, system, block);
        let p = new_params.unwrap();
        Some(
            BlockOutcome {
                workers: spec_post_all(sys.0, block, p),
                params: p,
                offline: offline_keys(sys.0, block, p),
                recovered_to_online: recovered_keys(sys.0),
                settle: sys.1,
            },
        )
    } else {
        None
    }
}

/// The outcome of processing `block` on a gatekeeper.
pub open spec fn spec_block_outcome(gk: Gatekeeper, block: BlockInfo) -> Option<BlockOutcome> {
    spec_drain(
        gk.workers_view(),
        Seq::empty(),
        gk.mining_events@,
        gk.system_events@,
        gk.gatekeeper_events@,
        block,
        gk.tokenomic_params,
        gk.master_key.random_secret@,
        total_share(gk.workers_view()),
    )
}

impl GKMessageProcesser {
    /// Drains the inboxes, mining reports first, then system events, then
    /// gatekeeper events, each in arrival order; then ends the block.
    pub fn process(&mut self, state: &mut Gatekeeper) -> (r: Result<(), GatekeeperError>)
        requires
            old(state).wf(),
        ensures
            final(state).wf(),
            final(state).master_key == old(state).master_key,
            final(state).master_pubkey_on_chain == old(state).master_pubkey_on_chain,
            final(state).registered_on_chain == old(state).registered_on_chain,
            final(state).egress == old(state).egress,
            final(state).last_random_number == old(state).last_random_number,
            final(state).iv_seq == old(state).iv_seq,
            final(self).block == old(self).block,
            final(self).report.block_number == old(self).report.block_number,
            final(self).report.timestamp_ms == old(self).report.timestamp_ms,
            old(self).report.settle@.is_prefix_of(final(self).report.settle@),
            ({
                let out = spec_drain(
                    old(state).workers_view(),
                    old(self).report.settle@,
                    old(state).mining_events@,
                    old(state).system_events@,
                    old(state).gatekeeper_events@,
                    old(self).block,
                    old(state).tokenomic_params,
                    old(state).master_key.random_secret@,
                    old(self).sum_share.bits,
                );
                &&& (r is Ok <==> out is Some)
                &&& r is Ok ==> {
                    &&& final(state).mining_events@.len() == 0
                    &&& final(state).system_events@.len() == 0
                    &&& final(state).gatekeeper_events@.len() == 0
                    &&& final(state).workers_view() == out.unwrap().workers
                    &&& final(state).tokenomic_params == out.unwrap().params
                    &&& final(self).report.settle@ == out.unwrap().settle
                    &&& final(self).report.offline@ == old(self).report.offline@ + out.unwrap().offline
                    &&& final(self).report.recovered_to_online@ == old(self).report.recovered_to_online@
                        + out.unwrap().recovered_to_online
                }
            }),
    {
        let ghost params0 = old(state).tokenomic_params;
        let ghost secret = old(state).master_key.random_secret@;
        let ghost block = old(self).block;
        let ghost sum = old(self).sum_share.bits;
        let ghost system0 = old(state).system_events@;
        let ghost gk0 = old(state).gatekeeper_events@;
        let ghost settle0 = old(self).report.settle@;
        self.prepare(state);
        assert(state.workers_view() =~= spec_prepared(old(state).workers_view()));
        let ghost mined = spec_mining_phase(
            state.workers_view(),
            settle0,
            state.mining_events@,
            block,
            params0,
            sum,
        );
        let mut poisoned = false;
        while !poisoned && state.mining_events.len() > 0
            invariant
                poisoned ==> mined is None,
                block == old(self).block,
                params0 == old(state).tokenomic_params,
                sum == old(self).sum_share.bits,
                state.wf(),
                state.master_key == old(state).master_key,
                state.master_pubkey_on_chain == old(state).master_pubkey_on_chain,
                state.registered_on_chain == old(state).registered_on_chain,
                state.egress == old(state).egress,
                state.last_random_number == old(state).last_random_number,
                state.iv_seq == old(state).iv_seq,
                state.tokenomic_params == params0,
                state.system_events@ == system0,
                state.gatekeeper_events@ == gk0,
                self.block == block,
                self.sum_share.bits == sum,
                self.report.block_number == old(self).report.block_number,
                self.report.timestamp_ms == old(self).report.timestamp_ms,
                self.report.offline@ == old(self).report.offline@,
                self.report.recovered_to_online@ == old(self).report.recovered_to_online@,
                old(self).report.settle@.is_prefix_of(self.report.settle@),
                !poisoned ==> mined == spec_mining_phase(
                    state.workers_view(),
                    self.report.settle@,
                    state.mining_events@,
                    block,
                    params0,
                    sum,
                ),
            decreases state.mining_events@.len(),
        {
            let ghost ws = state.workers_view();
            let ghost settle = self.report.settle@;
            let ghost msgs = state.mining_events@;
            let (origin, event) = state.mining_events.remove(0);
            assert(msgs.drop_first() =~= state.mining_events@);
            let res = self.process_mining_report(state, &origin, &event);
            proof {
                lemma_prefix_transitive(old(self).report.settle@, settle, self.report.settle@);
                if let MessageOrigin::Worker(pk) = origin {
                    if has_key(ws, pk@) {
                        lemma_key_index(ws, pk@);
                    }
                }
                let step = spec_mining_step(ws, settle, msgs[0], block, params0, sum);
                if res.is_ok() {
                    assert(step == Some((state.workers_view(), self.report.settle@)));
                } else {
                    assert(step is None);
                }
            }
            if res.is_err() {
                poisoned = true;
            }
        }
        if poisoned {
            return Err(GatekeeperError::UnexpectedHeartbeat);
        }
        let ghost mined_ws = state.workers_view();
        let ghost mined_settle = self.report.settle@;
        assert(mined == Some((mined_ws, mined_settle)));
        let ghost sys = spec_system_phase(mined_ws, mined_settle, system0, block);
        while state.system_events.len() > 0
            invariant
                state.wf(),
                block == old(self).block,
                params0 == old(state).tokenomic_params,
                state.mining_events@.len() == 0,
                state.master_key == old(state).master_key,
                state.master_pubkey_on_chain == old(state).master_pubkey_on_chain,
                state.registered_on_chain == old(state).registered_on_chain,
                state.egress == old(state).egress,
                state.last_random_number == old(state).last_random_number,
                state.iv_seq == old(state).iv_seq,
                state.tokenomic_params == params0,
                state.gatekeeper_events@ == gk0,
                self.block == block,
                self.sum_share.bits == sum,
                self.report.block_number == old(self).report.block_number,
                self.report.timestamp_ms == old(self).report.timestamp_ms,
                self.report.offline@ == old(self).report.offline@,
                self.report.recovered_to_online@ == old(self).report.recovered_to_online@,
                old(self).report.settle@.is_prefix_of(self.report.settle@),
                sys == spec_system_phase(state.workers_view(), self.report.settle@, state.system_events@, block),
            decreases state.system_events@.len(),
        {
            let ghost ws = state.workers_view();
            let ghost settle = self.report.settle@;
            let ghost msgs = state.system_events@;
            let (origin, event) = state.system_events.remove(0);
            assert(msgs.drop_first() =~= state.system_events@);
            self.process_system_event(state, &origin, &event);
            proof {
                lemma_prefix_transitive(old(self).report.settle@, settle, self.report.settle@);
                if origin is Pallet {
                    let base = spec_system_base(ws, event);
                    assert(state.workers_view() =~= Seq::new(
                        base.len(),
                        |j: int| spec_system_worker(base[j], block, event),
                    ));
                }
                assert(spec_system_step(ws, settle, msgs[0], block) == (
                    state.workers_view(),
                    self.report.settle@,
                ));
            }
        }
        assert(sys == (state.workers_view(), self.report.settle@));
        let ghost new_params = spec_gatekeeper_phase(params0, secret, gk0);
        while !poisoned && state.gatekeeper_events.len() > 0
            invariant
                poisoned ==> new_params is None,
                block == old(self).block,
                secret == old(state).master_key.random_secret@,
                state.wf(),
                state.mining_events@.len() == 0,
                state.system_events@.len() == 0,
                state.workers_view() == sys.0,
                state.master_key == old(state).master_key,
                state.master_pubkey_on_chain == old(state).master_pubkey_on_chain,
                state.registered_on_chain == old(state).registered_on_chain,
                state.egress == old(state).egress,
                state.last_random_number == old(state).last_random_number,
                state.iv_seq == old(state).iv_seq,
                self.block == block,
                self.report.block_number == old(self).report.block_number,
                self.report.timestamp_ms == old(self).report.timestamp_ms,
                self.report.offline@ == old(self).report.offline@,
                self.report.recovered_to_online@ == old(self).report.recovered_to_online@,
                self.report.settle@ == sys.1,
                old(self).report.settle@.is_prefix_of(self.report.settle@),
                !poisoned ==> new_params == spec_gatekeeper_phase(
                    state.tokenomic_params,
                    secret,
                    state.gatekeeper_events@,
                ),
            decreases state.gatekeeper_events@.len(),
        {
            let ghost msgs = state.gatekeeper_events@;
            let ghost p = state.tokenomic_params;
            let (origin, event) = state.gatekeeper_events.remove(0);
            assert(msgs.drop_first() =~= state.gatekeeper_events@);
            assert(msgs[0].1 == event);
            assert(msgs[0].0 == origin);
            let res = self.process_gatekeeper_event(state, &origin, &event);
            proof {
                let step = spec_gatekeeper_step(p, secret, msgs[0]);
                match event {
                    GatekeeperEvent::NewRandomNumber(e) => {
                        assert(state.master_key.random_secret@ == secret);
                    },
                    GatekeeperEvent::TokenomicParametersChanged(q) => {
                        assert(res is Ok);
                    },
                }
                if res.is_ok() {
                    assert(step == Some(state.tokenomic_params));
                } else {
                    assert(step is None);
                }
            }
            if res.is_err() {
                poisoned = true;
            }
        }
        if poisoned {
            return Err(GatekeeperError::RandomNumberMismatch);
        }
        assert(new_params == Some(state.tokenomic_params));
        let ghost pre_post = state.workers_view();
        self.block_post_process(state);
        assert(state.workers_view() =~= spec_post_all(pre_post, block, new_params.unwrap()));
        Ok(())
    }
}

pub open spec fn strictly_ascending(s: Seq<u32>) -> bool {
    forall|i: int, j: int| 0 <= i < j < s.len() ==> s[i] < s[j]
}

pub open spec fn all_before(s: Seq<u32>, b: u32) -> bool {
    forall|i: int| 0 <= i < s.len() ==> s[i] < b
}

pub open spec fn all_at_most(s: Seq<u32>, b: u32) -> bool {
    forall|i: int| 0 <= i < s.len() ==> s[i] <= b
}

/// Pending challenges stay in strictly ascending order: a system event of
/// a later block adds at most its own block at the end, a heartbeat removes
/// the oldest, and the end of a block leaves them as they are.
pub proof fn lemma_heartbeat_order(
    w: WorkerInfoView,
    block: BlockInfo,
    event: SystemEvent,
    session_id: u32,
    challenge_time: u64,
    iterations: u64,
    params: Params,
    sum_share: u128,
)
    requires
        strictly_ascending(w.waiting_heartbeats),
    ensures
        all_before(w.waiting_heartbeats, block.block_number) ==> {
            let r = spec_system_worker(w, block, event).waiting_heartbeats;
            strictly_ascending(r) && all_at_most(r, block.block_number)
        },
        w.waiting_heartbeats.len() > 0 ==> strictly_ascending(
            spec_heartbeat_worker(
                w,
                session_id,
                w.waiting_heartbeats[0],
                challenge_time,
                iterations,
                block,
                params,
                sum_share,
            ).waiting_heartbeats,
        ),
        spec_post_worker(w, block, params).waiting_heartbeats == w.waiting_heartbeats,
{
    if w.waiting_heartbeats.len() > 0 {
        let d = w.waiting_heartbeats.drop_first();
        assert forall|i: int, j: int| 0 <= i < j < d.len() implies d[i] < d[j] by {
            assert(d[i] == w.waiting_heartbeats[i + 1]);
            assert(d[j] == w.waiting_heartbeats[j + 1]);
        }
    }
}

/// A heartbeat of another session than the current one answers the
/// challenge and changes no tokenomic state, nor settles anything.
pub proof fn lemma_session_isolation(
    w: WorkerInfoView,
    session_id: u32,
    challenge_block: u32,
    challenge_time: u64,
    iterations: u64,
    block: BlockInfo,
    params: Params,
    sum_share: u128,
)
    requires
        !in_session(w, session_id),
    ensures
        spec_heartbeat_worker(
            w,
            session_id,
            challenge_block,
            challenge_time,
            iterations,
            block,
            params,
            sum_share,
        ).tokenomic == w.tokenomic,
        spec_heartbeat_settle(w, session_id, challenge_time, iterations, block, params, sum_share) is None,
{
}

/// After `MiningStart { init_v, init_p }` of a worker: V and its initial
/// value are `init_v` as raw bits, nothing is payable, every payout and
/// slash counter is zero, and the confidence level and pending challenges
/// are kept.
pub proof fn lemma_mining_start_reset(
    w: WorkerInfoView,
    block: BlockInfo,
    session_id: u32,
    init_v: u128,
    init_p: u32,
)
    ensures
        ({
            let event = SystemEvent::WorkerEvent(
                WorkerEventWithKey {
                    pubkey: w.state.pubkey,
                    event: WorkerEvent::MiningStart { session_id, init_v, init_p },
                },
            );
            let r = spec_system_worker(w, block, event);
            &&& r.tokenomic.v.bits == init_v
            &&& r.tokenomic.v_init.bits == init_v
            &&& r.tokenomic.payable.bits == 0
            &&& r.tokenomic.last_payout.bits == 0
            &&& r.tokenomic.total_payout.bits == 0
            &&& r.tokenomic.total_payout_count == 0
            &&& r.tokenomic.last_slash.bits == 0
            &&& r.tokenomic.total_slash.bits == 0
            &&& r.tokenomic.total_slash_count == 0
            &&& r.tokenomic.confidence_level == w.tokenomic.confidence_level
            &&& r.waiting_heartbeats == w.waiting_heartbeats
            &&& !r.unresponsive
        }),
{
}

/// A worker whose V is within `v_max` stays within it through a block's
/// heartbeat and its end.
pub proof fn lemma_worker_v_bound(
    w: WorkerInfoView,
    session_id: u32,
    challenge_block: u32,
    challenge_time: u64,
    iterations: u64,
    block: BlockInfo,
    params: Params,
    sum_share: u128,
)
    requires
        w.tokenomic.v.bits <= params.v_max.bits,
    ensures
        spec_post_worker(w, block, params).tokenomic.v.bits <= params.v_max.bits,
        spec_heartbeat_worker(
            w,
            session_id,
            challenge_block,
            challenge_time,
            iterations,
            block,
            params,
            sum_share,
        ).tokenomic.v.bits <= params.v_max.bits,
{
    let t = spec_measured(w.tokenomic, challenge_time, iterations, block);
    assert(t.v == w.tokenomic.v);
    crate::tokenomic::lemma_v_bound(t, params, sum_share, block.now_ms, block.block_number);
    crate::tokenomic::lemma_v_bound(w.tokenomic, params, sum_share, block.now_ms, block.block_number);
}

} // verus!
