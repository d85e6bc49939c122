//! The sub-state machine of one worker, as the chain's events drive it.

use crate::hashing::{blake2_256, blake2_256_of, bytes_le, bytes_xor, key_cmp, key_eq, xor_32};
use crate::messages::{BlockInfo, HeartbeatChallenge, SystemEvent, WorkerEvent, WorkerPublicKey};
use std::collections::VecDeque;
use vstd::prelude::*;

verus! {

#[derive(Clone, Copy, Debug, PartialEq, Eq, Structural)]
pub struct BenchState {
    pub start_block: u32,
    pub start_time: u64,
    pub duration: u32,
}

#[derive(Clone, Copy, Debug, PartialEq, Eq, Structural)]
pub enum MiningState {
    Mining,
    Paused,
}

#[derive(Clone, Copy, Debug, PartialEq, Eq, Structural)]
pub struct MiningInfo {
    pub session_id: u32,
    pub state: MiningState,
    pub start_time: u64,
}

/// Registration, benchmark and mining session of one worker.
#[derive(Clone, Copy, Debug, PartialEq, Eq)]
pub struct WorkerState {
    pub pubkey: WorkerPublicKey,
    pub registered: bool,
    pub bench_state: Option<BenchState>,
    pub mining_state: Option<MiningInfo>,
}

/// Whether a worker whose key has this digest, in this mining state,
/// answers the challenge.
pub open spec fn challenge_hit(hashed_id: Seq<u8>, mining_state: Option<MiningInfo>, c: HeartbeatChallenge) -> bool {
    &&& mining_state is Some
    &&& mining_state.unwrap().state is Mining
    &&& bytes_le(bytes_xor(hashed_id, c.seed@), c.online_target@)
}

/// Whether a worker whose key has digest `hashed_id` is selected by a
/// challenge: the digest, exclusive-or the seed, is at most the target, as
/// big-endian 256-bit numbers.
pub fn challenge_selects(hashed_id: &[u8; 32], challenge: &HeartbeatChallenge) -> (r: bool)
    ensures
        r == bytes_le(bytes_xor(hashed_id@, challenge.seed@), challenge.online_target@),
{
    let x = xor_32(hashed_id, &challenge.seed);
    key_cmp(&x, &challenge.online_target) <= 0
}

impl WorkerState {
    /// The state after one of the worker's own events.
    pub open spec fn spec_apply(self, block: BlockInfo, event: WorkerEvent) -> WorkerState {
        match event {
            WorkerEvent::Registered(_) => WorkerState { registered: true, ..self },
            WorkerEvent::BenchStart { duration } => WorkerState {
                bench_state: Some(
                    BenchState { start_block: block.block_number, start_time: block.now_ms, duration },
                ),
                ..self
            },
            WorkerEvent::BenchScore(_) => self,
            WorkerEvent::MiningStart { session_id, init_v: _, init_p: _ } => WorkerState {
                mining_state: Some(
                    MiningInfo { session_id, state: MiningState::Mining, start_time: block.now_ms },
                ),
                ..self
            },
            WorkerEvent::MiningStop => WorkerState { mining_state: None, ..self },
            WorkerEvent::MiningEnterUnresponsive => match self.mining_state {
                Some(info) => if info.state is Mining {
                    WorkerState { mining_state: Some(MiningInfo { state: MiningState::Paused, ..info }), ..self }
                } else {
                    self
                },
                None => self,
            },
            WorkerEvent::MiningExitUnresponsive => match self.mining_state {
                Some(info) => if info.state is Paused {
                    WorkerState { mining_state: Some(MiningInfo { state: MiningState::Mining, ..info }), ..self }
                } else {
                    self
                },
                None => self,
            },
        }
    }

    /// The state after a system event: only the worker's own events change it.
    pub open spec fn spec_process_event(self, block: BlockInfo, event: SystemEvent) -> WorkerState {
        match event {
            SystemEvent::WorkerEvent(e) => if e.pubkey@ == self.pubkey@ {
                self.spec_apply(block, e.event)
            } else {
                self
            },
            SystemEvent::HeartbeatChallenge(_) => self,
        }
    }

    /// The block of a heartbeat the worker owes after a system event, if any.
    pub open spec fn spec_challenge(self, block: BlockInfo, event: SystemEvent) -> Option<u32> {
        match event {
            SystemEvent::HeartbeatChallenge(c) => if challenge_hit(blake2_256_of(self.pubkey@), self.mining_state, c) {
                Some(block.block_number)
            } else {
                None
            },
            SystemEvent::WorkerEvent(_) => None,
        }
    }

    /// The state at the end of a block: a benchmark whose duration has
    /// passed is over.
    pub open spec fn spec_on_block_processed(self, block: BlockInfo) -> WorkerState {
        match self.bench_state {
            Some(b) => if block.block_number >= b.start_block && block.block_number - b.start_block
                >= b.duration {
                WorkerState { bench_state: None, ..self }
            } else {
                self
            },
            None => self,
        }
    }

    pub fn new(pubkey: WorkerPublicKey) -> (r: WorkerState)
        ensures
            r.pubkey == pubkey,
            !r.registered,
            r.bench_state is None,
            r.mining_state is None,
    {
        WorkerState { pubkey, registered: false, bench_state: None, mining_state: None }
    }

    fn apply(&mut self, block: &BlockInfo, event: &WorkerEvent)
        ensures
            *final(self) == old(self).spec_apply(*block, *event),
    {
        match event {
            WorkerEvent::Registered(_) => {
                self.registered = true;
            },
            WorkerEvent::BenchStart { duration } => {
                self.bench_state = Some(
                    BenchState {
                        start_block: block.block_number,
                        start_time: block.now_ms,
                        duration: *duration,
                    },
                );
            },
            WorkerEvent::BenchScore(_) => {},
            WorkerEvent::MiningStart { session_id, init_v: _, init_p: _ } => {
                self.mining_state = Some(
                    MiningInfo {
                        session_id: *session_id,
                        state: MiningState::Mining,
                        start_time: block.now_ms,
                    },
                );
            },
            WorkerEvent::MiningStop => {
                self.mining_state = None;
            },
            WorkerEvent::MiningEnterUnresponsive => {
                if let Some(info) = self.mining_state {
                    if let MiningState::Mining = info.state {
                        self.mining_state = Some(MiningInfo { state: MiningState::Paused, ..info });
                    }
                }
            },
            WorkerEvent::MiningExitUnresponsive => {
                if let Some(info) = self.mining_state {
                    if let MiningState::Paused = info.state {
                        self.mining_state = Some(MiningInfo { state: MiningState::Mining, ..info });
                    }
                }
            },
        }
    }

    /// Whether the worker answers a heartbeat challenge: it is mining and
    /// its digest, exclusive-or the seed, is at most the target.
    pub fn is_challenged(&self, challenge: &HeartbeatChallenge) -> (r: bool)
        ensures
            r == challenge_hit(blake2_256_of(self.pubkey@), self.mining_state, *challenge),
    {
        match self.mining_state {
            Some(info) => {
                if let MiningState::Paused = info.state {
                    return false;
                }
                let hashed_id = blake2_256(&self.pubkey);
                challenge_selects(&hashed_id, challenge)
            },
            None => false,
        }
    }

    /// Replays a system event on the worker; the block of a heartbeat it
    /// now owes is appended to `waiting_heartbeats`.
    pub fn process_event(
        &mut self,
        block: &BlockInfo,
        event: &SystemEvent,
        waiting_heartbeats: &mut VecDeque<u32>,
    )
        ensures
            *final(self) == old(self).spec_process_event(*block, *event),
            final(waiting_heartbeats)@ == match old(self).spec_challenge(*block, *event) {
                Some(b) => old(waiting_heartbeats)@.push(b),
                None => old(waiting_heartbeats)@,
            },
    {
        match event {
            SystemEvent::WorkerEvent(e) => {
                if key_eq(&e.pubkey, &self.pubkey) {
                    self.apply(block, &e.event);
                }
            },
            SystemEvent::HeartbeatChallenge(challenge) => {
                if self.is_challenged(challenge) {
                    waiting_heartbeats.push_back(block.block_number);
                }
            },
        }
    }

    /// Ends a benchmark whose duration has passed.
    pub fn on_block_processed(&mut self, block: &BlockInfo)
        ensures
            *final(self) == old(self).spec_on_block_processed(*block),
    {
        if let Some(b) = self.bench_state {
            if block.block_number >= b.start_block && block.block_number - b.start_block
                >= b.duration {
                self.bench_state = None;
            }
        }
    }
}

} // verus!
