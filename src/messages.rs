//! Messages that come into and go out of the gatekeeper.

use crate::tokenomic::TokenomicParameters;
use vstd::prelude::*;

verus! {

/// A worker's 32-byte public key.
pub type WorkerPublicKey = [u8; 32];

/// A 32-byte ECDH public key.
pub type EcdhPublicKey = [u8; 32];

/// A 32-byte random number of the beacon.
pub type RandomNumber = [u8; 32];

/// A 96-bit AEAD initialisation vector.
pub type Iv = [u8; 12];

/// Who sent a message.
#[derive(Clone, Debug, PartialEq, Eq)]
pub enum MessageOrigin {
    /// A pallet of the chain, by its name.
    Pallet(Vec<u8>),
    /// A worker, by its public key.
    Worker(WorkerPublicKey),
    /// The gatekeeper role.
    Gatekeeper,
}

impl MessageOrigin {
    pub fn is_pallet(&self) -> (r: bool)
        ensures
            r == (self is Pallet),
    {
        match self {
            MessageOrigin::Pallet(_) => true,
            _ => false,
        }
    }

    pub fn is_gatekeeper(&self) -> (r: bool)
        ensures
            r == (self is Gatekeeper),
    {
        match self {
            MessageOrigin::Gatekeeper => true,
            _ => false,
        }
    }
}

/// Information a worker registers with.
#[derive(Clone, Copy, Debug, PartialEq, Eq, Structural)]
pub struct WorkerRegistration {
    pub confidence_level: u8,
}

/// What the chain says about one worker.
#[derive(Clone, Copy, Debug, PartialEq, Eq, Structural)]
pub enum WorkerEvent {
    Registered(WorkerRegistration),
    BenchStart { duration: u32 },
    BenchScore(u32),
    /// `init_v` is a raw 64.64 pattern; `init_p` an integer performance.
    MiningStart { session_id: u32, init_v: u128, init_p: u32 },
    MiningStop,
    MiningEnterUnresponsive,
    MiningExitUnresponsive,
}

#[derive(Clone, Copy, Debug, PartialEq, Eq)]
pub struct WorkerEventWithKey {
    pub pubkey: WorkerPublicKey,
    pub event: WorkerEvent,
}

/// A heartbeat challenge. A worker is selected when the digest of its key,
/// exclusive-or the seed, is at most the target. Both are 256-bit numbers
/// written as 32 big-endian bytes.
#[derive(Clone, Copy, Debug, PartialEq, Eq)]
pub struct HeartbeatChallenge {
    pub seed: [u8; 32],
    pub online_target: [u8; 32],
}

#[derive(Clone, Copy, Debug, PartialEq, Eq)]
pub enum SystemEvent {
    WorkerEvent(WorkerEventWithKey),
    HeartbeatChallenge(HeartbeatChallenge),
}

impl SystemEvent {
    pub fn new_worker_event(pubkey: WorkerPublicKey, event: WorkerEvent) -> (r: SystemEvent)
        ensures
            r == SystemEvent::WorkerEvent(WorkerEventWithKey { pubkey, event }),
    {
        SystemEvent::WorkerEvent(WorkerEventWithKey { pubkey, event })
    }
}

/// What a worker reports.
#[derive(Clone, Copy, Debug, PartialEq, Eq, Structural)]
pub enum MiningReportEvent {
    Heartbeat { session_id: u32, challenge_block: u32, challenge_time: u64, iterations: u64 },
}

#[derive(Clone, Copy, Debug, PartialEq, Eq)]
pub struct RandomNumberEvent {
    pub block_number: u32,
    pub random_number: RandomNumber,
    pub last_random_number: RandomNumber,
}

#[derive(Clone, Copy, Debug, PartialEq, Eq)]
pub enum GatekeeperEvent {
    NewRandomNumber(RandomNumberEvent),
    TokenomicParametersChanged(TokenomicParameters),
}

impl GatekeeperEvent {
    pub fn new_random_number(
        block_number: u32,
        random_number: RandomNumber,
        last_random_number: RandomNumber,
    ) -> (r: GatekeeperEvent)
        ensures
            r == GatekeeperEvent::NewRandomNumber(
                RandomNumberEvent { block_number, random_number, last_random_number },
            ),
    {
        GatekeeperEvent::NewRandomNumber(
            RandomNumberEvent { block_number, random_number, last_random_number },
        )
    }
}

/// The settlement of one worker: raw 64.64 patterns.
#[derive(Clone, Copy, Debug, PartialEq, Eq)]
pub struct SettleInfo {
    pub pubkey: WorkerPublicKey,
    pub v: u128,
    pub payout: u128,
    pub treasury: u128,
}

/// The aggregate report of one block.
#[derive(Clone, Debug, PartialEq, Eq)]
pub struct MiningInfoUpdateEvent {
    pub block_number: u32,
    pub timestamp_ms: u64,
    pub offline: Vec<WorkerPublicKey>,
    pub recovered_to_online: Vec<WorkerPublicKey>,
    pub settle: Vec<SettleInfo>,
}

impl MiningInfoUpdateEvent {
    pub open spec fn spec_is_empty(&self) -> bool {
        self.offline@.len() == 0 && self.recovered_to_online@.len() == 0 && self.settle@.len() == 0
    }

    pub fn new(block_number: u32, timestamp_ms: u64) -> (r: MiningInfoUpdateEvent)
        ensures
            r.block_number == block_number,
            r.timestamp_ms == timestamp_ms,
            r.offline@ == Seq::<WorkerPublicKey>::empty(),
            r.recovered_to_online@ == Seq::<WorkerPublicKey>::empty(),
            r.settle@ == Seq::<SettleInfo>::empty(),
    {
        MiningInfoUpdateEvent {
            block_number,
            timestamp_ms,
            offline: Vec::new(),
            recovered_to_online: Vec::new(),
            settle: Vec::new(),
        }
    }

    pub fn is_empty(&self) -> (r: bool)
        ensures
            r == self.spec_is_empty(),
    {
        self.offline.len() == 0 && self.recovered_to_online.len() == 0 && self.settle.len() == 0
    }
}

/// The master key, sealed for one worker.
#[derive(Clone, Debug, PartialEq, Eq)]
pub enum KeyDistribution {
    MasterKeyDistribution {
        target: WorkerPublicKey,
        ecdh_pubkey: EcdhPublicKey,
        encrypted_master_key: Vec<u8>,
        iv: Iv,
    },
}

/// A message the gatekeeper sends out.
#[derive(Clone, Debug, PartialEq, Eq)]
pub enum EgressMessage {
    MiningInfoUpdate(MiningInfoUpdateEvent),
    Gatekeeper(GatekeeperEvent),
    KeyDistribution(KeyDistribution),
}

/// A message that comes in, by the inbox it belongs to.
#[derive(Clone, Debug, PartialEq, Eq)]
pub enum IncomingMessage {
    MiningReport(MiningReportEvent),
    System(SystemEvent),
    Gatekeeper(GatekeeperEvent),
}

/// The block being processed.
#[derive(Clone, Copy, Debug, PartialEq, Eq, Structural)]
pub struct BlockInfo {
    pub block_number: u32,
    pub now_ms: u64,
}

} // verus!
