//! Query-only snapshots of a worker for the RPC front-end.

use crate::fixed_point::decimal_of;
use crate::tokenomic;
use vstd::prelude::*;

verus! {

#[derive(Clone, Copy, Debug, PartialEq, Eq, Structural)]
pub struct BenchState {
    pub start_block: u32,
    pub start_time: u64,
    pub duration: u32,
}

#[derive(Clone, Copy, Debug, PartialEq, Eq, Structural)]
pub struct MiningState {
    pub session_id: u32,
    pub paused: bool,
    pub start_time: u64,
}

/// A tokenomic record with its fixed-point values in decimal text.
#[derive(Clone, Debug, PartialEq, Eq)]
pub struct TokenomicInfo {
    pub v: String,
    pub v_init: String,
    pub payable: String,
    pub v_update_at: u64,
    pub v_update_block: u32,
    pub iteration_last: u64,
    pub challenge_time_last: u64,
    pub p_bench: String,
    pub p_instant: String,
    pub confidence_level: u32,
    pub last_payout: String,
    pub last_payout_at_block: u32,
    pub last_slash: String,
    pub last_slash_at_block: u32,
    pub total_payout: String,
    pub total_payout_count: u32,
    pub total_slash: String,
    pub total_slash_count: u32,
}

impl TokenomicInfo {
    /// The snapshot of a tokenomic record.
    pub open spec fn is_snapshot_of(&self, info: tokenomic::TokenomicInfo) -> bool {
        &&& self.v@ == decimal_of(info.v.bits)
        &&& self.v_init@ == decimal_of(info.v_init.bits)
        &&& self.payable@ == decimal_of(info.payable.bits)
        &&& self.v_update_at == info.v_update_at
        &&& self.v_update_block == info.v_update_block
        &&& self.iteration_last == info.iteration_last
        &&& self.challenge_time_last == info.challenge_time_last
        &&& self.p_bench@ == decimal_of(info.p_bench.bits)
        &&& self.p_instant@ == decimal_of(info.p_instant.bits)
        &&& self.confidence_level == info.confidence_level as u32
        &&& self.last_payout@ == decimal_of(info.last_payout.bits)
        &&& self.last_payout_at_block == info.last_payout_at_block
        &&& self.last_slash@ == decimal_of(info.last_slash.bits)
        &&& self.last_slash_at_block == info.last_slash_at_block
        &&& self.total_payout@ == decimal_of(info.total_payout.bits)
        &&& self.total_payout_count == info.total_payout_count
        &&& self.total_slash@ == decimal_of(info.total_slash.bits)
        &&& self.total_slash_count == info.total_slash_count
    }

    pub fn from(info: tokenomic::TokenomicInfo) -> (r: TokenomicInfo)
        ensures
            r.is_snapshot_of(info),
    {
        TokenomicInfo {
            v: info.v.to_decimal_string(),
            v_init: info.v_init.to_decimal_string(),
            payable: info.payable.to_decimal_string(),
            v_update_at: info.v_update_at,
            v_update_block: info.v_update_block,
            iteration_last: info.iteration_last,
            challenge_time_last: info.challenge_time_last,
            p_bench: info.p_bench.to_decimal_string(),
            p_instant: info.p_instant.to_decimal_string(),
            confidence_level: info.confidence_level as u32,
            last_payout: info.last_payout.to_decimal_string(),
            last_payout_at_block: info.last_payout_at_block,
            last_slash: info.last_slash.to_decimal_string(),
            last_slash_at_block: info.last_slash_at_block,
            total_payout: info.total_payout.to_decimal_string(),
            total_payout_count: info.total_payout_count,
            total_slash: info.total_slash.to_decimal_string(),
            total_slash_count: info.total_slash_count,
        }
    }
}

/// Snapshot of everything the gatekeeper tracks of one worker.
#[derive(Clone, Debug, PartialEq, Eq)]
pub struct WorkerState {
    pub registered: bool,
    pub unresponsive: bool,
    pub bench_state: Option<BenchState>,
    pub mining_state: Option<MiningState>,
    pub waiting_heartbeats: Vec<u32>,
    pub last_heartbeat_for_block: u32,
    pub last_heartbeat_at_block: u32,
    pub last_gk_responsive_event: i32,
    pub last_gk_responsive_event_at_block: u32,
    /// Present while the worker mines.
    pub tokenomic_info: Option<TokenomicInfo>,
}

} // verus!
