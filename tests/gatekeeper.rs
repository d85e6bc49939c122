use std::str::FromStr;

use fixed::types::U64F64;
use gatekeeper::fixed_point::FixedPoint;
use gatekeeper::gk::{Gatekeeper, MasterKey};
use gatekeeper::worker_info::WorkerInfo;
use gatekeeper::hashing::blake2_256;
use gatekeeper::messages::{
    BlockInfo, EgressMessage, HeartbeatChallenge, IncomingMessage, MessageOrigin,
    MiningInfoUpdateEvent, MiningReportEvent, SystemEvent, WorkerEvent, WorkerPublicKey,
    WorkerRegistration,
};
use gatekeeper::tokenomic::TokenomicInfo;

fn fp(s: &str) -> FixedPoint {
    FixedPoint::from_bits(U64F64::from_str(s).unwrap().to_bits())
}

fn block_ts(block_number: u32) -> u64 {
    block_number as u64 * 12000
}

struct Roles {
    gk: Gatekeeper,
    workers: [WorkerPublicKey; 2],
}

impl Roles {
    fn test_roles() -> Roles {
        let key = MasterKey { random_secret: vec![1u8; 64], iv_secret: vec![2u8; 64] };
        let mut gk = Gatekeeper::new(key);
        gk.master_pubkey_uploaded();
        gk.register_on_chain();
        Roles { gk, workers: [[0x01u8; 32], [0x02u8; 32]] }
    }

    fn get_worker(&self, n: usize) -> &WorkerInfo {
        self.gk.worker_info(&self.workers[n]).unwrap()
    }

    fn pallet_say(&mut self, n: usize, event: WorkerEvent) {
        let sender = MessageOrigin::Pallet(b"Pallet".to_vec());
        let message = SystemEvent::new_worker_event(self.workers[n], event);
        self.gk.receive(sender, IncomingMessage::System(message));
    }

    fn challenge(&mut self, n: usize) {
        // The seed is the worker's own digest, so that only this worker answers.
        let sender = MessageOrigin::Pallet(b"Pallet".to_vec());
        let challenge =
            HeartbeatChallenge { seed: blake2_256(&self.workers[n]), online_target: [0u8; 32] };
        self.gk.receive(
            sender,
            IncomingMessage::System(SystemEvent::HeartbeatChallenge(challenge)),
        );
    }

    fn heartbeat(&mut self, n: usize, session_id: u32, block: u32, iterations: u64) {
        let message = MiningReportEvent::Heartbeat {
            session_id,
            challenge_block: block,
            challenge_time: block_ts(block),
            iterations,
        };
        self.gk.receive(
            MessageOrigin::Worker(self.workers[n]),
            IncomingMessage::MiningReport(message),
        );
    }

    fn with_block(&mut self, block_number: u32) {
        let block = BlockInfo { block_number, now_ms: block_ts(block_number) };
        self.gk.process_messages(&block).unwrap();
    }

    fn drain_mining_info_update_event(&mut self) -> Vec<MiningInfoUpdateEvent> {
        self.gk
            .egress
            .drain()
            .into_iter()
            .filter_map(|m| match m {
                EgressMessage::MiningInfoUpdate(e) => Some(e),
                _ => None,
            })
            .collect()
    }

    fn register_and_start(&mut self, init_v: u128, init_p: u32, bench: bool) -> u32 {
        self.pallet_say(0, WorkerEvent::Registered(WorkerRegistration { confidence_level: 2 }));
        self.with_block(1);
        if bench {
            self.pallet_say(0, WorkerEvent::BenchScore(3000));
        }
        self.pallet_say(0, WorkerEvent::MiningStart { session_id: 1, init_v, init_p });
        2
    }
}

#[test]
fn gk_should_be_able_to_observe_worker_states() {
    let mut r = Roles::test_roles();

    r.pallet_say(0, WorkerEvent::Registered(WorkerRegistration { confidence_level: 2 }));
    r.with_block(1);

    assert_eq!(r.gk.worker_count(), 1);
    assert!(r.get_worker(0).state.registered);

    r.pallet_say(1, WorkerEvent::MiningStart { session_id: 1, init_v: 1, init_p: 100 });
    r.with_block(2);

    assert_eq!(r.gk.worker_count(), 1, "Unregistered worker should not start mining.");
}

#[test]
fn gk_should_not_miss_any_heartbeats_cross_session() {
    let mut r = Roles::test_roles();

    r.pallet_say(0, WorkerEvent::Registered(WorkerRegistration { confidence_level: 2 }));
    r.with_block(1);

    assert_eq!(r.gk.worker_count(), 1);
    assert!(r.get_worker(0).state.registered);

    r.pallet_say(0, WorkerEvent::MiningStart { session_id: 1, init_v: 1, init_p: 100 });
    r.challenge(0);
    r.with_block(2);

    // Stop mining before the heartbeat response.
    r.pallet_say(0, WorkerEvent::MiningStop);
    r.with_block(3);

    r.with_block(4);

    r.pallet_say(0, WorkerEvent::MiningStart { session_id: 2, init_v: 1, init_p: 100 });
    r.challenge(0);
    r.with_block(5);

    // Force enter unresponsive
    r.with_block(100);

    assert_eq!(r.get_worker(0).waiting_heartbeats.len(), 2, "There should be 2 waiting HBs");
    assert!(r.get_worker(0).unresponsive, "The worker should be unresponsive now");

    // Response the first challenge.
    r.heartbeat(0, 1, 2, 10000000);
    r.with_block(101);
    assert_eq!(r.get_worker(0).waiting_heartbeats.len(), 1, "There should be only one waiting HBs");
    assert!(r.get_worker(0).unresponsive, "The worker should still be unresponsive now");

    // Response the second challenge.
    r.heartbeat(0, 2, 5, 10000000);
    r.with_block(102);
    assert!(!r.get_worker(0).unresponsive, "The worker should be mining idle now");
}

#[test]
fn gk_should_reward_normal_workers_do_not_hit_the_seed_case1() {
    let mut r = Roles::test_roles();
    let mut block_number = r.register_and_start(fp("1").to_bits(), 100, false);
    r.with_block(block_number);

    block_number += 1;

    // Normal Idle state, no event
    let v_snap = r.get_worker(0).tokenomic.v;
    r.gk.egress.clear();
    r.with_block(block_number);

    assert!(!r.get_worker(0).unresponsive, "Worker should be online");
    assert_eq!(r.drain_mining_info_update_event().len(), 0, "Should not report any event");
    assert!(v_snap < r.get_worker(0).tokenomic.v, "Worker should be rewarded");

    // Once again.
    let v_snap = r.get_worker(0).tokenomic.v;
    r.gk.egress.clear();
    r.with_block(block_number);

    assert!(!r.get_worker(0).unresponsive, "Worker should be online");
    assert_eq!(r.drain_mining_info_update_event().len(), 0, "Should not report any event");
    assert!(v_snap < r.get_worker(0).tokenomic.v, "Worker should be rewarded");
}

#[test]
fn gk_should_report_payout_for_normal_heartbeats_case2() {
    let mut r = Roles::test_roles();
    let mut block_number = r.register_and_start(fp("1").to_bits(), 100, false);
    r.challenge(0);
    r.with_block(block_number);
    let challenge_block = block_number;

    block_number += r.gk.tokenomic_params.heartbeat_window;

    // About to timeout then A heartbeat received, report payout event.
    let v_snap = r.get_worker(0).tokenomic.v;
    r.gk.egress.clear();
    r.heartbeat(0, 1, challenge_block, 10000000);
    r.with_block(block_number);

    assert!(!r.get_worker(0).unresponsive, "Worker should be online");
    assert!(v_snap > r.get_worker(0).tokenomic.v, "Worker should be paid out");

    let messages = r.drain_mining_info_update_event();
    assert_eq!(messages.len(), 1);
    assert_eq!(messages[0].offline.len(), 0);
    assert_eq!(messages[0].recovered_to_online.len(), 0);
    assert_eq!(messages[0].settle.len(), 1);
}

#[test]
fn gk_should_slash_and_report_offline_workers_case3() {
    let mut r = Roles::test_roles();
    let mut block_number = r.register_and_start(fp("1").to_bits(), 100, false);
    r.challenge(0);
    r.with_block(block_number);

    assert!(r.get_worker(0).state.mining_state.is_some());

    block_number += r.gk.tokenomic_params.heartbeat_window;
    // About to timeout
    r.with_block(block_number);
    assert!(!r.get_worker(0).unresponsive);

    let v_snap = r.get_worker(0).tokenomic.v;

    block_number += 1;
    // Heartbeat timed out
    r.with_block(block_number);

    assert!(r.get_worker(0).unresponsive);
    {
        let offline = [r.workers[0]].to_vec();
        let expected_message = MiningInfoUpdateEvent {
            block_number,
            timestamp_ms: block_ts(block_number),
            offline,
            recovered_to_online: Vec::new(),
            settle: Vec::new(),
        };
        let messages = r.drain_mining_info_update_event();
        assert_eq!(messages.len(), 1);
        assert_eq!(messages[0], expected_message);
    }
    assert!(v_snap > r.get_worker(0).tokenomic.v, "Worker should be slashed");

    r.gk.egress.clear();

    let v_snap = r.get_worker(0).tokenomic.v;
    block_number += 1;
    r.with_block(block_number);
    assert_eq!(r.drain_mining_info_update_event().len(), 0, "Should not report offline workers");
    assert!(v_snap > r.get_worker(0).tokenomic.v, "Worker should be slashed again");
}

#[test]
fn gk_should_slash_offline_workers_sliently_case4() {
    let mut r = Roles::test_roles();
    let mut block_number = r.register_and_start(fp("1").to_bits(), 100, false);
    r.challenge(0);
    r.with_block(block_number);

    block_number += r.gk.tokenomic_params.heartbeat_window;
    // About to timeout
    r.with_block(block_number);

    block_number += 1;
    // Heartbeat timed out
    r.with_block(block_number);

    r.gk.egress.clear();

    // Worker already offline, don't report again until one more heartbeat received.
    let v_snap = r.get_worker(0).tokenomic.v;
    block_number += 1;
    r.with_block(block_number);
    assert_eq!(r.drain_mining_info_update_event().len(), 0, "Should not report offline workers");
    assert!(v_snap > r.get_worker(0).tokenomic.v, "Worker should be slashed");

    let v_snap = r.get_worker(0).tokenomic.v;
    block_number += 1;
    r.with_block(block_number);
    assert_eq!(r.drain_mining_info_update_event().len(), 0, "Should not report offline workers");
    assert!(v_snap > r.get_worker(0).tokenomic.v, "Worker should be slashed again");
}

#[test]
fn gk_should_report_recovered_workers_case5() {
    let mut r = Roles::test_roles();
    let mut block_number = r.register_and_start(fp("1").to_bits(), 100, false);
    r.challenge(0);
    r.with_block(block_number);
    let challenge_block = block_number;

    block_number += r.gk.tokenomic_params.heartbeat_window;
    // About to timeout
    r.with_block(block_number);

    block_number += 1;
    // Heartbeat timed out
    r.with_block(block_number);

    r.gk.egress.clear();

    // Worker offline, report recover event on the next heartbeat received.
    let v_snap = r.get_worker(0).tokenomic.v;
    block_number += 1;
    r.heartbeat(0, 1, challenge_block, 10000000);
    r.with_block(block_number);
    assert_eq!(v_snap, r.get_worker(0).tokenomic.v, "Worker should not be slashed or rewarded");
    {
        let recovered_to_online = [r.workers[0]].to_vec();
        let expected_message = MiningInfoUpdateEvent {
            block_number,
            timestamp_ms: block_ts(block_number),
            offline: Vec::new(),
            recovered_to_online,
            settle: Vec::new(),
        };
        let messages = r.drain_mining_info_update_event();
        assert_eq!(messages.len(), 1, "Should report recover event");
        assert_eq!(messages[0], expected_message);
    }
}

#[test]
fn check_tokenomic_numerics() {
    let mut r = Roles::test_roles();
    let mut block_number = r.register_and_start(fp("3000").to_bits(), 100, true);
    r.with_block(block_number);
    assert!(r.get_worker(0).state.mining_state.is_some());
    assert_eq!(r.get_worker(0).tokenomic.p_bench, fp("100"));
    assert_eq!(r.get_worker(0).tokenomic.v, fp("3000.00203509369147797934"));

    // V increment for one day
    for _ in 0..3600 * 24 / 12 {
        block_number += 1;
        r.with_block(block_number);
    }
    assert_eq!(r.get_worker(0).tokenomic.v, fp("3014.6899337932040476463"));

    // Payout
    block_number += 1;
    r.challenge(0);
    r.with_block(block_number);
    // Check heartbeat updates
    assert_eq!(r.get_worker(0).tokenomic.challenge_time_last, 24000);
    assert_eq!(r.get_worker(0).tokenomic.iteration_last, 0);
    r.heartbeat(0, 1, block_number, (110 * 7200 * 12 / 6) as u64);
    block_number += 1;
    r.with_block(block_number);
    assert_eq!(r.get_worker(0).tokenomic.v, fp("3000"));
    assert_eq!(r.get_worker(0).tokenomic.p_instant, fp("109.96945292974173840575"));
    // Payout settlement has correct treasury split
    let report = r.drain_mining_info_update_event();
    assert_eq!(FixedPoint::from_bits(report[0].settle[0].payout), fp("14.69197867920878555043"));
    assert_eq!(FixedPoint::from_bits(report[0].settle[0].treasury), fp("3.6729946698021946595"));

    // Slash 0.1% (1hr + 10 blocks challenge window)
    let _ = r.drain_mining_info_update_event();
    r.challenge(0);
    for _ in 0..=3600 / 12 + 10 {
        block_number += 1;
        r.with_block(block_number);
    }
    assert!(r.get_worker(0).unresponsive);
    let report = r.drain_mining_info_update_event();
    assert_eq!(report[0].offline, vec![r.workers[0]]);
    assert_eq!(r.get_worker(0).tokenomic.v, fp("2997.0260877851113935014"));
}

#[test]
fn should_payout_at_v_max() {
    let mut r = Roles::test_roles();
    let mut block_number = r.register_and_start(fp("30000").to_bits(), 3000, true);
    r.with_block(block_number);
    // Mine for 24h
    for _ in 0..7200 {
        block_number += 1;
        r.with_block(block_number);
    }
    // Trigger payout
    block_number += 1;
    r.challenge(0);
    r.with_block(block_number);
    r.heartbeat(0, 1, block_number, 1000000 as u64);
    block_number += 1;
    r.with_block(block_number);
    // Check payout
    assert_eq!(r.get_worker(0).tokenomic.v, fp("29855.38985958385856094607"));
    assert_eq!(r.get_worker(0).tokenomic.payable, fp("0"));
    let report = r.drain_mining_info_update_event();
    assert_eq!(FixedPoint::from_bits(report[0].settle[0].payout), fp("144.61014041614143905393"));
}

#[test]
fn test_update_p_instant() {
    let mut info = TokenomicInfo { p_bench: fp("100"), ..Default::default() };

    // Normal
    info.update_p_instant(100_000, 1000);
    info.challenge_time_last = 90_000;
    info.iteration_last = 1000;
    assert_eq!(info.p_instant, fp("60"));

    // Reset
    info.update_p_instant(200_000, 999);
    assert_eq!(info.p_instant, fp("0"));
}
