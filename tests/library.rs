use std::str::FromStr;

use fixed::types::U64F64;
use gatekeeper::fixed_point::{FixedPoint, ONE_BITS};
use gatekeeper::beacon::next_random_number;
use gatekeeper::gk::{Gatekeeper, GatekeeperError, MasterKey};
use gatekeeper::hashing::{blake2_256, key_cmp, xor_32};
use gatekeeper::messages::{
    BlockInfo, EgressMessage, GatekeeperEvent, HeartbeatChallenge, IncomingMessage,
    KeyDistribution, MessageOrigin, MiningReportEvent, SystemEvent, WorkerEvent,
    WorkerRegistration,
};
use gatekeeper::worker::challenge_selects;
use gatekeeper::tokenomic::{
    conf_score, test_params, Params, TokenomicInfo, TokenomicParameters,
};

fn fp(s: &str) -> FixedPoint {
    FixedPoint::from_bits(U64F64::from_str(s).unwrap().to_bits())
}

fn ts(block_number: u32) -> u64 {
    block_number as u64 * 12000
}

fn master_key() -> MasterKey {
    MasterKey { random_secret: vec![1u8; 64], iv_secret: vec![2u8; 64] }
}

fn launched() -> Gatekeeper {
    let mut gk = Gatekeeper::new(master_key());
    gk.master_pubkey_uploaded();
    gk.register_on_chain();
    gk
}

fn pallet() -> MessageOrigin {
    MessageOrigin::Pallet(b"Pallet".to_vec())
}

fn say(gk: &mut Gatekeeper, pk: [u8; 32], event: WorkerEvent) {
    gk.receive(pallet(), IncomingMessage::System(SystemEvent::new_worker_event(pk, event)));
}

fn challenge(gk: &mut Gatekeeper, pk: [u8; 32]) {
    let c = HeartbeatChallenge { seed: blake2_256(&pk), online_target: [0u8; 32] };
    gk.receive(pallet(), IncomingMessage::System(SystemEvent::HeartbeatChallenge(c)));
}

fn heartbeat(gk: &mut Gatekeeper, pk: [u8; 32], session_id: u32, block: u32, iterations: u64) {
    let e = MiningReportEvent::Heartbeat {
        session_id,
        challenge_block: block,
        challenge_time: ts(block),
        iterations,
    };
    gk.receive(MessageOrigin::Worker(pk), IncomingMessage::MiningReport(e));
}

fn run(gk: &mut Gatekeeper, block_number: u32) -> Result<(), GatekeeperError> {
    gk.process_messages(&BlockInfo { block_number, now_ms: ts(block_number) })
}

fn updates(gk: &mut Gatekeeper) -> Vec<gatekeeper::messages::MiningInfoUpdateEvent> {
    gk.egress
        .drain()
        .into_iter()
        .filter_map(|m| match m {
            EgressMessage::MiningInfoUpdate(e) => Some(e),
            _ => None,
        })
        .collect()
}

/// Registers `pk` at block 1 and starts session 1 at block 2.
fn mining(gk: &mut Gatekeeper, pk: [u8; 32], init_v: &str) {
    say(gk, pk, WorkerEvent::Registered(WorkerRegistration { confidence_level: 2 }));
    run(gk, 1).unwrap();
    say(gk, pk, WorkerEvent::MiningStart { session_id: 1, init_v: fp(init_v).to_bits(), init_p: 100 });
    run(gk, 2).unwrap();
}

#[test]
fn fixed_point_arithmetic_is_exact() {
    assert_eq!(fp("1.5").saturating_mul(fp("2")), fp("3"));
    assert_eq!(fp("1").saturating_div(fp("3")).to_bits(), 6148914691236517205);
    assert_eq!(fp("2").sqrt().to_bits(), 26087635646576328704);
    assert_eq!(fp("4").sqrt(), fp("2"));
    assert_eq!(fp("2.5").saturating_add(fp("0.5")), fp("3"));
    assert_eq!(fp("2").saturating_sub(fp("3")), fp("0"));
    assert_eq!(fp("7").saturating_mul_int(6), fp("42"));
    assert_eq!(fp("9").div_int(1000), FixedPoint::from_bits(fp("9").to_bits() / 1000));
    assert_eq!(FixedPoint::from_int(5), fp("5"));
    assert_eq!(FixedPoint::one().to_bits(), ONE_BITS);
}

#[test]
fn fixed_point_saturates() {
    let max = FixedPoint::from_bits(u128::MAX);
    assert_eq!(max.saturating_add(fp("1")), max);
    assert_eq!(max.saturating_mul(fp("2")), max);
    assert_eq!(max.saturating_div(fp("0.5")), max);
    assert_eq!(max.saturating_mul_int(2), max);
}

#[test]
fn fixed_point_decimal_text() {
    assert_eq!(fp("1.5").to_decimal_string(), "1.5");
    assert_eq!(fp("3000").to_decimal_string(), "3000");
}

#[test]
fn confidence_scores() {
    for level in [1u8, 2, 3, 128] {
        assert_eq!(conf_score(level), fp("1"));
    }
    assert_eq!(conf_score(4), fp("0.8"));
    assert_eq!(conf_score(5), fp("0.7"));
    assert_eq!(conf_score(0), fp("0"));
    assert_eq!(conf_score(6), fp("0"));
}

#[test]
fn default_params_match_their_decimals() {
    let p = test_params();
    assert_eq!(p.rho, fp("1.000000666600231"));
    assert_eq!(p.slash_rate, fp("0.0000033333333333333240063"));
    assert_eq!(p.budget_per_block, fp("100"));
    assert_eq!(p.v_max, fp("30000"));
    assert_eq!(p.cost_k, fp("0.000000015815258751856933056"));
    assert_eq!(p.cost_b, fp("0.000033711472602739674283"));
    assert_eq!(p.treasury_ration, fp("0.2"));
    assert_eq!(p.payout_ration, fp("0.8"));
    assert_eq!(p.heartbeat_window, 10);
    assert_eq!(p.treasury_ration.to_bits() + p.payout_ration.to_bits(), ONE_BITS);
}

#[test]
fn params_from_wire_split_rations() {
    let wire = TokenomicParameters {
        rho: fp("1.5").to_bits(),
        budget_per_block: fp("10").to_bits(),
        v_max: fp("100").to_bits(),
        cost_k: 1,
        cost_b: 2,
        slash_rate: fp("0.25").to_bits(),
        treasury_ratio: fp("0.25").to_bits(),
        heartbeat_window: 7,
    };
    let p = Params::from(wire);
    assert_eq!(p.treasury_ration, fp("0.25"));
    assert_eq!(p.payout_ration, fp("0.75"));
    assert_eq!(p.rho, fp("1.5"));
    assert_eq!(p.heartbeat_window, 7);
    let over = Params::from(TokenomicParameters { treasury_ratio: fp("2").to_bits(), ..wire });
    assert_eq!(over.payout_ration, fp("0"));
}

#[test]
fn share_formula() {
    let info = TokenomicInfo {
        v: fp("3"),
        p_instant: fp("2"),
        confidence_level: 2,
        ..Default::default()
    };
    assert_eq!(info.share(), fp("5"));
    let low = TokenomicInfo { confidence_level: 9, ..info };
    assert_eq!(low.share(), fp("3"));
}

#[test]
fn idle_update_is_capped_at_v_max() {
    let params = test_params();
    let mut info = TokenomicInfo {
        v: params.v_max,
        p_bench: fp("100"),
        p_instant: fp("100"),
        ..Default::default()
    };
    info.update_v_idle(&params);
    assert_eq!(info.v, params.v_max);
    assert!(info.payable > fp("0"));
}

#[test]
fn idle_update_without_benchmark() {
    let params = test_params();
    let mut info = TokenomicInfo { v: fp("1"), ..Default::default() };
    info.update_v_idle(&params);
    // Growth (rho - 1) * v plus the fixed cost, at full performance.
    let growth = params.rho.saturating_sub(fp("1")).saturating_mul(fp("1")).saturating_add(params.cost_b);
    assert_eq!(info.v, fp("1").saturating_add(growth));
    assert_eq!(info.payable, growth);
}

#[test]
fn heartbeat_update_pays_nothing_without_share() {
    let params = test_params();
    let info = TokenomicInfo { v: fp("10"), payable: fp("1"), v_update_block: 5, ..Default::default() };
    let mut a = info;
    assert_eq!(a.update_v_heartbeat(&params, fp("0"), 1, 10), (fp("0"), fp("0")));
    assert_eq!(a, info);
    let mut b = info;
    assert_eq!(b.update_v_heartbeat(&params, fp("10"), 1, 5), (fp("0"), fp("0")));
    assert_eq!(b, info);
    let mut c = TokenomicInfo { payable: fp("0"), ..info };
    assert_eq!(c.update_v_heartbeat(&params, fp("10"), 1, 10), (fp("0"), fp("0")));
}

#[test]
fn heartbeat_update_pays_what_is_payable() {
    let params = test_params();
    let mut info = TokenomicInfo { v: fp("10"), payable: fp("1"), v_update_block: 5, ..Default::default() };
    let share = info.share();
    let (payout, treasury) = info.update_v_heartbeat(&params, share, 777, 10);
    // The whole budget of 5 blocks is 500; 1 is payable.
    let to_payout = fp("500").saturating_mul(params.payout_ration);
    let to_treasury = fp("500").saturating_mul(params.treasury_ration);
    assert_eq!(payout, fp("1"));
    assert_eq!(treasury, fp("1").saturating_div(to_payout).saturating_mul(to_treasury));
    assert!(treasury > fp("0.2499") && treasury < fp("0.2501"));
    assert_eq!(info.v, fp("9"));
    assert_eq!(info.payable, fp("0"));
    assert_eq!(info.v_update_at, 777);
    assert_eq!(info.v_update_block, 10);
    assert_eq!(info.total_payout_count, 1);
    assert_eq!(info.last_payout, fp("1"));
}

#[test]
fn slash_takes_the_slash_rate() {
    let params = test_params();
    let mut info = TokenomicInfo { v: fp("3000"), payable: fp("3"), ..Default::default() };
    info.update_v_slash(&params, 42);
    let slash = fp("3000").saturating_mul(params.slash_rate);
    assert_eq!(info.v, fp("3000").saturating_sub(slash));
    assert_eq!(info.payable, fp("0"));
    assert_eq!(info.last_slash, slash);
    assert_eq!(info.last_slash_at_block, 42);
    assert_eq!(info.total_slash_count, 1);
}

#[test]
fn p_instant_is_capped_and_ignores_stale_time() {
    let mut info = TokenomicInfo { p_bench: fp("100"), challenge_time_last: 1000, ..Default::default() };
    info.update_p_instant(1000, 5000);
    assert_eq!(info.p_instant, fp("0"));
    info.update_p_instant(2000, 1_000_000);
    assert_eq!(info.p_instant, fp("100").saturating_mul(fp("1.2")));
}

#[test]
fn blake2_256_known_vector() {
    let digest = blake2_256(&[]);
    let hex: String = digest.iter().map(|b| format!("{:02x}", b)).collect();
    assert_eq!(hex, "0e5751c026e543b2e8ab2eb06099daa1d1e5df47778f7787faab45cdf12fe3a8");
}

#[test]
fn byte_order_and_xor() {
    let mut a = [0u8; 32];
    let mut b = [0u8; 32];
    assert_eq!(key_cmp(&a, &b), 0);
    b[31] = 1;
    assert_eq!(key_cmp(&a, &b), -1);
    a[0] = 1;
    assert_eq!(key_cmp(&a, &b), 1);
    let x = xor_32(&a, &b);
    assert_eq!(x[0], 1);
    assert_eq!(x[31], 1);
    assert_eq!(xor_32(&x, &x), [0u8; 32]);
}

#[test]
fn random_number_derivation() {
    let key = MasterKey { random_secret: vec![1u8; 64], iv_secret: vec![] };
    let r = next_random_number(&key, 10, [7u8; 32]);
    let expected: [u8; 32] = [
        166, 114, 68, 223, 224, 107, 31, 120, 122, 30, 93, 28, 1, 110, 199, 152, 125, 6, 73, 152,
        211, 51, 252, 151, 4, 151, 134, 147, 254, 28, 119, 237,
    ];
    assert_eq!(r, expected);
    assert_eq!(next_random_number(&key, 10, [7u8; 32]), r);
    assert_ne!(next_random_number(&key, 11, [7u8; 32]), r);
}

#[test]
fn beacon_emits_on_interval_only() {
    let mut gk = launched();
    gk.emit_random_number(7);
    assert!(gk.egress.drain().is_empty());
    gk.emit_random_number(10);
    let sent = gk.egress.drain();
    let expected = next_random_number(&master_key(), 10, [0u8; 32]);
    assert_eq!(
        sent,
        vec![EgressMessage::Gatekeeper(GatekeeperEvent::new_random_number(10, expected, [0u8; 32]))]
    );
    assert_eq!(gk.last_random_number, expected);
}

#[test]
fn tampered_random_number_poisons() {
    let mut gk = launched();
    let good = next_random_number(&master_key(), 5, [0u8; 32]);
    gk.receive(
        MessageOrigin::Gatekeeper,
        IncomingMessage::Gatekeeper(GatekeeperEvent::new_random_number(5, good, [0u8; 32])),
    );
    assert_eq!(run(&mut gk, 5), Ok(()));
    let mut bad = good;
    bad[0] ^= 1;
    // From another origin it is not checked.
    gk.receive(
        MessageOrigin::Worker([1u8; 32]),
        IncomingMessage::Gatekeeper(GatekeeperEvent::new_random_number(5, bad, [0u8; 32])),
    );
    assert_eq!(run(&mut gk, 6), Ok(()));
    gk.receive(
        MessageOrigin::Gatekeeper,
        IncomingMessage::Gatekeeper(GatekeeperEvent::new_random_number(5, bad, [0u8; 32])),
    );
    assert_eq!(run(&mut gk, 7), Err(GatekeeperError::RandomNumberMismatch));
}

#[test]
fn unexpected_heartbeat_poisons() {
    let mut gk = launched();
    let pk = [1u8; 32];
    mining(&mut gk, pk, "1");
    heartbeat(&mut gk, pk, 1, 2, 100);
    assert_eq!(run(&mut gk, 3), Err(GatekeeperError::UnexpectedHeartbeat));
}

#[test]
fn heartbeat_of_unknown_worker_is_dropped() {
    let mut gk = launched();
    heartbeat(&mut gk, [9u8; 32], 1, 2, 100);
    assert_eq!(run(&mut gk, 3), Ok(()));
    assert_eq!(gk.worker_count(), 0);
}

#[test]
fn events_from_wrong_origin_are_dropped() {
    let mut gk = launched();
    let pk = [1u8; 32];
    gk.receive(
        MessageOrigin::Worker(pk),
        IncomingMessage::System(SystemEvent::new_worker_event(
            pk,
            WorkerEvent::Registered(WorkerRegistration { confidence_level: 1 }),
        )),
    );
    let mut wire = TokenomicParameters {
        rho: 0,
        budget_per_block: 0,
        v_max: 0,
        cost_k: 0,
        cost_b: 0,
        slash_rate: 0,
        treasury_ratio: 0,
        heartbeat_window: 3,
    };
    gk.receive(
        MessageOrigin::Worker(pk),
        IncomingMessage::Gatekeeper(GatekeeperEvent::TokenomicParametersChanged(wire)),
    );
    run(&mut gk, 1).unwrap();
    assert_eq!(gk.worker_count(), 0);
    assert_eq!(gk.tokenomic_params, test_params());
    wire.heartbeat_window = 4;
    gk.receive(pallet(), IncomingMessage::Gatekeeper(GatekeeperEvent::TokenomicParametersChanged(wire)));
    run(&mut gk, 2).unwrap();
    assert_eq!(gk.tokenomic_params, Params::from(wire));
}

#[test]
fn nothing_happens_before_launch() {
    let mut gk = Gatekeeper::new(master_key());
    say(&mut gk, [1u8; 32], WorkerEvent::Registered(WorkerRegistration { confidence_level: 1 }));
    assert_eq!(run(&mut gk, 1), Ok(()));
    assert_eq!(gk.worker_count(), 0);
    gk.master_pubkey_uploaded();
    run(&mut gk, 2).unwrap();
    assert_eq!(gk.worker_count(), 1);
}

#[test]
fn dummy_egress_drops_messages() {
    let mut gk = launched();
    gk.unregister_on_chain();
    assert!(!gk.registered_on_chain());
    gk.emit_random_number(5);
    assert!(gk.egress.drain().is_empty());
    gk.register_on_chain();
    assert!(gk.registered_on_chain());
    gk.emit_random_number(10);
    assert_eq!(gk.egress.drain().len(), 1);
}

#[test]
fn workers_are_kept_in_key_order() {
    let mut gk = launched();
    for k in [5u8, 1, 3, 1] {
        say(&mut gk, [k; 32], WorkerEvent::Registered(WorkerRegistration { confidence_level: 1 }));
    }
    run(&mut gk, 1).unwrap();
    assert_eq!(gk.worker_count(), 3);
    let keys: Vec<u8> = gk.workers.iter().map(|w| w.state.pubkey[0]).collect();
    assert_eq!(keys, vec![1, 3, 5]);
    assert_eq!(gk.worker_info(&[3u8; 32]).unwrap().tokenomic.confidence_level, 1);
    assert!(gk.worker_info(&[4u8; 32]).is_none());
}

#[test]
fn pending_challenges_stay_ascending() {
    let mut gk = launched();
    let pk = [1u8; 32];
    mining(&mut gk, pk, "1");
    for b in [3u32, 4, 6] {
        challenge(&mut gk, pk);
        run(&mut gk, b).unwrap();
    }
    let w = gk.worker_info(&pk).unwrap();
    assert_eq!(w.waiting_heartbeats.iter().copied().collect::<Vec<u32>>(), vec![3, 4, 6]);
}

#[test]
fn challenge_selects_by_target() {
    let mut gk = launched();
    let pk = [1u8; 32];
    mining(&mut gk, pk, "1");
    // Digest xor seed is not zero: not selected with a zero target.
    let c = HeartbeatChallenge { seed: [0u8; 32], online_target: [0u8; 32] };
    gk.receive(pallet(), IncomingMessage::System(SystemEvent::HeartbeatChallenge(c)));
    run(&mut gk, 3).unwrap();
    assert_eq!(gk.worker_info(&pk).unwrap().waiting_heartbeats.len(), 0);
    // The largest target selects every mining worker.
    let c = HeartbeatChallenge { seed: [0u8; 32], online_target: [0xffu8; 32] };
    gk.receive(pallet(), IncomingMessage::System(SystemEvent::HeartbeatChallenge(c)));
    run(&mut gk, 4).unwrap();
    assert_eq!(gk.worker_info(&pk).unwrap().waiting_heartbeats.len(), 1);
}

#[test]
fn selection_compares_big_endian_numbers() {
    let mut id = [0u8; 32];
    id[31] = 0x0f;
    let mut target = [0u8; 32];
    target[31] = 0x0f;
    let c = HeartbeatChallenge { seed: [0u8; 32], online_target: target };
    assert!(challenge_selects(&id, &c));
    let mut seed = [0u8; 32];
    seed[31] = 0x10;
    // 0x0f ^ 0x10 = 0x1f > 0x0f
    assert!(!challenge_selects(&id, &HeartbeatChallenge { seed, online_target: target }));
    let mut big = [0u8; 32];
    big[0] = 1;
    // The first byte weighs most.
    assert!(challenge_selects(&id, &HeartbeatChallenge { seed: [0u8; 32], online_target: big }));
    assert!(!challenge_selects(&big, &c));
}

#[test]
fn paused_worker_is_not_challenged() {
    let mut gk = launched();
    let pk = [1u8; 32];
    mining(&mut gk, pk, "1");
    say(&mut gk, pk, WorkerEvent::MiningEnterUnresponsive);
    challenge(&mut gk, pk);
    run(&mut gk, 3).unwrap();
    assert_eq!(gk.worker_info(&pk).unwrap().waiting_heartbeats.len(), 0);
    say(&mut gk, pk, WorkerEvent::MiningExitUnresponsive);
    challenge(&mut gk, pk);
    run(&mut gk, 4).unwrap();
    assert_eq!(gk.worker_info(&pk).unwrap().waiting_heartbeats.len(), 1);
}

#[test]
fn benchmark_ends_after_its_duration() {
    let mut gk = launched();
    let pk = [1u8; 32];
    say(&mut gk, pk, WorkerEvent::Registered(WorkerRegistration { confidence_level: 1 }));
    say(&mut gk, pk, WorkerEvent::BenchStart { duration: 2 });
    run(&mut gk, 1).unwrap();
    assert!(gk.worker_info(&pk).unwrap().state.bench_state.is_some());
    run(&mut gk, 2).unwrap();
    assert!(gk.worker_info(&pk).unwrap().state.bench_state.is_some());
    run(&mut gk, 3).unwrap();
    assert!(gk.worker_info(&pk).unwrap().state.bench_state.is_none());
}

#[test]
fn stale_session_heartbeat_changes_no_tokenomics() {
    let mut gk = launched();
    let pk = [1u8; 32];
    mining(&mut gk, pk, "1");
    challenge(&mut gk, pk);
    run(&mut gk, 3).unwrap();
    say(&mut gk, pk, WorkerEvent::MiningStart { session_id: 2, init_v: fp("1").to_bits(), init_p: 100 });
    run(&mut gk, 4).unwrap();
    let before = gk.worker_info(&pk).unwrap().tokenomic;
    heartbeat(&mut gk, pk, 1, 3, 10_000_000);
    // The post-block pass still accrues; compare with a block without the heartbeat.
    let mut twin = launched();
    mining(&mut twin, pk, "1");
    challenge(&mut twin, pk);
    run(&mut twin, 3).unwrap();
    say(&mut twin, pk, WorkerEvent::MiningStart { session_id: 2, init_v: fp("1").to_bits(), init_p: 100 });
    run(&mut twin, 4).unwrap();
    run(&mut gk, 5).unwrap();
    run(&mut twin, 5).unwrap();
    let w = gk.worker_info(&pk).unwrap();
    assert_eq!(w.waiting_heartbeats.len(), 0);
    assert!(!w.heartbeat_flag);
    assert_eq!(w.tokenomic, twin.worker_info(&pk).unwrap().tokenomic);
    assert_ne!(w.tokenomic, before);
    assert!(updates(&mut gk).iter().all(|u| u.settle.is_empty()));
}

#[test]
fn mining_start_resets_tokenomics() {
    let mut gk = launched();
    let pk = [1u8; 32];
    say(&mut gk, pk, WorkerEvent::Registered(WorkerRegistration { confidence_level: 4 }));
    run(&mut gk, 1).unwrap();
    say(&mut gk, pk, WorkerEvent::MiningStart { session_id: 1, init_v: fp("10").to_bits(), init_p: 100 });
    challenge(&mut gk, pk);
    run(&mut gk, 2).unwrap();
    for b in 3..15 {
        run(&mut gk, b).unwrap();
    }
    assert!(gk.worker_info(&pk).unwrap().unresponsive);
    assert!(gk.worker_info(&pk).unwrap().tokenomic.total_slash_count > 0);
    heartbeat(&mut gk, pk, 1, 2, 10_000_000);
    challenge(&mut gk, pk);
    run(&mut gk, 15).unwrap();
    assert!(!gk.worker_info(&pk).unwrap().unresponsive);
    say(&mut gk, pk, WorkerEvent::MiningStop);
    say(&mut gk, pk, WorkerEvent::MiningStart { session_id: 2, init_v: fp("7").to_bits(), init_p: 50 });
    run(&mut gk, 16).unwrap();
    let w = gk.worker_info(&pk).unwrap();
    // One idle block has passed since the start.
    let mut fresh = TokenomicInfo {
        v: fp("7"),
        v_init: fp("7"),
        v_update_at: ts(16),
        v_update_block: 16,
        challenge_time_last: ts(16),
        p_bench: fp("50"),
        p_instant: fp("50"),
        confidence_level: 4,
        ..Default::default()
    };
    fresh.update_v_idle(&gk.tokenomic_params);
    assert_eq!(w.tokenomic, fresh);
    assert!(!w.unresponsive);
    assert_eq!(w.waiting_heartbeats.iter().copied().collect::<Vec<u32>>(), vec![15]);
}

#[test]
fn one_report_per_block_in_generation_order() {
    let mut gk = launched();
    let a = [1u8; 32];
    let b = [2u8; 32];
    for pk in [a, b] {
        say(&mut gk, pk, WorkerEvent::Registered(WorkerRegistration { confidence_level: 2 }));
    }
    run(&mut gk, 1).unwrap();
    for pk in [a, b] {
        say(&mut gk, pk, WorkerEvent::MiningStart { session_id: 1, init_v: fp("1").to_bits(), init_p: 100 });
    }
    challenge(&mut gk, a);
    run(&mut gk, 2).unwrap();
    for blk in 3..10 {
        run(&mut gk, blk).unwrap();
    }
    gk.egress.clear();
    // A mining report is handled before the system event, whatever the
    // order of arrival.
    say(&mut gk, b, WorkerEvent::MiningStop);
    heartbeat(&mut gk, a, 1, 2, 10_000_000);
    run(&mut gk, 10).unwrap();
    let sent = updates(&mut gk);
    assert_eq!(sent.len(), 1);
    let settle = &sent[0].settle;
    assert_eq!(settle.len(), 2);
    assert_eq!(settle[0].pubkey, a);
    assert!(settle[0].payout > 0);
    assert_eq!(settle[1].pubkey, b);
    assert_eq!(settle[1].payout, 0);
    assert_eq!(settle[1].treasury, 0);
    assert_eq!(sent[0].block_number, 10);
    assert_eq!(sent[0].timestamp_ms, ts(10));
}

#[test]
fn two_gatekeepers_send_the_same_messages() {
    let mut gks = [launched(), launched()];
    for gk in gks.iter_mut() {
        mining(gk, [1u8; 32], "3000");
        challenge(gk, [1u8; 32]);
        run(gk, 3).unwrap();
        for blk in 4..30 {
            run(gk, blk).unwrap();
            gk.emit_random_number(blk);
        }
    }
    let [mut x, mut y] = gks;
    let sent = x.egress.drain();
    assert!(!sent.is_empty());
    assert_eq!(sent, y.egress.drain());
}

#[test]
fn master_key_distribution_uses_fresh_ivs() {
    let mut gk = launched();
    let target = [4u8; 32];
    let worker_ecdh = [5u8; 32];
    let mut seen = Vec::new();
    gk.share_master_key(&target, &worker_ecdh, 9, |ecdh: &[u8; 32], iv: [u8; 12]| {
        assert_eq!(*ecdh, [5u8; 32]);
        ([6u8; 32], iv.to_vec())
    });
    gk.share_master_key(&target, &worker_ecdh, 9, |_: &[u8; 32], iv: [u8; 12]| ([6u8; 32], iv.to_vec()));
    assert_eq!(gk.iv_seq, 2);
    for m in gk.egress.drain() {
        match m {
            EgressMessage::KeyDistribution(KeyDistribution::MasterKeyDistribution {
                target: t,
                ecdh_pubkey,
                encrypted_master_key,
                iv,
            }) => {
                assert_eq!(t, target);
                assert_eq!(ecdh_pubkey, [6u8; 32]);
                assert_eq!(encrypted_master_key, iv.to_vec());
                seen.push(iv);
            },
            other => panic!("unexpected {:?}", other),
        }
    }
    assert_eq!(seen.len(), 2);
    assert_ne!(seen[0], seen[1]);
    // IV = first 12 bytes of blake2_256(secret || be(block) || be(seq)).
    let mut buf = vec![2u8; 64];
    buf.extend_from_slice(&9u32.to_be_bytes());
    buf.extend_from_slice(&0u64.to_be_bytes());
    assert_eq!(seen[0][..], blake2_256(&buf)[..12]);
}

#[test]
fn worker_state_snapshot() {
    let mut gk = launched();
    let pk = [1u8; 32];
    assert!(gk.worker_state(&pk).is_none());
    say(&mut gk, pk, WorkerEvent::Registered(WorkerRegistration { confidence_level: 2 }));
    run(&mut gk, 1).unwrap();
    let s = gk.worker_state(&pk).unwrap();
    assert!(s.registered);
    assert!(s.tokenomic_info.is_none());
    assert!(s.mining_state.is_none());
    say(&mut gk, pk, WorkerEvent::MiningStart { session_id: 3, init_v: fp("1.5").to_bits(), init_p: 100 });
    challenge(&mut gk, pk);
    run(&mut gk, 2).unwrap();
    let s = gk.worker_state(&pk).unwrap();
    let m = s.mining_state.unwrap();
    assert_eq!(m.session_id, 3);
    assert!(!m.paused);
    assert_eq!(m.start_time, ts(2));
    assert_eq!(s.waiting_heartbeats, vec![2]);
    let t = s.tokenomic_info.unwrap();
    let v = gk.worker_info(&pk).unwrap().tokenomic.v;
    assert_eq!(t.v, v.to_decimal_string());
    assert_eq!(t.v_init, "1.5");
    assert_eq!(t.p_bench, "100");
    assert_eq!(t.confidence_level, 2);
}
