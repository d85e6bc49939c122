//! Per-worker economic state and its update rules.

use crate::fixed_point::{
    fixed_sqrt_of, spec_add, spec_div, spec_max, spec_min, spec_mul, spec_mul_int, spec_sub,
    FixedPoint, ONE_BITS,
};
use vstd::prelude::*;

verus! {

/// Raw pattern of 0.8.
pub const CONF_0_8_BITS: u128 = 14757395258967641293;

/// Raw pattern of 0.7.
pub const CONF_0_7_BITS: u128 = 12912720851596686131;

/// Raw pattern of 1.2, the cap of measured over benchmarked performance.
pub const P_CAP_RATIO_BITS: u128 = 22136092888451461939;

/// Raw pattern of 2.
pub const TWO_BITS: u128 = 0x2_0000_0000_0000_0000;

/// Length of one iteration window, in seconds.
pub const ITERATION_WINDOW_SECS: u128 = 6;

/// Milliseconds per second.
pub const MS_PER_SEC: u128 = 1000;

/// Confidence score of a confidence level, as raw bits.
pub open spec fn conf_score_bits(level: u8) -> u128 {
    if level == 1 || level == 2 || level == 3 || level == 128 {
        ONE_BITS
    } else if level == 4 {
        CONF_0_8_BITS
    } else if level == 5 {
        CONF_0_7_BITS
    } else {
        0
    }
}

pub open spec fn square_bits(v: u128) -> u128 {
    spec_mul(v, v)
}

/// The square of a value, saturating.
pub fn square(v: FixedPoint) -> (r: FixedPoint)
    ensures
        r.bits == square_bits(v.bits),
{
    v.saturating_mul(v)
}

/// Confidence score of a confidence level: levels 1, 2, 3 and 128 score
/// one, level 4 scores 0.8, level 5 scores 0.7, any other zero.
pub fn conf_score(level: u8) -> (r: FixedPoint)
    ensures
        r.bits == conf_score_bits(level),
{
    match level {
        1 | 2 | 3 | 128 => FixedPoint::one(),
        4 => FixedPoint::from_bits(CONF_0_8_BITS),
        5 => FixedPoint::from_bits(CONF_0_7_BITS),
        _ => FixedPoint::zero(),
    }
}

/// Tokenomic parameters as they arrive on the wire: raw 64.64 patterns.
#[derive(Clone, Copy, Debug, PartialEq, Eq, Structural)]
pub struct TokenomicParameters {
    pub rho: u128,
    pub budget_per_block: u128,
    pub v_max: u128,
    pub cost_k: u128,
    pub cost_b: u128,
    pub slash_rate: u128,
    pub treasury_ratio: u128,
    pub heartbeat_window: u32,
}

/// Tokenomic parameters in effect.
#[derive(Clone, Copy, Debug, PartialEq, Eq, Structural)]
pub struct Params {
    pub rho: FixedPoint,
    pub slash_rate: FixedPoint,
    pub budget_per_block: FixedPoint,
    pub v_max: FixedPoint,
    pub cost_k: FixedPoint,
    pub cost_b: FixedPoint,
    pub treasury_ration: FixedPoint,
    pub payout_ration: FixedPoint,
    pub heartbeat_window: u32,
}

impl Params {
    /// The treasury and payout rations add up to one.
    pub open spec fn wf(&self) -> bool {
        self.treasury_ration.bits + self.payout_ration.bits == ONE_BITS
    }

    /// The parameters in effect for parameters from the wire: the payout
    /// ration is what the treasury ration leaves of one.
    pub open spec fn spec_from(p: TokenomicParameters) -> Params {
        Params {
            rho: FixedPoint { bits: p.rho },
            slash_rate: FixedPoint { bits: p.slash_rate },
            budget_per_block: FixedPoint { bits: p.budget_per_block },
            v_max: FixedPoint { bits: p.v_max },
            cost_k: FixedPoint { bits: p.cost_k },
            cost_b: FixedPoint { bits: p.cost_b },
            treasury_ration: FixedPoint { bits: p.treasury_ratio },
            payout_ration: FixedPoint { bits: spec_sub(ONE_BITS, p.treasury_ratio) },
            heartbeat_window: p.heartbeat_window,
        }
    }

    pub fn from(params: TokenomicParameters) -> (r: Params)
        ensures
            r == Params::spec_from(params),
            params.treasury_ratio <= ONE_BITS ==> r.wf(),
    {
        let treasury_ration = FixedPoint::from_bits(params.treasury_ratio);
        let payout_ration = FixedPoint::one().saturating_sub(treasury_ration);
        Params {
            rho: FixedPoint::from_bits(params.rho),
            slash_rate: FixedPoint::from_bits(params.slash_rate),
            budget_per_block: FixedPoint::from_bits(params.budget_per_block),
            v_max: FixedPoint::from_bits(params.v_max),
            cost_k: FixedPoint::from_bits(params.cost_k),
            cost_b: FixedPoint::from_bits(params.cost_b),
            treasury_ration,
            payout_ration,
            heartbeat_window: params.heartbeat_window,
        }
    }
}

/// The default parameters:
/// rho 1.000000666600231, slash_rate 0.0000033333333333333240063,
/// budget_per_block 100, v_max 30000, cost_k 0.000000015815258751856933056,
/// cost_b 0.000033711472602739674283, treasury 0.2, payout 0.8,
/// heartbeat_window 10.
pub open spec fn spec_test_params() -> Params {
    Params {
        rho: FixedPoint { bits: 18446756370313412349 },
        slash_rate: FixedPoint { bits: 61489146912365 },
        budget_per_block: FixedPoint { bits: 1844674407370955161600 },
        v_max: FixedPoint { bits: 553402322211286548480000 },
        cost_k: FixedPoint { bits: 291740030655 },
        cost_b: FixedPoint { bits: 621866907450610 },
        treasury_ration: FixedPoint { bits: 3689348814741910323 },
        payout_ration: FixedPoint { bits: 14757395258967641293 },
        heartbeat_window: 10,
    }
}

/// The default parameters, in effect until a pallet replaces them.
pub fn test_params() -> (r: Params)
    ensures
        r == spec_test_params(),
        r.wf(),
{
    Params {
        rho: FixedPoint::from_bits(18446756370313412349),
        slash_rate: FixedPoint::from_bits(61489146912365),
        budget_per_block: FixedPoint::from_bits(1844674407370955161600),
        v_max: FixedPoint::from_bits(553402322211286548480000),
        cost_k: FixedPoint::from_bits(291740030655),
        cost_b: FixedPoint::from_bits(621866907450610),
        treasury_ration: FixedPoint::from_bits(3689348814741910323),
        payout_ration: FixedPoint::from_bits(14757395258967641293),
        heartbeat_window: 10,
    }
}

/// Economic state of one worker.
#[derive(Clone, Copy, Debug, PartialEq, Eq, Structural)]
pub struct TokenomicInfo {
    pub v: FixedPoint,
    pub v_init: FixedPoint,
    pub payable: FixedPoint,
    pub v_update_at: u64,
    pub v_update_block: u32,
    pub iteration_last: u64,
    pub challenge_time_last: u64,
    pub p_bench: FixedPoint,
    pub p_instant: FixedPoint,
    pub confidence_level: u8,
    pub last_payout: FixedPoint,
    pub last_payout_at_block: u32,
    pub total_payout: FixedPoint,
    pub total_payout_count: u32,
    pub last_slash: FixedPoint,
    pub last_slash_at_block: u32,
    pub total_slash: FixedPoint,
    pub total_slash_count: u32,
}

pub open spec fn zero_fp() -> FixedPoint {
    FixedPoint { bits: 0 }
}

/// A record with every field zero.
pub open spec fn spec_default_tokenomic() -> TokenomicInfo {
    TokenomicInfo {
        v: zero_fp(),
        v_init: zero_fp(),
        payable: zero_fp(),
        v_update_at: 0,
        v_update_block: 0,
        iteration_last: 0,
        challenge_time_last: 0,
        p_bench: zero_fp(),
        p_instant: zero_fp(),
        confidence_level: 0,
        last_payout: zero_fp(),
        last_payout_at_block: 0,
        total_payout: zero_fp(),
        total_payout_count: 0,
        last_slash: zero_fp(),
        last_slash_at_block: 0,
        total_slash: zero_fp(),
        total_slash_count: 0,
    }
}

impl Default for TokenomicInfo {
    fn default() -> (r: TokenomicInfo)
        ensures
            r == spec_default_tokenomic(),
    {
        TokenomicInfo {
            v: FixedPoint::zero(),
            v_init: FixedPoint::zero(),
            payable: FixedPoint::zero(),
            v_update_at: 0,
            v_update_block: 0,
            iteration_last: 0,
            challenge_time_last: 0,
            p_bench: FixedPoint::zero(),
            p_instant: FixedPoint::zero(),
            confidence_level: 0,
            last_payout: FixedPoint::zero(),
            last_payout_at_block: 0,
            total_payout: FixedPoint::zero(),
            total_payout_count: 0,
            last_slash: FixedPoint::zero(),
            last_slash_at_block: 0,
            total_slash: FixedPoint::zero(),
            total_slash_count: 0,
        }
    }
}

pub open spec fn saturating_inc(n: u32) -> u32 {
    if n == u32::MAX {
        n
    } else {
        (n + 1) as u32
    }
}

fn inc_count(n: u32) -> (r: u32)
    ensures
        r == saturating_inc(n),
{
    if n == u32::MAX {
        n
    } else {
        n + 1
    }
}

impl TokenomicInfo {
    /// Weight of the worker in payout proportioning:
    /// sqrt(v^2 + (2 * p_instant * conf_score)^2).
    pub open spec fn spec_share(self) -> u128 {
        let p = spec_mul(spec_mul(TWO_BITS, self.p_instant.bits), conf_score_bits(self.confidence_level));
        fixed_sqrt_of(spec_add(square_bits(self.v.bits), square_bits(p)))
    }

    /// Change of V in one idle block.
    pub open spec fn spec_idle_delta(self, params: Params) -> u128 {
        let cost_idle = spec_add(spec_mul(params.cost_k.bits, self.p_bench.bits), params.cost_b.bits);
        let perf_multiplier = if self.p_bench.bits == 0 {
            ONE_BITS
        } else {
            spec_div(self.p_instant.bits, self.p_bench.bits)
        };
        spec_mul(
            perf_multiplier,
            spec_add(spec_mul(spec_sub(params.rho.bits, ONE_BITS), self.v.bits), cost_idle),
        )
    }

    /// The record after one idle block: V grows by the idle delta, capped
    /// at `v_max`, and the delta becomes payable.
    pub open spec fn spec_update_v_idle(self, params: Params) -> TokenomicInfo {
        let delta_v = self.spec_idle_delta(params);
        TokenomicInfo {
            v: FixedPoint { bits: spec_min(spec_add(self.v.bits, delta_v), params.v_max.bits) },
            payable: FixedPoint { bits: spec_add(self.payable.bits, delta_v) },
            ..self
        }
    }

    /// No payout is made: nothing to share, nothing payable, the block is
    /// not after the last update, or the worker has no share.
    pub open spec fn spec_no_payout(self, sum_share: u128, block_number: u32) -> bool {
        sum_share == 0 || self.payable.bits == 0 || block_number <= self.v_update_block
            || self.spec_share() == 0
    }

    /// What the budget for the blocks since the last update gives to payout.
    pub open spec fn spec_budget(self, params: Params, sum_share: u128, block_number: u32) -> u128 {
        let blocks = (block_number - self.v_update_block) * ONE_BITS;
        spec_mul(
            spec_mul(spec_div(self.spec_share(), sum_share), params.budget_per_block.bits),
            blocks as u128,
        )
    }

    pub open spec fn spec_payout(self, params: Params, sum_share: u128, block_number: u32) -> u128 {
        let to_payout = spec_mul(self.spec_budget(params, sum_share, block_number), params.payout_ration.bits);
        spec_min(spec_max(self.payable.bits, 0), to_payout)
    }

    /// The treasury share that goes with the payout; none when nothing
    /// was owed to payout.
    pub open spec fn spec_treasury(self, params: Params, sum_share: u128, block_number: u32) -> u128 {
        let budget = self.spec_budget(params, sum_share, block_number);
        let to_payout = spec_mul(budget, params.payout_ration.bits);
        let to_treasury = spec_mul(budget, params.treasury_ration.bits);
        if to_payout == 0 {
            0
        } else {
            spec_mul(spec_div(self.spec_payout(params, sum_share, block_number), to_payout), to_treasury)
        }
    }

    /// The record after a payout at `block_number`.
    pub open spec fn spec_paid(self, params: Params, sum_share: u128, now_ms: u64, block_number: u32) -> TokenomicInfo {
        let payout = self.spec_payout(params, sum_share, block_number);
        TokenomicInfo {
            v: FixedPoint { bits: spec_sub(self.v.bits, payout) },
            payable: zero_fp(),
            v_update_at: now_ms,
            v_update_block: block_number,
            last_payout: FixedPoint { bits: payout },
            last_payout_at_block: block_number,
            total_payout: FixedPoint { bits: spec_add(self.total_payout.bits, payout) },
            total_payout_count: saturating_inc(self.total_payout_count),
            ..self
        }
    }

    /// The record after a slash at `block_number`.
    pub open spec fn spec_update_v_slash(self, params: Params, block_number: u32) -> TokenomicInfo {
        let slash = spec_mul(self.v.bits, params.slash_rate.bits);
        TokenomicInfo {
            v: FixedPoint { bits: spec_sub(self.v.bits, slash) },
            payable: zero_fp(),
            last_slash: FixedPoint { bits: slash },
            last_slash_at_block: block_number,
            total_slash: FixedPoint { bits: spec_add(self.total_slash.bits, slash) },
            total_slash_count: saturating_inc(self.total_slash_count),
            ..self
        }
    }

    /// Iterations counted from after a reboot of the worker.
    pub open spec fn spec_iteration_base(self, iterations: u64) -> u64 {
        if iterations < self.iteration_last {
            iterations
        } else {
            self.iteration_last
        }
    }

    /// Measured performance: iterations per six seconds since the last
    /// challenge, at most 1.2 times the benchmark.
    pub open spec fn spec_measured_p(self, now: u64, iterations: u64) -> u128 {
        let base = self.spec_iteration_base(iterations);
        let dt = (((now - self.challenge_time_last) * ONE_BITS) / (MS_PER_SEC as int)) as u128;
        let p = spec_mul_int(spec_div(((iterations - base) * ONE_BITS) as u128, dt), ITERATION_WINDOW_SECS);
        spec_min(p, spec_mul(self.p_bench.bits, P_CAP_RATIO_BITS))
    }

    pub open spec fn spec_update_p_instant(self, now: u64, iterations: u64) -> TokenomicInfo {
        if now <= self.challenge_time_last {
            self
        } else {
            TokenomicInfo {
                iteration_last: self.spec_iteration_base(iterations),
                p_instant: FixedPoint { bits: self.spec_measured_p(now, iterations) },
                ..self
            }
        }
    }

    /// Idle, no event: V accrues.
    pub fn update_v_idle(&mut self, params: &Params)
        ensures
            *final(self) == old(self).spec_update_v_idle(*params),
            final(self).v.bits <= params.v_max.bits,
    {
        let cost_idle = params.cost_k.saturating_mul(self.p_bench).saturating_add(params.cost_b);
        let perf_multiplier = if self.p_bench.is_zero() {
            FixedPoint::one()
        } else {
            self.p_instant.saturating_div(self.p_bench)
        };
        let growth = params.rho.saturating_sub(FixedPoint::one()).saturating_mul(self.v);
        let delta_v = perf_multiplier.saturating_mul(growth.saturating_add(cost_idle));
        let v = self.v.saturating_add(delta_v);
        self.v = v.min(params.v_max);
        self.payable = self.payable.saturating_add(delta_v);
    }

    /// Idle, successful heartbeat: pays out what is payable, within the
    /// worker's part of the budget. Returns the payout and the treasury part.
    pub fn update_v_heartbeat(
        &mut self,
        params: &Params,
        sum_share: FixedPoint,
        now_ms: u64,
        block_number: u32,
    ) -> (r: (FixedPoint, FixedPoint))
        ensures
            old(self).spec_no_payout(sum_share.bits, block_number) ==> {
                &&& *final(self) == *old(self)
                &&& r.0.bits == 0
                &&& r.1.bits == 0
            },
            !old(self).spec_no_payout(sum_share.bits, block_number) ==> {
                &&& *final(self) == old(self).spec_paid(*params, sum_share.bits, now_ms, block_number)
                &&& r.0.bits == old(self).spec_payout(*params, sum_share.bits, block_number)
                &&& r.1.bits == old(self).spec_treasury(*params, sum_share.bits, block_number)
            },
    {
        if sum_share.is_zero() {
            return (FixedPoint::zero(), FixedPoint::zero());
        }
        if self.payable.is_zero() {
            return (FixedPoint::zero(), FixedPoint::zero());
        }
        if block_number <= self.v_update_block {
            // More than one heartbeat of a worker may come in one block.
            return (FixedPoint::zero(), FixedPoint::zero());
        }
        let share = self.share();
        if share.is_zero() {
            return (FixedPoint::zero(), FixedPoint::zero());
        }
        let blocks = FixedPoint::from_int((block_number - self.v_update_block) as u64);
        let budget = share.saturating_div(sum_share).saturating_mul(params.budget_per_block).saturating_mul(
            blocks,
        );
        let to_payout = budget.saturating_mul(params.payout_ration);
        let to_treasury = budget.saturating_mul(params.treasury_ration);

        let actual_payout = self.payable.max(FixedPoint::zero()).min(to_payout);
        let actual_treasury = if to_payout.is_zero() {
            FixedPoint::zero()
        } else {
            actual_payout.saturating_div(to_payout).saturating_mul(to_treasury)
        };

        self.v = self.v.saturating_sub(actual_payout);
        self.payable = FixedPoint::zero();
        self.v_update_at = now_ms;
        self.v_update_block = block_number;

        self.last_payout = actual_payout;
        self.last_payout_at_block = block_number;
        self.total_payout = self.total_payout.saturating_add(actual_payout);
        self.total_payout_count = inc_count(self.total_payout_count);

        (actual_payout, actual_treasury)
    }

    /// Heartbeat failed or still unresponsive: V loses `slash_rate` of itself.
    pub fn update_v_slash(&mut self, params: &Params, block_number: u32)
        ensures
            *final(self) == old(self).spec_update_v_slash(*params, block_number),
    {
        let slash = self.v.saturating_mul(params.slash_rate);
        self.v = self.v.saturating_sub(slash);
        self.payable = FixedPoint::zero();

        self.last_slash = slash;
        self.last_slash_at_block = block_number;
        self.total_slash = self.total_slash.saturating_add(slash);
        self.total_slash_count = inc_count(self.total_slash_count);
    }

    pub fn share(&self) -> (r: FixedPoint)
        ensures
            r.bits == self.spec_share(),
    {
        let p = FixedPoint::from_bits(TWO_BITS).saturating_mul(self.p_instant).saturating_mul(
            conf_score(self.confidence_level),
        );
        square(self.v).saturating_add(square(p)).sqrt()
    }

    /// Measures the performance from the iterations reported at `now`.
    pub fn update_p_instant(&mut self, now: u64, iterations: u64)
        ensures
            *final(self) == old(self).spec_update_p_instant(now, iterations),
    {
        if now <= self.challenge_time_last {
            return;
        }
        if iterations < self.iteration_last {
            // The worker has rebooted.
            self.iteration_last = iterations;
        }
        let elapsed = FixedPoint::from_int(now - self.challenge_time_last);
        let dt = elapsed.div_int(MS_PER_SEC);
        proof {
            let d = (now - self.challenge_time_last) as int;
            assert(d * ONE_BITS >= ONE_BITS) by (nonlinear_arith)
                requires
                    d >= 1,
            ;
            assert((d * ONE_BITS) / 1000 >= 1) by (nonlinear_arith)
                requires
                    d * ONE_BITS >= ONE_BITS,
                    ONE_BITS > 1000,
            ;
        }
        let done = FixedPoint::from_int(iterations - self.iteration_last);
        let p = done.saturating_div(dt).saturating_mul_int(ITERATION_WINDOW_SECS);
        self.p_instant = p.min(self.p_bench.saturating_mul(FixedPoint::from_bits(P_CAP_RATIO_BITS)));
    }
}

} // verus!

verus! {

/// V never exceeds `v_max` after an idle block, and a record within the
/// bound stays within it through a payout and a slash.
pub proof fn lemma_v_bound(t: TokenomicInfo, params: Params, sum_share: u128, now_ms: u64, block_number: u32)
    ensures
        t.spec_update_v_idle(params).v.bits <= params.v_max.bits,
        t.v.bits <= params.v_max.bits ==> t.spec_paid(params, sum_share, now_ms, block_number).v.bits
            <= params.v_max.bits,
        t.v.bits <= params.v_max.bits ==> t.spec_update_v_slash(params, block_number).v.bits
            <= params.v_max.bits,
{
}

} // verus!
