use vstd::prelude::*;
use crate::fixed::MAX_SCALAR;

verus! {

/// Microseconds in one second.
pub const MICROS_PER_SECOND: u64 = 1_000_000;

/// What main thrust does once the thrust key is released.
#[derive(Clone, Copy, Debug, PartialEq, Eq, Structural)]
pub enum ReleasePolicy {
    /// Spool down at `thrust_ramp_down` per second.
    RampDown,
    /// Drop to zero at once.
    Snap,
}

/// Limits and rates of the engines, in fixed-point units (per second for rates).
#[derive(Clone, Copy, Debug, PartialEq, Eq, Structural)]
pub struct ControlConfig {
    pub max_thrust: u64,
    pub max_ecs: u64,
    pub thrust_ramp_up: u64,
    pub thrust_ramp_down: u64,
    pub ecs_rate: u64,
    pub release: ReleasePolicy,
}

/// The keys held during a tick.
#[derive(Clone, Copy, Debug, PartialEq, Eq, Structural)]
pub struct ControlInput {
    pub thrust: bool,
    pub left: bool,
    pub right: bool,
}

/// Commanded main thrust and left/right attitude authority.
#[derive(Clone, Copy, Debug, PartialEq, Eq, Structural)]
pub struct EngineCommand {
    pub main_thrust: u64,
    pub left_authority: u64,
    pub right_authority: u64,
}

impl ControlConfig {
    pub open spec fn wf(self) -> bool {
        &&& self.max_thrust <= MAX_SCALAR
        &&& self.max_ecs <= MAX_SCALAR
        &&& self.thrust_ramp_up <= MAX_SCALAR
        &&& self.thrust_ramp_down <= MAX_SCALAR
        &&& self.ecs_rate <= MAX_SCALAR
    }

    /// The rocket's engines: thrust up to 6.5 rising 2.0 per second and
    /// falling 3.0 per second, attitude authority up to 3.0 rising 0.1 per second.
    pub fn standard() -> (r: ControlConfig)
        ensures
            r.wf(),
            r.max_thrust == 6_500_000,
            r.max_ecs == 3_000_000,
            r.thrust_ramp_up == 2_000_000,
            r.thrust_ramp_down == 3_000_000,
            r.ecs_rate == 100_000,
            r.release == ReleasePolicy::RampDown,
    {
        ControlConfig {
            max_thrust: 6_500_000,
            max_ecs: 3_000_000,
            thrust_ramp_up: 2_000_000,
            thrust_ramp_down: 3_000_000,
            ecs_rate: 100_000,
            release: ReleasePolicy::RampDown,
        }
    }
}

impl ControlInput {
    pub fn idle() -> (r: ControlInput)
        ensures
            !r.thrust && !r.left && !r.right,
    {
        ControlInput { thrust: false, left: false, right: false }
    }
}

impl EngineCommand {
    /// Every field lies within the limits of `cfg`.
    pub open spec fn within(self, cfg: ControlConfig) -> bool {
        &&& self.main_thrust <= cfg.max_thrust
        &&& self.left_authority <= cfg.max_ecs
        &&& self.right_authority <= cfg.max_ecs
    }

    pub open spec fn bounded(self) -> bool {
        &&& self.main_thrust <= MAX_SCALAR
        &&& self.left_authority <= MAX_SCALAR
        &&& self.right_authority <= MAX_SCALAR
    }

    /// All engines off.
    pub fn off() -> (r: EngineCommand)
        ensures
            r.main_thrust == 0 && r.left_authority == 0 && r.right_authority == 0,
    {
        EngineCommand { main_thrust: 0, left_authority: 0, right_authority: 0 }
    }
}

/// The change of a quantity moving at `rate` per second over `dt` microseconds,
/// rounded down.
pub open spec fn step_amount(rate: int, dt: int) -> int {
    rate * dt / (MICROS_PER_SECOND as int)
}

pub open spec fn ramp_up(value: int, rate: int, dt: int, max: int) -> int {
    if value + step_amount(rate, dt) <= max {
        value + step_amount(rate, dt)
    } else {
        max
    }
}

pub open spec fn ramp_down(value: int, rate: int, dt: int) -> int {
    if value - step_amount(rate, dt) >= 0 {
        value - step_amount(rate, dt)
    } else {
        0
    }
}

pub open spec fn next_main_thrust(cfg: ControlConfig, prev: EngineCommand, input: ControlInput, dt: int) -> int {
    if input.thrust {
        ramp_up(prev.main_thrust as int, cfg.thrust_ramp_up as int, dt, cfg.max_thrust as int)
    } else {
        match cfg.release {
            ReleasePolicy::RampDown => ramp_down(prev.main_thrust as int, cfg.thrust_ramp_down as int, dt),
            ReleasePolicy::Snap => 0,
        }
    }
}

pub open spec fn next_authority(held: bool, prev: int, cfg: ControlConfig, dt: int) -> int {
    if held {
        ramp_up(prev, cfg.ecs_rate as int, dt, cfg.max_ecs as int)
    } else {
        0
    }
}

/// The command after one tick of `dt` microseconds with the keys of `input` held.
pub open spec fn next_command(cfg: ControlConfig, prev: EngineCommand, input: ControlInput, dt: int) -> EngineCommand {
    EngineCommand {
        main_thrust: next_main_thrust(cfg, prev, input, dt) as u64,
        left_authority: next_authority(input.left, prev.left_authority as int, cfg, dt) as u64,
        right_authority: next_authority(input.right, prev.right_authority as int, cfg, dt) as u64,
    }
}

/// `value` raised at `rate` per second over `dt` microseconds, held at `max`.
fn raise(value: u64, rate: u64, dt: u64, max: u64) -> (r: u64)
    requires
        value <= max,
        rate <= MAX_SCALAR,
    ensures
        r == ramp_up(value as int, rate as int, dt as int, max as int),
{
    proof {
        assert(rate * dt <= MAX_SCALAR * 0xffff_ffff_ffff_ffff) by (nonlinear_arith)
            requires
                rate <= MAX_SCALAR,
                dt <= 0xffff_ffff_ffff_ffff,
        ;
    }
    let step: u128 = (rate as u128) * (dt as u128) / (MICROS_PER_SECOND as u128);
    if (value as u128) + step <= max as u128 {
        (value as u128 + step) as u64
    } else {
        max
    }
}

/// `value` lowered at `rate` per second over `dt` microseconds, held at zero.
fn lower(value: u64, rate: u64, dt: u64) -> (r: u64)
    requires
        rate <= MAX_SCALAR,
    ensures
        r == ramp_down(value as int, rate as int, dt as int),
{
    proof {
        assert(rate * dt <= MAX_SCALAR * 0xffff_ffff_ffff_ffff) by (nonlinear_arith)
            requires
                rate <= MAX_SCALAR,
                dt <= 0xffff_ffff_ffff_ffff,
        ;
    }
    let step: u128 = (rate as u128) * (dt as u128) / (MICROS_PER_SECOND as u128);
    if step <= value as u128 {
        (value as u128 - step) as u64
    } else {
        0
    }
}

/// Maps the held keys and the tick length `dt` (microseconds) to the next
/// engine command, starting from the previous one.
pub fn map_controls(cfg: &ControlConfig, prev: &EngineCommand, input: &ControlInput, dt: u64) -> (r: EngineCommand)
    requires
        cfg.wf(),
        prev.within(*cfg),
    ensures
        r == next_command(*cfg, *prev, *input, dt as int),
        r.within(*cfg),
{
    let main_thrust = if input.thrust {
        raise(prev.main_thrust, cfg.thrust_ramp_up, dt, cfg.max_thrust)
    } else {
        match cfg.release {
            ReleasePolicy::RampDown => lower(prev.main_thrust, cfg.thrust_ramp_down, dt),
            ReleasePolicy::Snap => 0,
        }
    };
    let left_authority = if input.left {
        raise(prev.left_authority, cfg.ecs_rate, dt, cfg.max_ecs)
    } else {
        0
    };
    let right_authority = if input.right {
        raise(prev.right_authority, cfg.ecs_rate, dt, cfg.max_ecs)
    } else {
        0
    };
    EngineCommand { main_thrust, left_authority, right_authority }
}

/// The command after the first `n` ticks of `ticks` (keys held, tick length
/// in microseconds), starting from `start`.
pub open spec fn command_after(cfg: ControlConfig, start: EngineCommand, ticks: Seq<(ControlInput, u64)>, n: nat) -> EngineCommand
    decreases n,
{
    if n == 0 {
        start
    } else {
        let prev = command_after(cfg, start, ticks, (n - 1) as nat);
        next_command(cfg, prev, ticks[n - 1].0, ticks[n - 1].1 as int)
    }
}

/// Every command of a trace stays within the limits of the configuration.
pub proof fn lemma_trace_within(cfg: ControlConfig, start: EngineCommand, ticks: Seq<(ControlInput, u64)>, n: nat)
    requires
        cfg.wf(),
        start.within(cfg),
        n <= ticks.len(),
    ensures
        command_after(cfg, start, ticks, n).within(cfg),
    decreases n,
{
    if n > 0 {
        lemma_trace_within(cfg, start, ticks, (n - 1) as nat);
        lemma_step_amount_nonneg(cfg, ticks[n - 1].1 as int);
    }
}

proof fn lemma_step_amount_nonneg(cfg: ControlConfig, dt: int)
    requires
        dt >= 0,
    ensures
        step_amount(cfg.thrust_ramp_up as int, dt) >= 0,
        step_amount(cfg.thrust_ramp_down as int, dt) >= 0,
        step_amount(cfg.ecs_rate as int, dt) >= 0,
{
    assert(cfg.thrust_ramp_up * dt >= 0) by (nonlinear_arith)
        requires
            cfg.thrust_ramp_up >= 0,
            dt >= 0,
    ;
    assert(cfg.thrust_ramp_down * dt >= 0) by (nonlinear_arith)
        requires
            cfg.thrust_ramp_down >= 0,
            dt >= 0,
    ;
    assert(cfg.ecs_rate * dt >= 0) by (nonlinear_arith)
        requires
            cfg.ecs_rate >= 0,
            dt >= 0,
    ;
}

/// While the thrust key stays held, main thrust never exceeds the maximum
/// and never falls from one tick to a later one, whatever the tick lengths.
pub proof fn lemma_held_thrust_rises_within_max(
    cfg: ControlConfig,
    start: EngineCommand,
    ticks: Seq<(ControlInput, u64)>,
    i: nat,
    j: nat,
)
    requires
        cfg.wf(),
        start.within(cfg),
        i <= j <= ticks.len(),
        forall|k: int| 0 <= k < ticks.len() ==> (#[trigger] ticks[k]).0.thrust,
    ensures
        command_after(cfg, start, ticks, i).main_thrust <= command_after(cfg, start, ticks, j).main_thrust,
        command_after(cfg, start, ticks, j).main_thrust <= cfg.max_thrust,
    decreases j,
{
    lemma_trace_within(cfg, start, ticks, j);
    if i < j {
        lemma_held_thrust_rises_within_max(cfg, start, ticks, i, (j - 1) as nat);
        lemma_step_amount_nonneg(cfg, ticks[j - 1].1 as int);
        assert(ticks[j - 1].0.thrust);
    }
}

/// Each field moves by at most its configured rate times the tick length,
/// except that released attitude authority and, under the snap policy,
/// released main thrust drop to zero.
pub proof fn lemma_rate_limited(cfg: ControlConfig, prev: EngineCommand, input: ControlInput, dt: u64)
    requires
        cfg.wf(),
        prev.within(cfg),
    ensures
        input.thrust ==> prev.main_thrust <= next_command(cfg, prev, input, dt as int).main_thrust
            <= prev.main_thrust + step_amount(cfg.thrust_ramp_up as int, dt as int),
        !input.thrust && cfg.release == ReleasePolicy::RampDown ==> prev.main_thrust - step_amount(
            cfg.thrust_ramp_down as int,
            dt as int,
        ) <= next_command(cfg, prev, input, dt as int).main_thrust <= prev.main_thrust,
        input.left ==> prev.left_authority <= next_command(cfg, prev, input, dt as int).left_authority
            <= prev.left_authority + step_amount(cfg.ecs_rate as int, dt as int),
        input.right ==> prev.right_authority <= next_command(cfg, prev, input, dt as int).right_authority
            <= prev.right_authority + step_amount(cfg.ecs_rate as int, dt as int),
{
    lemma_step_amount_nonneg(cfg, dt as int);
}

/// Releasing a key: with the snap policy main thrust is zero after the tick;
/// with the ramp-down policy positive thrust strictly falls, provided the tick
/// is long enough to lower it by at least one step; released attitude
/// authority is zero after the tick, always.
pub proof fn lemma_release(cfg: ControlConfig, prev: EngineCommand, input: ControlInput, dt: u64)
    requires
        cfg.wf(),
        prev.within(cfg),
    ensures
        !input.thrust && cfg.release == ReleasePolicy::Snap ==> next_command(cfg, prev, input, dt as int).main_thrust == 0,
        !input.thrust && cfg.release == ReleasePolicy::RampDown && prev.main_thrust > 0
            && step_amount(cfg.thrust_ramp_down as int, dt as int) > 0
            ==> next_command(cfg, prev, input, dt as int).main_thrust < prev.main_thrust,
        !input.left ==> next_command(cfg, prev, input, dt as int).left_authority == 0,
        !input.right ==> next_command(cfg, prev, input, dt as int).right_authority == 0,
{
}

/// Over a run of ticks with the thrust key released, main thrust falls
/// strictly from each tick to the next while it is positive (ramp-down policy,
/// ticks long enough to lower it by a step), and is zero after every tick
/// (snap policy).
pub proof fn lemma_released_thrust_falls(
    cfg: ControlConfig,
    start: EngineCommand,
    ticks: Seq<(ControlInput, u64)>,
    n: nat,
)
    requires
        cfg.wf(),
        start.within(cfg),
        n < ticks.len(),
        !ticks[n as int].0.thrust,
    ensures
        cfg.release == ReleasePolicy::Snap ==> command_after(cfg, start, ticks, n + 1).main_thrust == 0,
        cfg.release == ReleasePolicy::RampDown && command_after(cfg, start, ticks, n).main_thrust > 0
            && step_amount(cfg.thrust_ramp_down as int, ticks[n as int].1 as int) > 0
            ==> command_after(cfg, start, ticks, n + 1).main_thrust < command_after(cfg, start, ticks, n).main_thrust,
{
    lemma_trace_within(cfg, start, ticks, n);
    lemma_release(cfg, command_after(cfg, start, ticks, n), ticks[n as int].0, ticks[n as int].1);
    assert(command_after(cfg, start, ticks, n + 1) == next_command(
        cfg,
        command_after(cfg, start, ticks, n),
        ticks[n as int].0,
        ticks[n as int].1 as int,
    ));
}

} // verus!
