//! The command arbiter: merges raw velocity commands and the emergency stop into
//! one safe, rate-limited command per tick.
use crate::config::{LimitsConfig, SafetyConfig};
use crate::fixed::{elapsed, elapsed_spec, MIN_STEP_NS, NANOS_PER_MILLI, NANOS_PER_SEC};
use crate::messages::{
    DiagnosticStatus, Diagnostics, DiagnosticsView, VelocityCommand, VelocityCommandView,
};
use vstd::prelude::*;

verus! {

/// `value` held to the symmetric range that `max` bounds.
pub open spec fn clamp_spec(value: int, max: int) -> int {
    if value > max {
        max
    } else if value < -max {
        -max
    } else {
        value
    }
}

/// Holds one velocity component to `[-max, max]`; a value already inside is kept.
pub fn clamp(value: i64, max: u64) -> (r: i64)
    ensures
        r as int == clamp_spec(value as int, max as int),
        -(max as int) <= r as int <= max as int,
        -(max as int) <= value as int <= max as int ==> r == value,
{
    if max > i64::MAX as u64 {
        value
    } else {
        let m: i64 = max as i64;
        if value > m {
            m
        } else if value < -m {
            -m
        } else {
            value
        }
    }
}

/// The value one step away from `current` on the way to `target`, when a step
/// may cover at most `max_delta`.
pub open spec fn limit_delta_spec(current: int, target: int, max_delta: int) -> int {
    if target - current > max_delta {
        current + max_delta
    } else if target - current < -max_delta {
        current - max_delta
    } else {
        target
    }
}

/// Moves from `current` toward `target` by at most `max_delta`: by exactly that
/// much when the target is farther away, onto the target otherwise.
pub fn limit_delta(current: i64, target: i64, max_delta: u64) -> (r: i64)
    ensures
        r as int == limit_delta_spec(current as int, target as int, max_delta as int),
        current <= target ==> current <= r <= target,
        target <= current ==> target <= r <= current,
        -(max_delta as int) <= r as int - current as int <= max_delta as int,
{
    let delta: i128 = target as i128 - current as i128;
    let cap: i128 = max_delta as i128;
    if delta > cap {
        (current as i128 + cap) as i64
    } else if delta < -cap {
        (current as i128 - cap) as i64
    } else {
        target
    }
}

/// [`limit_delta`] with the target named first.
pub fn rate_limit(target: i64, current: i64, max_delta: u64) -> (r: i64)
    ensures
        r as int == limit_delta_spec(current as int, target as int, max_delta as int),
{
    limit_delta(current, target, max_delta)
}

/// The farthest a velocity may move in `dt_ns` at `rate` units per second squared.
pub open spec fn max_step_spec(rate: u64, dt_ns: u64) -> int {
    (rate as int * dt_ns as int) / (NANOS_PER_SEC as int)
}

/// The farthest a velocity may move in `dt_ns` at `rate`, saturating at the
/// largest `u64`.
pub fn max_step(rate: u64, dt_ns: u64) -> (step: u64)
    ensures
        step as int == if max_step_spec(rate, dt_ns) > u64::MAX {
            u64::MAX as int
        } else {
            max_step_spec(rate, dt_ns)
        },
{
    assert(0 <= rate as int * dt_ns as int <= 0xffff_ffff_ffff_ffff * 0xffff_ffff_ffff_ffff)
        by (nonlinear_arith)
        requires
            0 <= rate as int <= 0xffff_ffff_ffff_ffff,
            0 <= dt_ns as int <= 0xffff_ffff_ffff_ffff,
    ;
    let wide: u128 = (rate as u128 * dt_ns as u128) / (NANOS_PER_SEC as u128);
    if wide > u64::MAX as u128 {
        u64::MAX
    } else {
        wide as u64
    }
}

/// A step cap beyond the whole `u64` range limits nothing that a cap of
/// `u64::MAX` would not.
pub proof fn lemma_limit_delta_saturated(current: i64, target: i64, max_delta: int)
    requires
        max_delta >= u64::MAX,
    ensures
        limit_delta_spec(current as int, target as int, max_delta) == target,
        limit_delta_spec(current as int, target as int, u64::MAX as int) == target,
{
}

/// The raw command held to the per-axis maxima and retagged as the arbiter's own.
pub open spec fn clamp_velocity_spec(
    cmd: VelocityCommandView,
    limits: LimitsConfig,
    timestamp_ns: u64,
) -> VelocityCommandView {
    VelocityCommandView {
        timestamp_ns,
        vx_um_s: clamp_spec(cmd.vx_um_s, limits.max_vx_um_s as int),
        vy_um_s: clamp_spec(cmd.vy_um_s, limits.max_vy_um_s as int),
        omega_urad_s: clamp_spec(cmd.omega_urad_s, limits.max_omega_urad_s as int),
        source: "behavior_router"@,
        priority: cmd.priority,
    }
}

/// Holds each axis of `cmd` to its configured maximum and tags the result
/// `"behavior_router"`.
pub fn clamp_velocity(cmd: &VelocityCommand, limits: &LimitsConfig, timestamp_ns: u64) -> (out:
    VelocityCommand)
    ensures
        out@ == clamp_velocity_spec(cmd@, *limits, timestamp_ns),
{
    VelocityCommand {
        timestamp_ns,
        vx_um_s: clamp(cmd.vx_um_s, limits.max_vx_um_s),
        vy_um_s: clamp(cmd.vy_um_s, limits.max_vy_um_s),
        omega_urad_s: clamp(cmd.omega_urad_s, limits.max_omega_urad_s),
        source: "behavior_router".to_owned(),
        priority: cmd.priority,
    }
}

/// The target with each axis moved from `last` by no more than the acceleration
/// limits allow over `dt_ns`.
pub open spec fn apply_rate_limits_spec(
    last: VelocityCommandView,
    target: VelocityCommandView,
    limits: LimitsConfig,
    dt_ns: u64,
) -> VelocityCommandView {
    VelocityCommandView {
        vx_um_s: limit_delta_spec(
            last.vx_um_s,
            target.vx_um_s,
            max_step_spec(limits.max_accel_um_s2, dt_ns),
        ),
        vy_um_s: limit_delta_spec(
            last.vy_um_s,
            target.vy_um_s,
            max_step_spec(limits.max_accel_um_s2, dt_ns),
        ),
        omega_urad_s: limit_delta_spec(
            last.omega_urad_s,
            target.omega_urad_s,
            max_step_spec(limits.max_alpha_urad_s2, dt_ns),
        ),
        ..target
    }
}

/// Slew-rate limiting: the target, with each axis at most one step away from the
/// previous output.
pub fn apply_rate_limits(
    last: &VelocityCommand,
    target: &VelocityCommand,
    limits: &LimitsConfig,
    dt_ns: u64,
) -> (out: VelocityCommand)
    ensures
        out@ == apply_rate_limits_spec(last@, target@, *limits, dt_ns),
{
    let max_dv = max_step(limits.max_accel_um_s2, dt_ns);
    let max_dw = max_step(limits.max_alpha_urad_s2, dt_ns);
    proof {
        lemma_limit_delta_saturated(
            last.vx_um_s,
            target.vx_um_s,
            if max_step_spec(limits.max_accel_um_s2, dt_ns) > u64::MAX {
                max_step_spec(limits.max_accel_um_s2, dt_ns)
            } else {
                u64::MAX as int
            },
        );
        lemma_limit_delta_saturated(
            last.vy_um_s,
            target.vy_um_s,
            if max_step_spec(limits.max_accel_um_s2, dt_ns) > u64::MAX {
                max_step_spec(limits.max_accel_um_s2, dt_ns)
            } else {
                u64::MAX as int
            },
        );
        lemma_limit_delta_saturated(
            last.omega_urad_s,
            target.omega_urad_s,
            if max_step_spec(limits.max_alpha_urad_s2, dt_ns) > u64::MAX {
                max_step_spec(limits.max_alpha_urad_s2, dt_ns)
            } else {
                u64::MAX as int
            },
        );
    }
    VelocityCommand {
        timestamp_ns: target.timestamp_ns,
        vx_um_s: limit_delta(last.vx_um_s, target.vx_um_s, max_dv),
        vy_um_s: limit_delta(last.vy_um_s, target.vy_um_s, max_dv),
        omega_urad_s: limit_delta(last.omega_urad_s, target.omega_urad_s, max_dw),
        source: target.source.clone(),
        priority: target.priority,
    }
}

/// The safety state the arbiter is in at a tick.
#[derive(Debug, Clone, Copy, PartialEq, Eq, Structural)]
pub enum ArbiterMode {
    /// A fresh raw command is being followed.
    Normal,
    /// No raw command has arrived within the command timeout.
    TimedOut,
    /// The emergency stop is in force; it overrides a timeout.
    EstopActive,
}

/// The rolling state the arbiter owns between ticks.
#[derive(Debug)]
pub struct Arbiter {
    /// The raw command received last.
    pub last_cmd: VelocityCommand,
    /// When `last_cmd` arrived.
    pub last_seen_ns: u64,
    /// The command published by the previous tick.
    pub last_output: VelocityCommand,
    /// When the previous tick ran.
    pub last_update_ns: u64,
    /// When diagnostics were published last.
    pub last_diag_ns: u64,
    /// When the arbiter started.
    pub start_ns: u64,
    /// The emergency-stop flag received last.
    pub estop_active: bool,
}

/// The mathematical content of an [`Arbiter`].
pub struct ArbiterView {
    pub last_cmd: VelocityCommandView,
    pub last_seen_ns: u64,
    pub last_output: VelocityCommandView,
    pub last_update_ns: u64,
    pub last_diag_ns: u64,
    pub start_ns: u64,
    pub estop_active: bool,
}

impl View for Arbiter {
    type V = ArbiterView;

    open spec fn view(&self) -> ArbiterView {
        ArbiterView {
            last_cmd: self.last_cmd@,
            last_seen_ns: self.last_seen_ns,
            last_output: self.last_output@,
            last_update_ns: self.last_update_ns,
            last_diag_ns: self.last_diag_ns,
            start_ns: self.start_ns,
            estop_active: self.estop_active,
        }
    }
}

/// What one tick publishes: always a command, and a health summary when one is due.
#[derive(Debug)]
pub struct TickOutput {
    pub command: VelocityCommand,
    pub diagnostics: Option<Diagnostics>,
}

/// How often the arbiter ticks unless configured otherwise.
pub const TICK_HZ: u64 = 50;

/// How often diagnostics are published.
pub const DIAGNOSTICS_PERIOD_NS: u64 = 1_000_000_000;

impl ArbiterView {
    /// The state before anything was received: at rest, nothing seen, no estop.
    pub open spec fn initial(now_ns: u64, stamp_ns: u64) -> ArbiterView {
        ArbiterView {
            last_cmd: VelocityCommandView::zero("behavior_router"@, stamp_ns),
            last_seen_ns: now_ns,
            last_output: VelocityCommandView::zero("behavior_router"@, stamp_ns),
            last_update_ns: now_ns,
            last_diag_ns: now_ns,
            start_ns: now_ns,
            estop_active: false,
        }
    }

    /// True when the time since the last raw command exceeds the command timeout.
    pub open spec fn timed_out(self, safety: SafetyConfig, now_ns: u64) -> bool {
        elapsed_spec(now_ns, self.last_seen_ns) > safety.command_timeout_ms as nat * (
        NANOS_PER_MILLI as nat)
    }

    /// True when the emergency stop is raised and the configuration honours it.
    pub open spec fn estop_in_force(self, safety: SafetyConfig) -> bool {
        self.estop_active && safety.estop_enabled
    }

    /// The safety state at `now_ns`; the emergency stop overrides a timeout.
    pub open spec fn mode(self, safety: SafetyConfig, now_ns: u64) -> ArbiterMode {
        if self.estop_in_force(safety) {
            ArbiterMode::EstopActive
        } else if self.timed_out(safety, now_ns) {
            ArbiterMode::TimedOut
        } else {
            ArbiterMode::Normal
        }
    }

    /// The interval a tick at `now_ns` integrates over: the time since the
    /// previous tick, but never less than the minimum step.
    pub open spec fn step_ns(self, now_ns: u64) -> u64 {
        if elapsed_spec(now_ns, self.last_update_ns) < MIN_STEP_NS as nat {
            MIN_STEP_NS
        } else {
            elapsed_spec(now_ns, self.last_update_ns) as u64
        }
    }

    /// The command the arbiter steers toward, before rate limiting.
    pub open spec fn target(
        self,
        limits: LimitsConfig,
        safety: SafetyConfig,
        now_ns: u64,
        stamp_ns: u64,
    ) -> VelocityCommandView {
        match self.mode(safety, now_ns) {
            ArbiterMode::EstopActive => VelocityCommandView::zero("estop"@, stamp_ns),
            ArbiterMode::TimedOut => VelocityCommandView::zero("timeout"@, stamp_ns),
            ArbiterMode::Normal => clamp_velocity_spec(self.last_cmd, limits, stamp_ns),
        }
    }

    /// The command a tick at `now_ns` publishes.
    pub open spec fn output(
        self,
        limits: LimitsConfig,
        safety: SafetyConfig,
        now_ns: u64,
        stamp_ns: u64,
    ) -> VelocityCommandView {
        apply_rate_limits_spec(
            self.last_output,
            self.target(limits, safety, now_ns, stamp_ns),
            limits,
            self.step_ns(now_ns),
        )
    }

    /// True when a tick at `now_ns` also publishes diagnostics.
    pub open spec fn diagnostics_due(self, now_ns: u64) -> bool {
        elapsed_spec(now_ns, self.last_diag_ns) >= DIAGNOSTICS_PERIOD_NS as nat
    }

    /// The warning tags in force: `"command_timeout"` first, then `"estop_active"`.
    pub open spec fn warnings(self, safety: SafetyConfig, now_ns: u64) -> Seq<Seq<char>> {
        let stale = if self.timed_out(safety, now_ns) {
            seq!["command_timeout"@]
        } else {
            Seq::<Seq<char>>::empty()
        };
        if self.estop_active {
            stale.push("estop_active"@)
        } else {
            stale
        }
    }

    /// The health summary a tick at `now_ns` publishes when one is due: `Okay`
    /// with no warning in force, `Warn` otherwise.
    pub open spec fn diagnostics(self, safety: SafetyConfig, now_ns: u64, stamp_ns: u64)
        -> DiagnosticsView {
        DiagnosticsView {
            timestamp_ns: stamp_ns,
            status: if self.timed_out(safety, now_ns) || self.estop_active {
                DiagnosticStatus::Warn
            } else {
                DiagnosticStatus::Okay
            },
            warnings: self.warnings(safety, now_ns),
            last_error: None,
            uptime_ns: elapsed_spec(now_ns, self.start_ns) as u64,
        }
    }

    /// The state a tick at `now_ns` leaves behind.
    pub open spec fn after_tick(
        self,
        limits: LimitsConfig,
        safety: SafetyConfig,
        now_ns: u64,
        stamp_ns: u64,
    ) -> ArbiterView {
        ArbiterView {
            last_output: self.output(limits, safety, now_ns, stamp_ns),
            last_update_ns: now_ns,
            last_diag_ns: if self.diagnostics_due(now_ns) {
                now_ns
            } else {
                self.last_diag_ns
            },
            ..self
        }
    }
}

impl Arbiter {
    /// An arbiter at rest: no command seen, no emergency stop, output zero.
    /// `now_ns` is the monotonic clock, `stamp_ns` the time written into messages.
    pub fn new(now_ns: u64, stamp_ns: u64) -> (arbiter: Arbiter)
        ensures
            arbiter@ == ArbiterView::initial(now_ns, stamp_ns),
    {
        Arbiter {
            last_cmd: VelocityCommand::zero("behavior_router", stamp_ns),
            last_seen_ns: now_ns,
            last_output: VelocityCommand::zero("behavior_router", stamp_ns),
            last_update_ns: now_ns,
            last_diag_ns: now_ns,
            start_ns: now_ns,
            estop_active: false,
        }
    }

    /// Takes in a raw command: it replaces the previous one and restarts the
    /// command timeout.
    pub fn on_command(&mut self, cmd: VelocityCommand, now_ns: u64)
        ensures
            final(self)@ == (ArbiterView { last_cmd: cmd@, last_seen_ns: now_ns, ..old(self)@ }),
    {
        self.last_cmd = cmd;
        self.last_seen_ns = now_ns;
    }

    /// Takes in an emergency-stop signal: the latest flag stays in force until the
    /// next one.
    pub fn on_estop(&mut self, enabled: bool)
        ensures
            final(self)@ == (ArbiterView { estop_active: enabled, ..old(self)@ }),
    {
        self.estop_active = enabled;
    }

    /// True when the last raw command is older than the command timeout.
    pub fn timed_out(&self, safety: &SafetyConfig, now_ns: u64) -> (stale: bool)
        ensures
            stale == self@.timed_out(*safety, now_ns),
    {
        assert(safety.command_timeout_ms as nat * (NANOS_PER_MILLI as nat) <= u64::MAX as nat
            * 1_000_000) by (nonlinear_arith)
            requires
                safety.command_timeout_ms <= u64::MAX,
                NANOS_PER_MILLI == 1_000_000,
        ;
        let limit_ns: u128 = safety.command_timeout_ms as u128 * (NANOS_PER_MILLI as u128);
        elapsed(now_ns, self.last_seen_ns) as u128 > limit_ns
    }

    /// The safety state at `now_ns`.
    pub fn mode(&self, safety: &SafetyConfig, now_ns: u64) -> (mode: ArbiterMode)
        ensures
            mode == self@.mode(*safety, now_ns),
    {
        if self.estop_active && safety.estop_enabled {
            ArbiterMode::EstopActive
        } else if self.timed_out(safety, now_ns) {
            ArbiterMode::TimedOut
        } else {
            ArbiterMode::Normal
        }
    }

    /// The health summary for a tick at `now_ns`.
    pub fn diagnostics(&self, safety: &SafetyConfig, now_ns: u64, stamp_ns: u64) -> (diag:
        Diagnostics)
        ensures
            diag@ == self@.diagnostics(*safety, now_ns, stamp_ns),
    {
        let stale = self.timed_out(safety, now_ns);
        let mut warnings: Vec<String> = Vec::new();
        assert(warnings.deep_view() =~= Seq::<Seq<char>>::empty());
        if stale {
            warnings.push("command_timeout".to_owned());
            assert(warnings.deep_view() =~= seq!["command_timeout"@]);
        }
        let ghost before = warnings.deep_view();
        if self.estop_active {
            warnings.push("estop_active".to_owned());
            assert(warnings.deep_view() =~= before.push("estop_active"@));
        }
        let status = if warnings.is_empty() {
            DiagnosticStatus::Okay
        } else {
            DiagnosticStatus::Warn
        };
        Diagnostics {
            timestamp_ns: stamp_ns,
            status,
            warnings,
            last_error: None,
            uptime_ns: elapsed(now_ns, self.start_ns),
        }
    }

    /// One tick: settles the safety state, picks the target, limits its rate of
    /// change against the previous output, and publishes the result; once a
    /// second it also publishes diagnostics. A command comes out of every tick.
    pub fn tick(
        &mut self,
        limits: &LimitsConfig,
        safety: &SafetyConfig,
        now_ns: u64,
        stamp_ns: u64,
    ) -> (out: TickOutput)
        ensures
            out.command@ == old(self)@.output(*limits, *safety, now_ns, stamp_ns),
            out.diagnostics.is_some() == old(self)@.diagnostics_due(now_ns),
            out.diagnostics.is_some() ==> out.diagnostics.unwrap()@ == old(self)@.diagnostics(
                *safety,
                now_ns,
                stamp_ns,
            ),
            final(self)@ == old(self)@.after_tick(*limits, *safety, now_ns, stamp_ns),
    {
        let since_update = elapsed(now_ns, self.last_update_ns);
        let dt_ns = if since_update < MIN_STEP_NS {
            MIN_STEP_NS
        } else {
            since_update
        };
        let target = match self.mode(safety, now_ns) {
            ArbiterMode::EstopActive => VelocityCommand::zero("estop", stamp_ns),
            ArbiterMode::TimedOut => VelocityCommand::zero("timeout", stamp_ns),
            ArbiterMode::Normal => clamp_velocity(&self.last_cmd, limits, stamp_ns),
        };
        let output = apply_rate_limits(&self.last_output, &target, limits, dt_ns);
        let diagnostics = if elapsed(now_ns, self.last_diag_ns) >= DIAGNOSTICS_PERIOD_NS {
            let diag = self.diagnostics(safety, now_ns, stamp_ns);
            self.last_diag_ns = now_ns;
            Some(diag)
        } else {
            None
        };
        self.last_output = output.duplicate();
        self.last_update_ns = now_ns;
        TickOutput { command: output, diagnostics }
    }
}

/// True when every axis of `cmd` is within the configured maximum for that axis.
pub open spec fn within_limits(cmd: VelocityCommandView, limits: LimitsConfig) -> bool {
    &&& -(limits.max_vx_um_s as int) <= cmd.vx_um_s <= limits.max_vx_um_s as int
    &&& -(limits.max_vy_um_s as int) <= cmd.vy_um_s <= limits.max_vy_um_s as int
    &&& -(limits.max_omega_urad_s as int) <= cmd.omega_urad_s <= limits.max_omega_urad_s as int
}

/// Clamping law: against a maximum that is not negative, the clamped value lies
/// in `[-max, max]`, and a value already in that range is returned unchanged.
pub proof fn lemma_clamp_in_range(value: int, max: int)
    requires
        max >= 0,
    ensures
        -max <= clamp_spec(value, max) <= max,
        -max <= value <= max ==> clamp_spec(value, max) == value,
{
}

/// Slew-rate law: one step never moves the output by more than the cap, never
/// away from the target, and never past it.
pub proof fn lemma_limit_delta_bounded(previous: int, target: int, max_delta: int)
    requires
        max_delta >= 0,
    ensures
        -max_delta <= limit_delta_spec(previous, target, max_delta) - previous <= max_delta,
        previous <= target ==> previous <= limit_delta_spec(previous, target, max_delta)
            <= target,
        target <= previous ==> target <= limit_delta_spec(previous, target, max_delta)
            <= previous,
        -max_delta <= target - previous <= max_delta ==> limit_delta_spec(
            previous,
            target,
            max_delta,
        ) == target,
{
}

/// The value reached from `start` after `ticks` rate-limited steps toward a
/// target that stays put.
pub open spec fn ramp_spec(start: int, target: int, max_delta: int, ticks: nat) -> int
    decreases ticks,
{
    if ticks == 0 {
        start
    } else {
        ramp_spec(
            limit_delta_spec(start, target, max_delta),
            target,
            max_delta,
            (ticks - 1) as nat,
        )
    }
}

/// Ramp law: steps toward a fixed target cover one cap each until the target is
/// reached, and stay on it from then on; so the target is reached after the
/// first number of steps whose caps add up to the distance, and not sooner.
pub proof fn lemma_ramp(start: int, target: int, max_delta: int, ticks: nat)
    requires
        max_delta >= 0,
    ensures
        start <= target ==> ramp_spec(start, target, max_delta, ticks) == if start + ticks
            * max_delta >= target {
            target
        } else {
            start + ticks * max_delta
        },
        start >= target ==> ramp_spec(start, target, max_delta, ticks) == if start - ticks
            * max_delta <= target {
            target
        } else {
            start - ticks * max_delta
        },
    decreases ticks,
{
    if ticks == 0 {
        assert(ticks * max_delta == 0) by (nonlinear_arith)
            requires
                ticks == 0,
        ;
    } else {
        let next = limit_delta_spec(start, target, max_delta);
        let rest = (ticks - 1) as nat;
        lemma_ramp(next, target, max_delta, rest);
        assert(ticks * max_delta == rest * max_delta + max_delta && rest * max_delta >= 0) by
            (nonlinear_arith)
            requires
                rest == ticks - 1,
                ticks >= 1,
                max_delta >= 0,
        ;
    }
}

/// The cap on one step is never negative and never more than rate times time.
pub proof fn lemma_max_step_bounds(rate: u64, dt_ns: u64)
    ensures
        0 <= max_step_spec(rate, dt_ns),
        max_step_spec(rate, dt_ns) * (NANOS_PER_SEC as int) <= rate as int * dt_ns as int,
{
    let product = rate as int * dt_ns as int;
    assert(0 <= product) by (nonlinear_arith)
        requires
            product == rate as int * dt_ns as int,
            0 <= rate as int,
            0 <= dt_ns as int,
    ;
    assert(0 <= product / 1_000_000_000 && (product / 1_000_000_000) * 1_000_000_000 <= product)
        by (nonlinear_arith)
        requires
            0 <= product,
    ;
}

/// Slew-rate law for a whole command: on every axis the published value differs
/// from the previous output by no more than the acceleration limit allows over
/// the step, and lies between the previous output and the target.
pub proof fn lemma_rate_limited_output(
    last: VelocityCommandView,
    target: VelocityCommandView,
    limits: LimitsConfig,
    dt_ns: u64,
)
    ensures
        ({
            let out = apply_rate_limits_spec(last, target, limits, dt_ns);
            let dv = max_step_spec(limits.max_accel_um_s2, dt_ns);
            let dw = max_step_spec(limits.max_alpha_urad_s2, dt_ns);
            &&& -dv <= out.vx_um_s - last.vx_um_s <= dv
            &&& -dv <= out.vy_um_s - last.vy_um_s <= dv
            &&& -dw <= out.omega_urad_s - last.omega_urad_s <= dw
            &&& last.vx_um_s <= target.vx_um_s ==> last.vx_um_s <= out.vx_um_s <= target.vx_um_s
            &&& target.vx_um_s <= last.vx_um_s ==> target.vx_um_s <= out.vx_um_s <= last.vx_um_s
            &&& last.vy_um_s <= target.vy_um_s ==> last.vy_um_s <= out.vy_um_s <= target.vy_um_s
            &&& target.vy_um_s <= last.vy_um_s ==> target.vy_um_s <= out.vy_um_s <= last.vy_um_s
            &&& last.omega_urad_s <= target.omega_urad_s ==> last.omega_urad_s
                <= out.omega_urad_s <= target.omega_urad_s
            &&& target.omega_urad_s <= last.omega_urad_s ==> target.omega_urad_s
                <= out.omega_urad_s <= last.omega_urad_s
            &&& out.source == target.source
            &&& out.timestamp_ns == target.timestamp_ns
        }),
{
    lemma_max_step_bounds(limits.max_accel_um_s2, dt_ns);
    lemma_max_step_bounds(limits.max_alpha_urad_s2, dt_ns);
}

/// Timeout law: with the last raw command older than the timeout and no
/// emergency stop in force, the tick steers toward the zero command tagged
/// `"timeout"`; its output carries that tag, moves toward rest by at most one
/// step per axis, and is the zero command itself once the previous output is
/// within one step of rest.
pub proof fn lemma_timeout_stops(
    state: ArbiterView,
    limits: LimitsConfig,
    safety: SafetyConfig,
    now_ns: u64,
    stamp_ns: u64,
)
    requires
        state.timed_out(safety, now_ns),
        !state.estop_in_force(safety),
    ensures
        state.mode(safety, now_ns) == ArbiterMode::TimedOut,
        state.target(limits, safety, now_ns, stamp_ns) == VelocityCommandView::zero(
            "timeout"@,
            stamp_ns,
        ),
        state.output(limits, safety, now_ns, stamp_ns).source == "timeout"@,
        state.output(limits, safety, now_ns, stamp_ns) == apply_rate_limits_spec(
            state.last_output,
            VelocityCommandView::zero("timeout"@, stamp_ns),
            limits,
            state.step_ns(now_ns),
        ),
        within_one_step_of_rest(state.last_output, limits, state.step_ns(now_ns))
            ==> state.output(limits, safety, now_ns, stamp_ns) == VelocityCommandView::zero(
            "timeout"@,
            stamp_ns,
        ),
{
}

/// True when one rate-limited step can bring every axis of `cmd` to zero.
pub open spec fn within_one_step_of_rest(
    cmd: VelocityCommandView,
    limits: LimitsConfig,
    dt_ns: u64,
) -> bool {
    let dv = max_step_spec(limits.max_accel_um_s2, dt_ns);
    let dw = max_step_spec(limits.max_alpha_urad_s2, dt_ns);
    &&& -dv <= cmd.vx_um_s <= dv
    &&& -dv <= cmd.vy_um_s <= dv
    &&& -dw <= cmd.omega_urad_s <= dw
}

/// Emergency-stop law: while the stop is in force the tick steers toward the zero
/// command tagged `"estop"`, whatever raw command was received and whenever; its
/// output carries that tag and is the zero command itself once the previous
/// output is within one step of rest.
pub proof fn lemma_estop_overrides(
    state: ArbiterView,
    any_cmd: VelocityCommandView,
    any_seen_ns: u64,
    limits: LimitsConfig,
    safety: SafetyConfig,
    now_ns: u64,
    stamp_ns: u64,
)
    requires
        state.estop_in_force(safety),
    ensures
        state.mode(safety, now_ns) == ArbiterMode::EstopActive,
        state.target(limits, safety, now_ns, stamp_ns) == VelocityCommandView::zero(
            "estop"@,
            stamp_ns,
        ),
        state.output(limits, safety, now_ns, stamp_ns).source == "estop"@,
        (ArbiterView { last_cmd: any_cmd, last_seen_ns: any_seen_ns, ..state }).output(
            limits,
            safety,
            now_ns,
            stamp_ns,
        ) == state.output(limits, safety, now_ns, stamp_ns),
        within_one_step_of_rest(state.last_output, limits, state.step_ns(now_ns))
            ==> state.output(limits, safety, now_ns, stamp_ns) == VelocityCommandView::zero(
            "estop"@,
            stamp_ns,
        ),
{
}

/// Speed-limit invariant: a tick that starts from an output within the
/// configured maxima publishes an output within them, in every safety state.
pub proof fn lemma_output_within_limits(
    state: ArbiterView,
    limits: LimitsConfig,
    safety: SafetyConfig,
    now_ns: u64,
    stamp_ns: u64,
)
    requires
        within_limits(state.last_output, limits),
    ensures
        within_limits(state.output(limits, safety, now_ns, stamp_ns), limits),
        within_limits(state.after_tick(limits, safety, now_ns, stamp_ns).last_output, limits),
        within_limits(ArbiterView::initial(now_ns, stamp_ns).last_output, limits),
{
    let target = state.target(limits, safety, now_ns, stamp_ns);
    lemma_clamp_in_range(state.last_cmd.vx_um_s, limits.max_vx_um_s as int);
    lemma_clamp_in_range(state.last_cmd.vy_um_s, limits.max_vy_um_s as int);
    lemma_clamp_in_range(state.last_cmd.omega_urad_s, limits.max_omega_urad_s as int);
    assert(within_limits(target, limits));
    lemma_rate_limited_output(state.last_output, target, limits, state.step_ns(now_ns));
}

} // verus!
