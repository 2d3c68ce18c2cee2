//! The PID regulator that trims the left wheel.
//!
//! The right wheel is the base wheel: it runs at the commanded speed.  The
//! left wheel is the slave wheel: after every encoder snapshot its speed is
//! set to the base speed plus a correction, so that it makes as many ticks
//! as the base wheel.  The correction is the sum of a term proportional to
//! the difference in ticks, an integral term, and a derivative term on the
//! slave wheel's own ticks.  The correction and the integral term are cut
//! off so that the slave speed stays between 0 and 100 percent.
//!
//! The gains are applied as they are given, once per snapshot: whoever
//! chooses them accounts for the pace of the snapshots.
use crate::event::MotorRunStat;
use crate::fixed::{clamp, micros_of, saturate, Fixed};
use crate::motor::is_percentage;
use vstd::prelude::*;

verus! {

/// The state of the slave wheel.
#[derive(Clone, Copy, Debug, PartialEq, Eq, Structural)]
pub struct WheelState {
    /// The integral term.
    pub i_term: Fixed,
    /// The ticks of the previous cycle, if there was one.
    pub last_ticks: Option<i32>,
    /// The ticks of this cycle.
    pub current_ticks: i32,
    /// The speed in percent.
    pub speed: Fixed,
}

/// The state of the base wheel.
#[derive(Clone, Copy, Debug, PartialEq, Eq, Structural)]
pub struct BaseWheelState {
    /// The ticks of this cycle.
    pub current_ticks: i32,
    /// The speed in percent.
    pub speed: Fixed,
}

/// The gains of the regulator.
#[derive(Clone, Copy, Debug, PartialEq, Eq, Structural)]
pub struct Pid {
    pub p: Fixed,
    pub i: Fixed,
    pub d: Fixed,
}

impl WheelState {
    /// A slave wheel at the given speed that has not run a cycle yet.
    pub open spec fn fresh(speed: Fixed) -> WheelState {
        WheelState { i_term: Fixed { micros: 0 }, last_ticks: None, current_ticks: 0, speed }
    }

    /// This wheel with the ticks of the current cycle replaced.
    pub open spec fn with_ticks(self, ticks: i32) -> WheelState {
        WheelState { current_ticks: ticks, ..self }
    }

    /// Makes a slave wheel at the given speed that has not run a cycle yet.
    pub fn new(speed: Fixed) -> (r: WheelState)
        ensures
            r == WheelState::fresh(speed),
    {
        WheelState { i_term: Fixed::zero(), last_ticks: None, current_ticks: 0, speed }
    }

    /// Records the ticks of the current cycle.
    pub fn set_ticks(&mut self, ticks: i32)
        ensures
            *final(self) == old(self).with_ticks(ticks),
    {
        self.current_ticks = ticks;
    }
}

impl BaseWheelState {
    /// A base wheel at the given speed with no ticks.
    pub open spec fn fresh(speed: Fixed) -> BaseWheelState {
        BaseWheelState { current_ticks: 0, speed }
    }

    /// This wheel with the ticks of the current cycle replaced.
    pub open spec fn with_ticks(self, ticks: i32) -> BaseWheelState {
        BaseWheelState { current_ticks: ticks, ..self }
    }

    /// Makes a base wheel at the given speed with no ticks.
    pub fn new(speed: Fixed) -> (r: BaseWheelState)
        ensures
            r == BaseWheelState::fresh(speed),
    {
        BaseWheelState { current_ticks: 0, speed }
    }

    /// Records the ticks of the current cycle.
    pub fn set_ticks(&mut self, ticks: i32)
        ensures
            *final(self) == old(self).with_ticks(ticks),
    {
        self.current_ticks = ticks;
    }
}

/// The error of a cycle: the ticks that the base wheel is ahead.
pub open spec fn tick_error(ws: WheelState, base: BaseWheelState) -> int {
    base.current_ticks - ws.current_ticks
}

/// The lowest correction: the one that brings the slave speed down to 0.
pub open spec fn output_min(base: BaseWheelState) -> int {
    -base.speed.micros
}

/// The highest correction: the one that brings the slave speed up to 100.
pub open spec fn output_max(base: BaseWheelState) -> int {
    100_000_000 - base.speed.micros
}

/// The change of the slave wheel's ticks against the previous cycle; 0 in
/// the first cycle.
pub open spec fn input_delta(ws: WheelState) -> int {
    match ws.last_ticks {
        Some(last) => ws.current_ticks - last,
        None => 0,
    }
}

/// The proportional term of a cycle, in millionths.
pub open spec fn p_term_of(ws: WheelState, base: BaseWheelState, pid: Pid) -> int {
    pid.p.micros * tick_error(ws, base)
}

/// The derivative term of a cycle, in millionths.
pub open spec fn d_term_of(ws: WheelState, pid: Pid) -> int {
    pid.d.micros * input_delta(ws)
}

/// The integral term after a cycle, in millionths: the term before it plus
/// the weighted error, cut off at the bounds of the correction.
pub open spec fn i_term_of(ws: WheelState, base: BaseWheelState, pid: Pid) -> int {
    clamp(
        ws.i_term.micros + pid.i.micros * tick_error(ws, base),
        output_min(base),
        output_max(base),
    )
}

/// The correction of a cycle, in millionths: the proportional term plus the
/// integral term from before this cycle less the derivative term, cut off
/// at its bounds.
pub open spec fn output_of(ws: WheelState, base: BaseWheelState, pid: Pid) -> int {
    clamp(
        p_term_of(ws, base, pid) + ws.i_term.micros - d_term_of(ws, pid),
        output_min(base),
        output_max(base),
    )
}

/// The slave wheel after a cycle.
pub open spec fn next_wheel(ws: WheelState, base: BaseWheelState, pid: Pid) -> WheelState {
    WheelState {
        i_term: Fixed { micros: i_term_of(ws, base, pid) as i64 },
        last_ticks: Some(ws.current_ticks),
        current_ticks: 0,
        speed: Fixed { micros: (base.speed.micros + output_of(ws, base, pid)) as i64 },
    }
}

/// The telemetry of a cycle.  The proportional and the derivative term are
/// cut off at the range of a `Fixed`.
pub open spec fn cycle_stat(ws: WheelState, base: BaseWheelState, pid: Pid, duration: i32)
    -> MotorRunStat {
    MotorRunStat {
        speed_base: base.speed,
        speed_slave: next_wheel(ws, base, pid).speed,
        ticks_base: base.current_ticks,
        ticks_slave: ws.current_ticks,
        error: Fixed { micros: micros_of(tick_error(ws, base)) as i64 },
        p_term: Fixed { micros: saturate(p_term_of(ws, base, pid)) as i64 },
        i_term: next_wheel(ws, base, pid).i_term,
        d_term: Fixed { micros: saturate(d_term_of(ws, pid)) as i64 },
        duration,
    }
}

/// The product of a gain and a count of ticks, in millionths.
fn weighted(gain: Fixed, ticks: i64) -> (r: i128)
    requires
        -0x1_0000_0000 <= ticks <= 0x1_0000_0000,
    ensures
        r == gain.micros * ticks,
        -0x8000_0000_0000_0000_0000_0000 <= r <= 0x8000_0000_0000_0000_0000_0000,
{
    let g: i128 = gain.micros as i128;
    let t: i128 = ticks as i128;
    assert(-0x8000_0000_0000_0000_0000_0000 <= g * t <= 0x8000_0000_0000_0000_0000_0000)
        by (nonlinear_arith)
        requires
            -0x8000_0000_0000_0000 <= g <= 0x8000_0000_0000_0000,
            -0x1_0000_0000 <= t <= 0x1_0000_0000,
    ;
    g * t
}

/// Cuts a wide value off at two bounds.
fn limit(x: i128, lo: i64, hi: i64) -> (r: i64)
    requires
        lo <= hi,
    ensures
        r == clamp(x as int, lo as int, hi as int),
{
    if x > hi as i128 {
        hi
    } else if x < lo as i128 {
        lo
    } else {
        x as i64
    }
}

/// Runs one cycle of the regulator: from the slave wheel and the base wheel
/// with the ticks of this cycle, computes the slave wheel for the next
/// cycle and the telemetry of this one.
pub fn next_wheel_state(
    ws: &WheelState,
    base_wheel: &BaseWheelState,
    pid: &Pid,
    duration: i32,
) -> (r: (WheelState, MotorRunStat))
    requires
        is_percentage(base_wheel.speed),
    ensures
        r.0 == next_wheel(*ws, *base_wheel, *pid),
        r.1 == cycle_stat(*ws, *base_wheel, *pid, duration),
        r.0.i_term.micros == i_term_of(*ws, *base_wheel, *pid),
        r.0.speed.micros == base_wheel.speed.micros + output_of(*ws, *base_wheel, *pid),
        is_percentage(r.0.speed),
{
    let error: i64 = base_wheel.current_ticks as i64 - ws.current_ticks as i64;
    let out_min: i64 = -base_wheel.speed.micros;
    let out_max: i64 = 100_000_000 - base_wheel.speed.micros;

    let i_term: i64 = limit(ws.i_term.micros as i128 + weighted(pid.i, error), out_min, out_max);

    let input_delta: i64 = match ws.last_ticks {
        Some(last) => ws.current_ticks as i64 - last as i64,
        None => 0,
    };
    let p_term: i128 = weighted(pid.p, error);
    let d_term: i128 = weighted(pid.d, input_delta);
    let output: i64 = limit(p_term + ws.i_term.micros as i128 - d_term, out_min, out_max);

    let wheel_state = WheelState {
        i_term: Fixed { micros: i_term },
        last_ticks: Some(ws.current_ticks),
        current_ticks: 0,
        speed: Fixed { micros: base_wheel.speed.micros + output },
    };
    let stat = MotorRunStat {
        speed_base: base_wheel.speed,
        speed_slave: wheel_state.speed,
        ticks_base: base_wheel.current_ticks,
        ticks_slave: ws.current_ticks,
        error: Fixed { micros: error * 1_000_000 },
        p_term: Fixed::saturating(p_term),
        i_term: wheel_state.i_term,
        d_term: Fixed::saturating(d_term),
        duration,
    };
    (wheel_state, stat)
}


/// After a cycle the correction lies within its bounds and the slave speed
/// is a percentage, whatever the gains and the ticks are.  The size of a
/// correction that speeds the wheel up is at most what the base speed
/// leaves below 100, and so is the size of every correction when the base
/// speed is at most 50.
pub proof fn lemma_correction_is_bounded(ws: WheelState, base: BaseWheelState, pid: Pid)
    requires
        is_percentage(base.speed),
    ensures
        output_min(base) <= output_of(ws, base, pid) <= output_max(base),
        next_wheel(ws, base, pid).speed.micros == base.speed.micros + output_of(ws, base, pid),
        is_percentage(next_wheel(ws, base, pid).speed),
        output_of(ws, base, pid) >= 0 ==> output_of(ws, base, pid) <= 100_000_000
            - base.speed.micros,
        base.speed.micros <= 50_000_000 ==> -(100_000_000 - base.speed.micros) <= output_of(
            ws,
            base,
            pid,
        ) <= 100_000_000 - base.speed.micros,
{
}

/// The slave wheel after `n` cycles in each of which the slave wheel made
/// `left` ticks and the base wheel `right` ticks.
pub open spec fn wheel_after(
    ws: WheelState,
    base: BaseWheelState,
    pid: Pid,
    left: i32,
    right: i32,
    n: nat,
) -> WheelState
    decreases n,
{
    if n == 0 {
        ws
    } else {
        next_wheel(
            wheel_after(ws, base, pid, left, right, (n - 1) as nat).with_ticks(left),
            base.with_ticks(right),
            pid,
        )
    }
}

/// The integral term of the slave wheel after `n` such cycles, in
/// millionths.
pub open spec fn i_term_after(
    ws: WheelState,
    base: BaseWheelState,
    pid: Pid,
    left: i32,
    right: i32,
    n: nat,
) -> int {
    wheel_after(ws, base, pid, left, right, n).i_term.micros as int
}

/// While the base wheel is ahead by the same number of ticks in every
/// cycle and the integral gain is not negative, the integral term never
/// falls, never exceeds the highest correction, and has made at least the
/// way that the cycles so far amount to, unless it has reached the highest
/// correction.
pub proof fn lemma_integral_climbs(
    ws: WheelState,
    base: BaseWheelState,
    pid: Pid,
    left: i32,
    right: i32,
    n: nat,
)
    requires
        is_percentage(base.speed),
        left < right,
        pid.i.micros >= 0,
        ws.i_term.micros <= output_max(base),
    ensures
        i_term_after(ws, base, pid, left, right, n) <= i_term_after(ws, base, pid, left, right, n + 1),
        i_term_after(ws, base, pid, left, right, n + 1) <= output_max(base),
        i_term_after(ws, base, pid, left, right, n) == output_max(base) || i_term_after(
            ws,
            base,
            pid,
            left,
            right,
            n,
        ) >= ws.i_term.micros + n * (pid.i.micros * (right - left)),
    decreases n,
{
    let step: int = pid.i.micros * (right - left);
    assert(step >= 0) by (nonlinear_arith)
        requires
            step == pid.i.micros * (right - left),
            pid.i.micros >= 0,
            right - left > 0,
    ;
    let now: WheelState = wheel_after(ws, base, pid, left, right, n);
    let then: WheelState = wheel_after(ws, base, pid, left, right, n + 1);
    assert(then == next_wheel(now.with_ticks(left), base.with_ticks(right), pid));
    assert(tick_error(now.with_ticks(left), base.with_ticks(right)) == right - left);
    assert(then.i_term.micros == clamp(
        now.i_term.micros + step,
        output_min(base),
        output_max(base),
    ));
    if n > 0 {
        lemma_integral_climbs(ws, base, pid, left, right, (n - 1) as nat);
        assert(n * step == (n - 1) * step + step) by (nonlinear_arith);
    } else {
        assert(n * step == 0) by (nonlinear_arith)
            requires
                n == 0,
        ;
    }
}

/// Integral windup stops at the highest correction: while the base wheel
/// is ahead by the same number of ticks in every cycle and the integral
/// gain is positive, the integral term equals the highest correction from
/// the cycle on at which the weighted errors add up to it, and at the
/// latest after as many cycles as there are millionths to go.
pub proof fn lemma_integral_saturates(
    ws: WheelState,
    base: BaseWheelState,
    pid: Pid,
    left: i32,
    right: i32,
    n: nat,
)
    requires
        is_percentage(base.speed),
        left < right,
        pid.i.micros > 0,
        ws.i_term.micros <= output_max(base),
    ensures
        ws.i_term.micros + n * (pid.i.micros * (right - left)) >= output_max(base)
            ==> i_term_after(ws, base, pid, left, right, n) == output_max(base),
        n >= output_max(base) - ws.i_term.micros ==> i_term_after(ws, base, pid, left, right, n)
            == output_max(base),
{
    lemma_integral_climbs(ws, base, pid, left, right, n);
    if n > 0 {
        lemma_integral_climbs(ws, base, pid, left, right, (n - 1) as nat);
    }
    let step: int = pid.i.micros * (right - left);
    assert(step >= 1) by (nonlinear_arith)
        requires
            step == pid.i.micros * (right - left),
            pid.i.micros > 0,
            right - left > 0,
    ;
    assert(n * step >= n) by (nonlinear_arith)
        requires
            step >= 1,
    ;
}

/// A cycle in which the slave wheel made as many ticks as in the cycle
/// before has no derivative term.
pub proof fn lemma_repeated_ticks_have_no_derivative(
    ws: WheelState,
    first_base: BaseWheelState,
    second_base: BaseWheelState,
    pid: Pid,
    ticks: i32,
    duration: i32,
)
    ensures
        ({
            let second: WheelState = next_wheel(ws.with_ticks(ticks), first_base, pid).with_ticks(
                ticks,
            );
            &&& input_delta(second) == 0
            &&& d_term_of(second, pid) == 0
            &&& cycle_stat(second, second_base, pid, duration).d_term.micros == 0
        }),
{
    let second: WheelState = next_wheel(ws.with_ticks(ticks), first_base, pid).with_ticks(ticks);
    assert(input_delta(second) == 0);
    assert(d_term_of(second, pid) == 0) by (nonlinear_arith)
        requires
            d_term_of(second, pid) == pid.d.micros * input_delta(second),
            input_delta(second) == 0,
    ;
}

} // verus!
