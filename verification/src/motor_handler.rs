//! The drive controller: a state machine that turns commands, encoder
//! snapshots and heartbeats into requests to the motor bridge and into
//! telemetry.
//!
//! The controller is idle or moving.  A `Move` command starts a move and
//! replaces the one in progress, if any.  While moving, every encoder
//! snapshot adds the left wheel's ticks to the way made; when the tick
//! budget is used up the motors are stopped and the telemetry of the move
//! is reported, else the regulator runs a cycle and the two sides get their
//! new speeds.  A `Stop` command or a heartbeat that finds the last
//! snapshot more than two seconds old aborts the move without a report.
use crate::command::{Direction, MotorCommand};
use crate::event::{EncodersSnapshot, Event, EventView, MotorRunStat, TimedEvent, TimedEventView};
use crate::fixed::Fixed;
use crate::hardware::HardwareOp;
use crate::motor::{call_wf, is_percentage, BridgeCall, Dir, Motor, Side};
use crate::regulator::{cycle_stat, next_wheel, next_wheel_state, BaseWheelState, Pid, WheelState};
use vstd::prelude::*;

verus! {

/// The time between two heartbeats, in milliseconds.
pub const HEARTBEAT_MS: u64 = 1000;

/// The age in milliseconds beyond which the last snapshot is stale.
pub const STALE_MS: u64 = 2000;

/// The state of the controller.
#[derive(Clone, Debug, PartialEq, Eq)]
pub struct MotorState {
    pub direction: Direction,
    pub is_moving: bool,
    /// The time of the move's start or of its last snapshot, in
    /// milliseconds since the Unix epoch.
    pub heartbeat_touch: u64,
    pub ticks_to_move: i64,
    pub ticks_moved: i64,
    pub pid: Pid,
    /// The slave wheel.
    pub wheel_left: WheelState,
    /// The base wheel.
    pub wheel_right: BaseWheelState,
    /// The commanded speed in percent.
    pub speed: u8,
    /// The telemetry of the cycles of the move so far.
    pub motor_stats: Vec<MotorRunStat>,
}

/// What a `MotorState` holds, as mathematical values.
pub struct MoveState {
    pub direction: Direction,
    pub is_moving: bool,
    pub heartbeat_touch: u64,
    pub ticks_to_move: i64,
    pub ticks_moved: i64,
    pub pid: Pid,
    pub wheel_left: WheelState,
    pub wheel_right: BaseWheelState,
    pub speed: u8,
    pub motor_stats: Seq<MotorRunStat>,
}

impl View for MotorState {
    type V = MoveState;

    open spec fn view(&self) -> MoveState {
        MoveState {
            direction: self.direction,
            is_moving: self.is_moving,
            heartbeat_touch: self.heartbeat_touch,
            ticks_to_move: self.ticks_to_move,
            ticks_moved: self.ticks_moved,
            pid: self.pid,
            wheel_left: self.wheel_left,
            wheel_right: self.wheel_right,
            speed: self.speed,
            motor_stats: self.motor_stats@,
        }
    }
}

/// The speed of `speed` percent as a fixed-point number.
pub open spec fn percent(speed: u8) -> Fixed {
    Fixed { micros: (speed * 1_000_000) as i64 }
}

/// The senses in which the left and the right side turn for a direction:
/// the same sense on both sides to go straight, opposite senses to turn on
/// the spot.
pub open spec fn side_directions(direction: Direction) -> (Dir, Dir) {
    match direction {
        Direction::Forward => (Dir::Forward, Dir::Forward),
        Direction::Backward => (Dir::Backward, Dir::Backward),
        Direction::Right => (Dir::Forward, Dir::Backward),
        Direction::Left => (Dir::Backward, Dir::Forward),
    }
}

/// The requests that start a move: the senses of both sides, then the
/// commanded speed on both sides.
pub open spec fn move_calls(direction: Direction, speed: u8) -> Seq<BridgeCall> {
    seq![
        BridgeCall::SetDirection { side: Side::Left, direction: side_directions(direction).0 },
        BridgeCall::SetDirection { side: Side::Right, direction: side_directions(direction).1 },
        BridgeCall::SetSpeed { side: Side::Left, speed: percent(speed) },
        BridgeCall::SetSpeed { side: Side::Right, speed: percent(speed) },
    ]
}

impl MoveState {
    /// The state of a controller that has not moved yet.
    pub open spec fn idle() -> MoveState {
        MoveState {
            direction: Direction::Forward,
            is_moving: false,
            heartbeat_touch: 0,
            ticks_to_move: 0,
            ticks_moved: 0,
            pid: Pid { p: Fixed { micros: 0 }, i: Fixed { micros: 0 }, d: Fixed { micros: 0 } },
            wheel_left: WheelState::fresh(Fixed { micros: 0 }),
            wheel_right: BaseWheelState::fresh(Fixed { micros: 0 }),
            speed: 0,
            motor_stats: Seq::empty(),
        }
    }

    /// The state at the start of a move.  Nothing of an earlier state
    /// remains.
    pub open spec fn started(
        direction: Direction,
        speed: u8,
        ticks_to_move: u32,
        p: Fixed,
        i: Fixed,
        d: Fixed,
        now: u64,
    ) -> MoveState {
        MoveState {
            direction,
            is_moving: true,
            heartbeat_touch: now,
            ticks_to_move: ticks_to_move as i64,
            ticks_moved: 0,
            pid: Pid { p, i, d },
            wheel_left: WheelState::fresh(percent(speed)),
            wheel_right: BaseWheelState::fresh(percent(speed)),
            speed,
            motor_stats: Seq::empty(),
        }
    }

    /// The invariant of the controller: the base speed is a percentage,
    /// and during a move the tick budget is positive and not used up.
    pub open spec fn wf(self) -> bool {
        &&& is_percentage(self.wheel_right.speed)
        &&& self.is_moving ==> 0 <= self.ticks_moved < self.ticks_to_move <= u32::MAX
    }
}

/// What the controller does in reaction to one input: its next state, the
/// requests to the motor bridge in order, and the event that it reports,
/// if any.
pub struct Outcome {
    pub state: MoveState,
    pub calls: Seq<BridgeCall>,
    pub event: Option<TimedEventView>,
}

/// The reaction to a command.  `Move` sets the senses and the speed of
/// both sides and starts a move afresh; `Stop` stops the motors and ends
/// the move in progress, if any.  Neither reports an event.
pub open spec fn on_command_spec(s: MoveState, command: MotorCommand, now: u64) -> Outcome {
    match command {
        MotorCommand::Move { speed, direction, ticks, p, i, d } => Outcome {
            state: MoveState::started(direction, speed, ticks, p, i, d, now),
            calls: move_calls(direction, speed),
            event: None,
        },
        MotorCommand::Stop => Outcome {
            state: MoveState { is_moving: false, ..s },
            calls: seq![BridgeCall::Stop],
            event: None,
        },
    }
}

/// The report of a completed move: the telemetry of its cycles and its
/// gains, stamped with the time `now`.
pub open spec fn run_report(s: MoveState, now: u64) -> TimedEventView {
    TimedEventView {
        event: EventView::MotorRunStats {
            stats: s.motor_stats,
            p: s.pid.p,
            i: s.pid.i,
            d: s.pid.d,
        },
        time: now,
    }
}

/// The reaction to an encoder snapshot.  An idle controller ignores it.
/// A moving one adds the left ticks to the way made.  If that uses up the
/// tick budget, it stops the motors, becomes idle, and reports the
/// telemetry gathered so far, which it then forgets.  Otherwise the
/// regulator runs one cycle on the ticks of the snapshot, the telemetry of
/// the cycle is kept, and the left side gets the slave speed and the right
/// side the base speed.
pub open spec fn on_encoders_spec(s: MoveState, encoders: EncodersSnapshot, now: u64) -> Outcome {
    if !s.is_moving {
        Outcome { state: s, calls: Seq::empty(), event: None }
    } else if s.ticks_moved + encoders.left >= s.ticks_to_move {
        Outcome {
            state: MoveState {
                is_moving: false,
                heartbeat_touch: now,
                ticks_moved: (s.ticks_moved + encoders.left) as i64,
                motor_stats: Seq::empty(),
                ..s
            },
            calls: seq![BridgeCall::Stop],
            event: Some(run_report(s, now)),
        }
    } else {
        let slave = s.wheel_left.with_ticks(encoders.left as i32);
        let base = s.wheel_right.with_ticks(encoders.right as i32);
        Outcome {
            state: MoveState {
                heartbeat_touch: now,
                ticks_moved: (s.ticks_moved + encoders.left) as i64,
                wheel_left: next_wheel(slave, base, s.pid),
                wheel_right: base.with_ticks(0),
                motor_stats: s.motor_stats.push(cycle_stat(slave, base, s.pid, encoders.duration)),
                ..s
            },
            calls: seq![
                BridgeCall::SetSpeed { side: Side::Left, speed: next_wheel(slave, base, s.pid).speed },
                BridgeCall::SetSpeed { side: Side::Right, speed: base.speed },
            ],
            event: None,
        }
    }
}

/// Tells whether the watchdog trips at the time `now`: a move is in
/// progress and its last snapshot, or its start, is more than two seconds
/// old.
pub open spec fn is_starved(s: MoveState, now: u64) -> bool {
    s.is_moving && now - s.heartbeat_touch > 2000
}

/// The reaction to a heartbeat.  If the watchdog trips, the controller
/// stops the motors and becomes idle; it reports nothing.  Otherwise
/// nothing happens.
pub open spec fn on_heartbeat_spec(s: MoveState, now: u64) -> Outcome {
    if is_starved(s, now) {
        Outcome {
            state: MoveState { is_moving: false, ..s },
            calls: seq![BridgeCall::Stop],
            event: None,
        }
    } else {
        Outcome { state: s, calls: Seq::empty(), event: None }
    }
}

/// What the controller can be given.
#[derive(Clone, Copy, Debug, PartialEq, Eq, Structural)]
pub enum Input {
    Command { command: MotorCommand },
    Encoders { encoders: EncodersSnapshot },
    Heartbeat,
}

/// An input with the wall-clock time at which the controller takes it up,
/// in milliseconds since the Unix epoch.
#[derive(Clone, Copy, Debug, PartialEq, Eq, Structural)]
pub struct Message {
    pub input: Input,
    pub time: u64,
}

impl Message {
    /// A message is well formed when the command that it carries, if any,
    /// is.
    pub open spec fn wf(self) -> bool {
        match self.input {
            Input::Command { command } => command.wf(),
            _ => true,
        }
    }
}

/// The reaction to a message.
pub open spec fn step(s: MoveState, message: Message) -> Outcome {
    match message.input {
        Input::Command { command } => on_command_spec(s, command, message.time),
        Input::Encoders { encoders } => on_encoders_spec(s, encoders, message.time),
        Input::Heartbeat => on_heartbeat_spec(s, message.time),
    }
}

/// The writes that carry out a list of requests: those of each request in
/// turn where there is a bridge, none where there is not.
pub open spec fn bridge_writes(motor: Option<Motor>, calls: Seq<BridgeCall>) -> Seq<HardwareOp>
    decreases calls.len(),
{
    match motor {
        Some(m) => if calls.len() == 0 {
            Seq::empty()
        } else {
            bridge_writes(motor, calls.drop_last()) + m.call_ops(calls.last())
        },
        None => Seq::empty(),
    }
}

/// Tells whether every request of a list can be carried out.
pub open spec fn calls_wf(calls: Seq<BridgeCall>) -> bool {
    forall|k: int| 0 <= k < calls.len() ==> call_wf(#[trigger] calls[k])
}

/// What the controller hands back for one input.
#[derive(Clone, Debug, PartialEq, Eq)]
pub struct Reaction {
    /// The requests to the motor bridge, in order.
    pub calls: Vec<BridgeCall>,
    /// The hardware writes that carry the requests out, in order.  Empty
    /// where the hardware is absent.
    pub writes: Vec<HardwareOp>,
    /// The event to report, if any.
    pub event: Option<TimedEvent>,
}

/// What a `Reaction` holds, as mathematical values.
pub struct ReactionView {
    pub calls: Seq<BridgeCall>,
    pub writes: Seq<HardwareOp>,
    pub event: Option<TimedEventView>,
}

impl View for Reaction {
    type V = ReactionView;

    open spec fn view(&self) -> ReactionView {
        ReactionView {
            calls: self.calls@,
            writes: self.writes@,
            event: match self.event {
                Some(e) => Some(e@),
                None => None,
            },
        }
    }
}

/// The reaction that the controller hands back for an outcome, given the
/// bridge that it drives.
pub open spec fn reaction_of(motor: Option<Motor>, outcome: Outcome) -> ReactionView {
    ReactionView {
        calls: outcome.calls,
        writes: bridge_writes(motor, outcome.calls),
        event: outcome.event,
    }
}

impl MotorState {
    /// Makes the state of a controller that has not moved yet.
    pub fn new() -> (r: MotorState)
        ensures
            r@ == MoveState::idle(),
            r@.wf(),
    {
        MotorState {
            direction: Direction::Forward,
            is_moving: false,
            heartbeat_touch: 0,
            ticks_to_move: 0,
            ticks_moved: 0,
            pid: Pid { p: Fixed::zero(), i: Fixed::zero(), d: Fixed::zero() },
            speed: 0,
            wheel_left: WheelState::new(Fixed::zero()),
            wheel_right: BaseWheelState::new(Fixed::zero()),
            motor_stats: Vec::new(),
        }
    }

    /// Starts a move at the time `now`: every field is set anew from the
    /// command, and the telemetry of an earlier move is dropped.
    pub fn new_command(
        &mut self,
        direction: Direction,
        speed: u8,
        ticks_to_move: u32,
        p: Fixed,
        i: Fixed,
        d: Fixed,
        now: u64,
    )
        requires
            speed <= 100,
            ticks_to_move > 0,
        ensures
            final(self)@ == MoveState::started(direction, speed, ticks_to_move, p, i, d, now),
            final(self)@.wf(),
            final(self)@.is_moving,
            final(self)@.motor_stats.len() == 0,
    {
        let base_speed: Fixed = Fixed::from_int(speed as i32);
        self.is_moving = true;
        self.ticks_to_move = ticks_to_move as i64;
        self.direction = direction;
        self.pid = Pid { p, i, d };
        self.wheel_left = WheelState::new(base_speed);
        self.wheel_right = BaseWheelState::new(base_speed);
        self.speed = speed;
        self.ticks_moved = 0;
        self.heartbeat_touch = now;
        self.motor_stats = Vec::new();
    }
}

/// The state of the controller after it has taken up a list of messages
/// in order.
pub open spec fn state_after(s: MoveState, messages: Seq<Message>) -> MoveState
    decreases messages.len(),
{
    if messages.len() == 0 {
        s
    } else {
        step(state_after(s, messages.drop_last()), messages.last()).state
    }
}

/// The reaction to the message at index `k` of a list, when the controller
/// has taken up the messages before it.
pub open spec fn outcome_at(s: MoveState, messages: Seq<Message>, k: int) -> Outcome {
    step(state_after(s, messages.take(k)), messages[k])
}

/// Tells whether every message of a list is well formed.
pub open spec fn messages_wf(messages: Seq<Message>) -> bool {
    forall|k: int| 0 <= k < messages.len() ==> (#[trigger] messages[k]).wf()
}

/// The invariant of the controller survives every well-formed message.
pub proof fn lemma_step_keeps_invariant(s: MoveState, message: Message)
    requires
        s.wf(),
        message.wf(),
    ensures
        step(s, message).state.wf(),
        calls_wf(step(s, message).calls),
{
    match message.input {
        Input::Command { command } => {
            match command {
                MotorCommand::Move { speed, direction, ticks, p, i, d } => {
                    assert(is_percentage(percent(speed)));
                },
                MotorCommand::Stop => {},
            }
        },
        Input::Encoders { encoders } => {
            if s.is_moving && s.ticks_moved + encoders.left < s.ticks_to_move {
                let slave = s.wheel_left.with_ticks(encoders.left as i32);
                let base = s.wheel_right.with_ticks(encoders.right as i32);
                crate::regulator::lemma_correction_is_bounded(slave, base, s.pid);
            }
        },
        Input::Heartbeat => {},
    }
}

/// The drive controller with the motor bridge that it drives.  The bridge
/// is absent where the PWM controller could not be found: the controller
/// then works as ever, but yields no hardware writes.
#[derive(Clone, Debug, PartialEq, Eq)]
pub struct MotorHandler {
    pub state: MotorState,
    pub motor: Option<Motor>,
}

/// Computes the writes that carry out a list of requests.
fn writes_for(motor: &Option<Motor>, calls: &Vec<BridgeCall>) -> (writes: Vec<HardwareOp>)
    requires
        calls_wf(calls@),
    ensures
        writes@ == bridge_writes(*motor, calls@),
{
    let mut writes: Vec<HardwareOp> = Vec::new();
    match motor {
        Some(m) => {
            let mut k: usize = 0;
            while k < calls.len()
                invariant
                    k <= calls.len(),
                    calls_wf(calls@),
                    *motor == Some(*m),
                    writes@ == bridge_writes(*motor, calls@.take(k as int)),
                decreases calls.len() - k,
            {
                let mut ops: Vec<HardwareOp> = m.perform(&calls[k]);
                proof {
                    let longer = calls@.take(k + 1);
                    assert(longer.drop_last() =~= calls@.take(k as int));
                    assert(longer.last() == calls@[k as int]);
                }
                writes.append(&mut ops);
                k = k + 1;
            }
            proof {
                assert(calls@.take(k as int) =~= calls@);
            }
        },
        None => {},
    }
    writes
}

/// The pair of senses for a direction.
fn senses(direction: Direction) -> (r: (Dir, Dir))
    ensures
        r == side_directions(direction),
{
    match direction {
        Direction::Forward => (Dir::Forward, Dir::Forward),
        Direction::Backward => (Dir::Backward, Dir::Backward),
        Direction::Right => (Dir::Forward, Dir::Backward),
        Direction::Left => (Dir::Backward, Dir::Forward),
    }
}

impl MotorHandler {
    /// The invariant of the controller holds of the state.
    pub open spec fn wf(self) -> bool {
        self.state@.wf()
    }

    /// Makes an idle controller for the given bridge, or for none.
    pub fn new(motor: Option<Motor>) -> (r: MotorHandler)
        ensures
            r.state@ == MoveState::idle(),
            r.motor == motor,
            r.wf(),
    {
        MotorHandler { state: MotorState::new(), motor }
    }

    /// Packs the requests and the event of a reaction, with the writes
    /// that carry the requests out.
    fn react(&self, calls: Vec<BridgeCall>, event: Option<TimedEvent>) -> (r: Reaction)
        requires
            calls_wf(calls@),
        ensures
            r.calls@ == calls@,
            r.writes@ == bridge_writes(self.motor, calls@),
            r.event == event,
    {
        let writes: Vec<HardwareOp> = writes_for(&self.motor, &calls);
        Reaction { calls, writes, event }
    }

    /// Takes up a command at the time `now`.
    pub fn on_command(&mut self, command: MotorCommand, now: u64) -> (r: Reaction)
        requires
            old(self).wf(),
            command.wf(),
        ensures
            final(self).wf(),
            final(self).motor == old(self).motor,
            final(self).state@ == on_command_spec(old(self).state@, command, now).state,
            r@ == reaction_of(old(self).motor, on_command_spec(old(self).state@, command, now)),
            calls_wf(r@.calls),
            r@.event is None,
            command is Stop ==> !final(self).state@.is_moving && r@.calls == seq![BridgeCall::Stop],
            command is Move ==> final(self).state@.is_moving && final(self).state@.motor_stats.len()
                == 0,
    {
        let mut calls: Vec<BridgeCall> = Vec::new();
        match command {
            MotorCommand::Move { speed, direction, ticks, p, i, d } => {
                let (left, right) = senses(direction);
                let base_speed: Fixed = Fixed::from_int(speed as i32);
                calls.push(BridgeCall::SetDirection { side: Side::Left, direction: left });
                calls.push(BridgeCall::SetDirection { side: Side::Right, direction: right });
                calls.push(BridgeCall::SetSpeed { side: Side::Left, speed: base_speed });
                calls.push(BridgeCall::SetSpeed { side: Side::Right, speed: base_speed });
                assert(calls@ =~= move_calls(direction, speed));
                self.state.new_command(direction, speed, ticks, p, i, d, now);
            },
            MotorCommand::Stop => {
                self.state.is_moving = false;
                calls.push(BridgeCall::Stop);
                assert(calls@ =~= seq![BridgeCall::Stop]);
            },
        }
        self.react(calls, None)
    }

    /// Takes up an encoder snapshot at the time `now`.
    pub fn on_encoders(&mut self, encoders: EncodersSnapshot, now: u64) -> (r: Reaction)
        requires
            old(self).wf(),
        ensures
            final(self).wf(),
            final(self).motor == old(self).motor,
            final(self).state@ == on_encoders_spec(old(self).state@, encoders, now).state,
            r@ == reaction_of(old(self).motor, on_encoders_spec(old(self).state@, encoders, now)),
            calls_wf(r@.calls),
            !old(self).state@.is_moving ==> r@.calls.len() == 0 && r@.writes.len() == 0
                && r@.event is None && final(self).state@ == old(self).state@,
    {
        let mut calls: Vec<BridgeCall> = Vec::new();
        if !self.state.is_moving {
            return self.react(calls, None);
        }
        self.state.heartbeat_touch = now;
        self.state.ticks_moved = self.state.ticks_moved + encoders.left as i64;

        if self.state.ticks_moved >= self.state.ticks_to_move {
            self.state.is_moving = false;
            let mut stats: Vec<MotorRunStat> = Vec::new();
            std::mem::swap(&mut self.state.motor_stats, &mut stats);
            let event = TimedEvent::new(
                Event::MotorRunStats {
                    stats,
                    p: self.state.pid.p,
                    i: self.state.pid.i,
                    d: self.state.pid.d,
                },
                now,
            );
            calls.push(BridgeCall::Stop);
            assert(calls@ =~= seq![BridgeCall::Stop]);
            return self.react(calls, Some(event));
        }
        self.state.wheel_left.set_ticks(encoders.left as i32);
        self.state.wheel_right.set_ticks(encoders.right as i32);

        let (next_state, stat) = next_wheel_state(
            &self.state.wheel_left,
            &self.state.wheel_right,
            &self.state.pid,
            encoders.duration,
        );
        self.state.wheel_left = next_state;
        self.state.wheel_right.current_ticks = 0;
        self.state.motor_stats.push(stat);

        calls.push(BridgeCall::SetSpeed { side: Side::Left, speed: self.state.wheel_left.speed });
        calls.push(BridgeCall::SetSpeed { side: Side::Right, speed: self.state.wheel_right.speed });
        assert(calls@ =~= on_encoders_spec(old(self).state@, encoders, now).calls);
        self.react(calls, None)
    }

    /// Takes up a heartbeat at the time `now`.
    pub fn on_heartbeat(&mut self, now: u64) -> (r: Reaction)
        requires
            old(self).wf(),
        ensures
            final(self).wf(),
            final(self).motor == old(self).motor,
            final(self).state@ == on_heartbeat_spec(old(self).state@, now).state,
            r@ == reaction_of(old(self).motor, on_heartbeat_spec(old(self).state@, now)),
            calls_wf(r@.calls),
            r@.event is None,
            is_starved(old(self).state@, now) ==> r@.calls == seq![BridgeCall::Stop]
                && !final(self).state@.is_moving,
            !is_starved(old(self).state@, now) ==> r@.calls.len() == 0 && r@.writes.len() == 0
                && final(self).state@ == old(self).state@,
    {
        let mut calls: Vec<BridgeCall> = Vec::new();
        if self.state.is_moving && now > self.state.heartbeat_touch && now
            - self.state.heartbeat_touch > STALE_MS {
            self.state.is_moving = false;
            calls.push(BridgeCall::Stop);
            assert(calls@ =~= seq![BridgeCall::Stop]);
        }
        self.react(calls, None)
    }

    /// Takes up one message.
    pub fn handle(&mut self, message: Message) -> (r: Reaction)
        requires
            old(self).wf(),
            message.wf(),
        ensures
            final(self).wf(),
            final(self).motor == old(self).motor,
            final(self).state@ == step(old(self).state@, message).state,
            r@ == reaction_of(old(self).motor, step(old(self).state@, message)),
            calls_wf(r@.calls),
    {
        match message.input {
            Input::Command { command } => self.on_command(command, message.time),
            Input::Encoders { encoders } => self.on_encoders(encoders, message.time),
            Input::Heartbeat => self.on_heartbeat(message.time),
        }
    }

    /// Takes up a list of messages in order.  Returns the reaction to each.
    pub fn run(&mut self, messages: Vec<Message>) -> (reactions: Vec<Reaction>)
        requires
            old(self).wf(),
            messages_wf(messages@),
        ensures
            final(self).wf(),
            final(self).motor == old(self).motor,
            final(self).state@ == state_after(old(self).state@, messages@),
            reactions@.len() == messages@.len(),
            forall|k: int|
                0 <= k < messages@.len() ==> (#[trigger] reactions@[k])@ == reaction_of(
                    old(self).motor,
                    outcome_at(old(self).state@, messages@, k),
                ),
    {
        let mut reactions: Vec<Reaction> = Vec::new();
        let mut n: usize = 0;
        while n < messages.len()
            invariant
                n <= messages.len(),
                messages_wf(messages@),
                self.wf(),
                self.motor == old(self).motor,
                self.state@ == state_after(old(self).state@, messages@.take(n as int)),
                reactions@.len() == n,
                forall|k: int|
                    0 <= k < n ==> (#[trigger] reactions@[k])@ == reaction_of(
                        old(self).motor,
                        outcome_at(old(self).state@, messages@, k),
                    ),
            decreases messages.len() - n,
        {
            let message: Message = messages[n];
            let reaction: Reaction = self.handle(message);
            proof {
                let longer = messages@.take(n + 1);
                assert(longer.drop_last() =~= messages@.take(n as int));
                assert(longer.last() == messages@[n as int]);
            }
            reactions.push(reaction);
            n = n + 1;
        }
        proof {
            assert(messages@.take(n as int) =~= messages@);
        }
        reactions
    }
}

} // verus!
