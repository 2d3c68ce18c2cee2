//! The motor bridge: two sides, each with a PWM channel for its speed and
//! two pins for its sense of rotation.
use crate::fixed::Fixed;
use crate::hardware::HardwareOp;
use crate::pca9685::{duty_ops, frequency_ops, startup_ops, PCA9685};
use vstd::prelude::*;

verus! {

/// A side of the robot.
#[derive(Clone, Copy, Debug, PartialEq, Eq, Structural)]
pub enum Side {
    Left,
    Right,
}

/// The sense in which the wheels of one side turn.
#[derive(Clone, Copy, Debug, PartialEq, Eq, Structural)]
pub enum Dir {
    Forward,
    Backward,
}

/// One request to the motor bridge.
#[derive(Clone, Copy, Debug, PartialEq, Eq, Structural)]
pub enum BridgeCall {
    /// Let the wheels of `side` turn in the sense `direction`.
    SetDirection { side: Side, direction: Dir },
    /// Run the wheels of `side` at `speed` percent.
    SetSpeed { side: Side, speed: Fixed },
    /// Cut the power of both sides.
    Stop,
}

/// The frequency that the PWM controller is started with, in Hz.  It is
/// replaced by `PWM_FREQUENCY` before any channel is used.
pub const STARTUP_FREQUENCY: u16 = 50;

/// The PWM frequency that the motors are driven with, in Hz.
pub const PWM_FREQUENCY: u16 = 100;

/// The PWM channel of the left side.
pub const LEFT_CHANNEL: u8 = 0;

/// The PWM channel of the right side.
pub const RIGHT_CHANNEL: u8 = 1;

/// The first direction pin of the left side.
pub const IN1_PIN: u64 = 6;

/// The second direction pin of the left side.
pub const IN2_PIN: u64 = 5;

/// The first direction pin of the right side.
pub const IN3_PIN: u64 = 27;

/// The second direction pin of the right side.
pub const IN4_PIN: u64 = 17;

/// The highest duty that a channel takes: always on but for one step.
pub const FULL_DUTY: i64 = 4095;

/// The motor bridge: the PWM controller and the numbers of the four
/// direction pins.
#[derive(Clone, Copy, Debug, PartialEq, Eq, Structural)]
pub struct Motor {
    pub pca: PCA9685,
    pub in1_pin: u64,
    pub in2_pin: u64,
    pub in3_pin: u64,
    pub in4_pin: u64,
}

/// Tells whether `speed` is a percentage: between 0 and 100.
pub open spec fn is_percentage(speed: Fixed) -> bool {
    0 <= speed.micros <= 100_000_000
}

/// The PWM channel of a side.
pub open spec fn channel_of(side: Side) -> int {
    match side {
        Side::Left => 0,
        Side::Right => 1,
    }
}

/// The duty for a speed given in millionths of a percent.  The speed is
/// mapped onto the upper 82 percent of the power range, above a floor of 18
/// percent that the motor needs to turn at all, and the duty is that share
/// of 4095, rounded down.
pub open spec fn duty_of(speed_micros: int) -> int {
    4095 * (82 * speed_micros + 1_800_000_000) / 10_000_000_000
}

/// The writes that make one pin an output.
pub open spec fn pin_setup_ops(pin: u64) -> Seq<HardwareOp> {
    seq![HardwareOp::PinExport { pin }, HardwareOp::PinOutputLow { pin }]
}

/// Tells whether a request can be carried out: a speed has to be a
/// percentage.
pub open spec fn call_wf(call: BridgeCall) -> bool {
    match call {
        BridgeCall::SetSpeed { speed, .. } => is_percentage(speed),
        _ => true,
    }
}

impl Motor {
    /// The writes that start the bridge up: start the PWM controller,
    /// program the PWM frequency, make the four direction pins outputs.
    pub open spec fn setup_ops() -> Seq<HardwareOp> {
        startup_ops() + frequency_ops(50) + frequency_ops(100) + pin_setup_ops(6)
            + pin_setup_ops(5) + pin_setup_ops(27) + pin_setup_ops(17)
    }

    /// The bridge as it is wired.
    pub open spec fn wired() -> Motor {
        Motor { pca: PCA9685 { frequency: 100 }, in1_pin: 6, in2_pin: 5, in3_pin: 27, in4_pin: 17 }
    }

    /// The first direction pin of a side.
    pub open spec fn first_pin(self, side: Side) -> u64 {
        match side {
            Side::Left => self.in1_pin,
            Side::Right => self.in3_pin,
        }
    }

    /// The second direction pin of a side.
    pub open spec fn second_pin(self, side: Side) -> u64 {
        match side {
            Side::Left => self.in2_pin,
            Side::Right => self.in4_pin,
        }
    }

    /// The writes that set the sense of rotation of a side: forward is the
    /// first pin high and the second low, backward the reverse.
    pub open spec fn direction_ops(self, side: Side, direction: Dir) -> Seq<HardwareOp> {
        seq![
            HardwareOp::PinWrite { pin: self.first_pin(side), high: direction == Dir::Forward },
            HardwareOp::PinWrite { pin: self.second_pin(side), high: direction == Dir::Backward },
        ]
    }

    /// The writes that set the speed of a side.
    pub open spec fn speed_ops(self, side: Side, speed: Fixed) -> Seq<HardwareOp> {
        duty_ops(channel_of(side), duty_of(speed.micros as int))
    }

    /// The writes that stop both sides: duty 0 on both channels.  No pin is
    /// written.
    pub open spec fn stop_ops(self) -> Seq<HardwareOp> {
        duty_ops(0, 0) + duty_ops(1, 0)
    }

    /// The writes that carry out one request.
    pub open spec fn call_ops(self, call: BridgeCall) -> Seq<HardwareOp> {
        match call {
            BridgeCall::SetDirection { side, direction } => self.direction_ops(side, direction),
            BridgeCall::SetSpeed { side, speed } => self.speed_ops(side, speed),
            BridgeCall::Stop => self.stop_ops(),
        }
    }

    /// Sets the bridge up as it is wired.  Returns the bridge with the
    /// writes that start it up.
    pub fn new() -> (r: (Motor, Vec<HardwareOp>))
        ensures
            r.0 == Motor::wired(),
            r.1@ == Motor::setup_ops(),
    {
        let (mut pca, mut ops) = PCA9685::new(STARTUP_FREQUENCY);
        let mut tuning: Vec<HardwareOp> = pca.set_frequency(PWM_FREQUENCY);
        ops.append(&mut tuning);
        let motor = Motor {
            pca,
            in1_pin: IN1_PIN,
            in2_pin: IN2_PIN,
            in3_pin: IN3_PIN,
            in4_pin: IN4_PIN,
        };
        prepare_pin(&mut ops, motor.in1_pin);
        prepare_pin(&mut ops, motor.in2_pin);
        prepare_pin(&mut ops, motor.in3_pin);
        prepare_pin(&mut ops, motor.in4_pin);
        (motor, ops)
    }

    /// Sets the sense of rotation of a side.  Returns the writes that do so.
    pub fn set_direction(&self, side: Side, direction: Dir) -> (ops: Vec<HardwareOp>)
        ensures
            ops@ == self.direction_ops(side, direction),
    {
        let (first, second) = match side {
            Side::Left => (self.in1_pin, self.in2_pin),
            Side::Right => (self.in3_pin, self.in4_pin),
        };
        let forward: bool = match direction {
            Dir::Forward => true,
            Dir::Backward => false,
        };
        let mut ops: Vec<HardwareOp> = Vec::new();
        ops.push(HardwareOp::PinWrite { pin: first, high: forward });
        ops.push(HardwareOp::PinWrite { pin: second, high: !forward });
        assert(ops@ =~= self.direction_ops(side, direction));
        ops
    }

    /// Sets the speed of a side, in percent.  Returns the writes that do so.
    pub fn set_speed(&self, side: Side, speed: Fixed) -> (ops: Vec<HardwareOp>)
        requires
            is_percentage(speed),
        ensures
            ops@ == self.speed_ops(side, speed),
    {
        let pulse_length: u16 = duty(speed);
        let pwm_pin: u8 = match side {
            Side::Left => LEFT_CHANNEL,
            Side::Right => RIGHT_CHANNEL,
        };
        self.pca.set_duty_cycle(pwm_pin, pulse_length)
    }

    /// Stops both sides.  Returns the writes that do so.
    pub fn stop(&self) -> (ops: Vec<HardwareOp>)
        ensures
            ops@ == self.stop_ops(),
    {
        let mut ops: Vec<HardwareOp> = self.pca.set_duty_cycle(LEFT_CHANNEL, 0);
        let mut right: Vec<HardwareOp> = self.pca.set_duty_cycle(RIGHT_CHANNEL, 0);
        ops.append(&mut right);
        ops
    }

    /// Carries out one request.  Returns the writes that do so.
    pub fn perform(&self, call: &BridgeCall) -> (ops: Vec<HardwareOp>)
        requires
            call_wf(*call),
        ensures
            ops@ == self.call_ops(*call),
    {
        match call {
            BridgeCall::SetDirection { side, direction } => self.set_direction(*side, *direction),
            BridgeCall::SetSpeed { side, speed } => self.set_speed(*side, *speed),
            BridgeCall::Stop => self.stop(),
        }
    }
}

/// Computes the duty for a speed in percent.
pub fn duty(speed: Fixed) -> (value: u16)
    requires
        is_percentage(speed),
    ensures
        value == duty_of(speed.micros as int),
        737 <= value <= 4095,
{
    let scaled: i64 = 82 * speed.micros + 1_800_000_000;
    let pulse_length: i64 = FULL_DUTY * scaled / 10_000_000_000;
    pulse_length as u16
}

/// Appends the writes that make `pin` an output.
fn prepare_pin(ops: &mut Vec<HardwareOp>, pin: u64)
    ensures
        final(ops)@ == old(ops)@ + pin_setup_ops(pin),
{
    ops.push(HardwareOp::PinExport { pin });
    ops.push(HardwareOp::PinOutputLow { pin });
    assert(ops@ =~= old(ops)@ + pin_setup_ops(pin));
}

} // verus!
