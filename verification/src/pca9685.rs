//! Driver logic for the 16-channel PWM controller.
//!
//! The controller is programmed by single-byte register writes.  The
//! functions here work out which bytes go to which registers, in which
//! order; the caller puts them on the bus.
use crate::hardware::HardwareOp;
use vstd::prelude::*;

verus! {

/// Mode register 1.
pub const MODE_1_REG: u8 = 0x00;

/// Mode register 2.
pub const MODE_2_REG: u8 = 0x01;

/// The first of the four registers of channel 0: the low byte of its
/// switch-on count.  Each channel has four registers in a row.
pub const LED0_ON_L: u8 = 0x06;

/// The register that holds the prescale value.
pub const PRE_SCALE_REG: u8 = 0xFE;

/// The time to wait for the oscillator after a change of mode, in
/// milliseconds.
pub const SETTLE_MILLIS: u64 = 6;

/// The PWM controller, as it has been programmed.
#[derive(Clone, Copy, Debug, PartialEq, Eq, Structural)]
pub struct PCA9685 {
    /// The PWM frequency in Hz that was programmed last.
    pub frequency: u16,
}

/// The quotient `n / d` rounded to the nearest whole number, halves upwards,
/// for `n >= 0` and `d > 0`.
pub open spec fn round_div(n: int, d: int) -> int {
    (2 * n + d) / (2 * d)
}

/// The prescale value for a PWM frequency: the 25 MHz of the oscillator,
/// divided by the 4096 steps of a cycle and by the frequency, rounded, less
/// one.
pub open spec fn prescale_of(frequency: int) -> int {
    round_div(25_000_000, 4096 * frequency) - 1
}

/// Tells whether the frequency can be programmed.
pub open spec fn frequency_in_range(frequency: int) -> bool {
    40 <= frequency <= 1000
}

/// The writes that wake the controller up: set the outputs to totem pole,
/// switch on register auto-increment, wait, clear the all-call bit, wait.
pub open spec fn startup_ops() -> Seq<HardwareOp> {
    seq![
        HardwareOp::RegisterWrite { register: 0x01, value: 0x04 },
        HardwareOp::RegisterWrite { register: 0x00, value: 0x21 },
        HardwareOp::Sleep { millis: 6 },
        HardwareOp::RegisterWrite { register: 0x00, value: 0x20 },
        HardwareOp::Sleep { millis: 6 },
    ]
}

/// The writes that program a PWM frequency: put the controller to sleep,
/// write the prescale value, wake it, wait, restart the outputs.
pub open spec fn frequency_ops(frequency: int) -> Seq<HardwareOp> {
    seq![
        HardwareOp::RegisterWrite { register: 0x00, value: 0x11 },
        HardwareOp::RegisterWrite { register: 0xFE, value: prescale_of(frequency) as u8 },
        HardwareOp::RegisterWrite { register: 0x00, value: 0x01 },
        HardwareOp::Sleep { millis: 6 },
        HardwareOp::RegisterWrite { register: 0x00, value: 0x81 },
    ]
}

/// The writes that set the duty of one channel: the switch-on count 0 and
/// the switch-off count `duty`, low byte first, in the four registers of
/// the channel.
pub open spec fn duty_ops(channel: int, duty: int) -> Seq<HardwareOp> {
    seq![
        HardwareOp::RegisterWrite { register: (0x06 + 4 * channel) as u8, value: 0 },
        HardwareOp::RegisterWrite { register: (0x07 + 4 * channel) as u8, value: 0 },
        HardwareOp::RegisterWrite { register: (0x08 + 4 * channel) as u8, value: (duty % 256) as u8 },
        HardwareOp::RegisterWrite { register: (0x09 + 4 * channel) as u8, value: (duty / 256) as u8 },
    ]
}

/// The prescale value of a frequency in range fits in a byte, and no whole
/// number is nearer to the exact quotient than the rounded one.
pub proof fn lemma_prescale_is_nearest(frequency: int)
    requires
        frequency_in_range(frequency),
    ensures
        5 <= prescale_of(frequency) <= 152,
        -(4096 * frequency) <= 2 * (25_000_000 - (prescale_of(frequency) + 1) * (4096 * frequency))
            < 4096 * frequency,
{
    let d: int = 4096 * frequency;
    let q: int = round_div(25_000_000, d);
    assert(q == (50_000_000 + d) / (2 * d));
    assert(q * (2 * d) <= 50_000_000 + d < (q + 1) * (2 * d)) by (nonlinear_arith)
        requires
            d > 0,
            q == (50_000_000 + d) / (2 * d),
    ;
    assert(6 <= q <= 153) by (nonlinear_arith)
        requires
            163840 <= d <= 4096000,
            q * (2 * d) <= 50_000_000 + d < (q + 1) * (2 * d),
    ;
    assert(q * (2 * d) == 2 * (q * d)) by (nonlinear_arith);
    assert((q + 1) * (2 * d) == 2 * (q * d) + 2 * d) by (nonlinear_arith);
}

/// Computes the prescale value for a PWM frequency.
pub fn prescale(frequency: u16) -> (value: u8)
    requires
        frequency_in_range(frequency as int),
    ensures
        value == prescale_of(frequency as int),
        5 <= value <= 152,
        -(4096 * frequency) <= 2 * (25_000_000 - (value + 1) * (4096 * frequency)) < 4096
            * frequency,
{
    proof {
        lemma_prescale_is_nearest(frequency as int);
    }
    let steps: u32 = 4096 * (frequency as u32);
    let rounded: u32 = (50_000_000 + steps) / (2 * steps);
    (rounded - 1) as u8
}

impl PCA9685 {
    /// Tells whether the frequency on record can be programmed.
    pub open spec fn wf(self) -> bool {
        frequency_in_range(self.frequency as int)
    }

    /// Starts the controller up and programs the PWM frequency.  Returns the
    /// controller with the writes that do so.
    pub fn new(frequency: u16) -> (r: (PCA9685, Vec<HardwareOp>))
        requires
            frequency_in_range(frequency as int),
        ensures
            r.0.frequency == frequency,
            r.0.wf(),
            r.1@ == startup_ops() + frequency_ops(frequency as int),
    {
        let mut pca = PCA9685 { frequency };
        let mut ops: Vec<HardwareOp> = Vec::new();
        ops.push(HardwareOp::RegisterWrite { register: MODE_2_REG, value: 0x04 });
        ops.push(HardwareOp::RegisterWrite { register: MODE_1_REG, value: 0x21 });
        ops.push(HardwareOp::Sleep { millis: SETTLE_MILLIS });
        ops.push(HardwareOp::RegisterWrite { register: MODE_1_REG, value: 0x20 });
        ops.push(HardwareOp::Sleep { millis: SETTLE_MILLIS });
        assert(ops@ =~= startup_ops());
        let mut tuning: Vec<HardwareOp> = pca.set_frequency(frequency);
        ops.append(&mut tuning);
        (pca, ops)
    }

    /// Programs the PWM frequency.  Returns the writes that do so.
    pub fn set_frequency(&mut self, frequency: u16) -> (ops: Vec<HardwareOp>)
        requires
            frequency_in_range(frequency as int),
        ensures
            final(self).frequency == frequency,
            final(self).wf(),
            ops@ == frequency_ops(frequency as int),
    {
        let value: u8 = prescale(frequency);
        self.frequency = frequency;
        let mut ops: Vec<HardwareOp> = Vec::new();
        ops.push(HardwareOp::RegisterWrite { register: MODE_1_REG, value: 0x11 });
        ops.push(HardwareOp::RegisterWrite { register: PRE_SCALE_REG, value });
        ops.push(HardwareOp::RegisterWrite { register: MODE_1_REG, value: 0x01 });
        ops.push(HardwareOp::Sleep { millis: SETTLE_MILLIS });
        ops.push(HardwareOp::RegisterWrite { register: MODE_1_REG, value: 0x81 });
        assert(ops@ =~= frequency_ops(frequency as int));
        ops
    }

    /// Sets the duty of one channel: `duty_cycle` of the 4096 steps of each
    /// cycle the output is on.  Returns the writes that do so.
    pub fn set_duty_cycle(&self, channel: u8, duty_cycle: u16) -> (ops: Vec<HardwareOp>)
        requires
            channel < 16,
            duty_cycle < 4096,
        ensures
            ops@ == duty_ops(channel as int, duty_cycle as int),
    {
        let first: u8 = LED0_ON_L + 4 * channel;
        let low: u8 = (duty_cycle & 0xFF) as u8;
        let high: u8 = (duty_cycle >> 8) as u8;
        assert(duty_cycle & 0xFF == duty_cycle % 256) by (bit_vector);
        assert(duty_cycle >> 8 == duty_cycle / 256) by (bit_vector);
        let mut ops: Vec<HardwareOp> = Vec::new();
        ops.push(HardwareOp::RegisterWrite { register: first, value: 0 });
        ops.push(HardwareOp::RegisterWrite { register: first + 1, value: 0 });
        ops.push(HardwareOp::RegisterWrite { register: first + 2, value: low });
        ops.push(HardwareOp::RegisterWrite { register: first + 3, value: high });
        assert(ops@ =~= duty_ops(channel as int, duty_cycle as int));
        ops
    }
}

} // verus!
