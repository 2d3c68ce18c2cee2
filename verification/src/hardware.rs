//! The primitive operations on the robot's hardware.
use vstd::prelude::*;

verus! {

/// One operation that the caller performs on the hardware.  The operations
/// of a list are performed in order.
#[derive(Clone, Copy, Debug, PartialEq, Eq, Structural)]
pub enum HardwareOp {
    /// Write the byte `value` to the register `register` of the PWM
    /// controller on the I2C bus.
    RegisterWrite { register: u8, value: u8 },
    /// Wait for `millis` milliseconds.
    Sleep { millis: u64 },
    /// Make the GPIO pin `pin` available.
    PinExport { pin: u64 },
    /// Make the GPIO pin `pin` an output that starts out low.
    PinOutputLow { pin: u64 },
    /// Drive the GPIO pin `pin` high (`high` is true) or low.
    PinWrite { pin: u64, high: bool },
}

} // verus!
