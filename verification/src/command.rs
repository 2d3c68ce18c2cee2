//! Commands that operators send to the robot.
use crate::fixed::Fixed;
use vstd::prelude::*;

verus! {

/// A command for the co-processor.
#[derive(Clone, Copy, Debug, PartialEq, Eq, Structural)]
pub enum ArduinoCommand {
    Off,
}

/// The way the robot is to move: straight ahead or back, or turning on the
/// spot to the right or to the left.
#[derive(Clone, Copy, Debug, PartialEq, Eq, Structural)]
pub enum Direction {
    Forward,
    Backward,
    Right,
    Left,
}

/// A command for the drive controller.
#[derive(Clone, Copy, Debug, PartialEq, Eq, Structural)]
pub enum MotorCommand {
    /// Move `ticks` encoder ticks in `direction` at `speed` percent, with the
    /// regulator gains `p`, `i` and `d`.
    Move { speed: u8, direction: Direction, ticks: u32, p: Fixed, i: Fixed, d: Fixed },
    /// Abort the move in progress, if any, and stop the motors.
    Stop,
}

/// A command as it arrives from an operator, addressed to one component.
#[allow(inconsistent_fields)]
#[derive(Clone, Copy, Debug, PartialEq, Eq, Structural)]
pub enum Command {
    Motor { command: MotorCommand },
    Arduino { command: ArduinoCommand },
}

/// The highest speed that can be commanded, in percent.
pub const MAX_SPEED: u8 = 100;

impl MotorCommand {
    /// A command is well formed when it is `Stop`, or a `Move` with a speed
    /// of at most 100 percent and at least one tick to go.
    pub open spec fn wf(self) -> bool {
        match self {
            MotorCommand::Move { speed, ticks, .. } => speed <= 100 && ticks > 0,
            MotorCommand::Stop => true,
        }
    }

    /// Tells whether the command is well formed.
    pub fn is_valid(&self) -> (ok: bool)
        ensures
            ok == self.wf(),
    {
        match self {
            MotorCommand::Move { speed, ticks, .. } => *speed <= MAX_SPEED && *ticks > 0,
            MotorCommand::Stop => true,
        }
    }
}

} // verus!
