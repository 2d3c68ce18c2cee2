//! Events that the robot reports to its observers.
use crate::fixed::Fixed;
use vstd::prelude::*;

verus! {

/// One of the two wheels with an encoder.
#[derive(Clone, Copy, Debug, PartialEq, Eq, Structural)]
pub enum Wheel {
    Left,
    Right,
}

/// The encoder ticks that both wheels made since the previous snapshot, and
/// the time in milliseconds that this count spans.
#[derive(Clone, Copy, Debug, PartialEq, Eq, Structural)]
pub struct EncodersSnapshot {
    pub left: u8,
    pub right: u8,
    pub duration: i32,
}

/// A report of the co-processor.
#[derive(Clone, Copy, Debug, PartialEq, Eq, Structural)]
pub enum ArduinoEvent {
    Power { load_voltage: Fixed, current_ma: Fixed },
    Temp { room: Fixed, battery: Fixed },
    Encoders { encoders: EncodersSnapshot },
}

/// One pulse of a wheel encoder.
#[derive(Clone, Copy, Debug, PartialEq, Eq, Structural)]
pub struct EncoderEvent {
    pub wheel: Wheel,
}

/// The telemetry of one control cycle.
#[derive(Clone, Copy, Debug, PartialEq, Eq, Structural)]
pub struct MotorRunStat {
    pub speed_base: Fixed,
    pub speed_slave: Fixed,
    pub ticks_base: i32,
    pub ticks_slave: i32,
    pub error: Fixed,
    pub p_term: Fixed,
    pub i_term: Fixed,
    pub d_term: Fixed,
    pub duration: i32,
}

/// One measurement of the laser scanner.
#[derive(Clone, Copy, Debug, PartialEq, Eq, Structural)]
pub struct LidarScanPoint {
    pub angle: Fixed,
    pub distance: Fixed,
    pub quality: u8,
    pub is_sync: bool,
    pub is_valid: bool,
}

/// Everything the robot can report.
#[allow(inconsistent_fields)]
#[derive(Clone, Debug, PartialEq, Eq)]
pub enum Event {
    Encoder { event: EncoderEvent },
    Arduino { event: ArduinoEvent },
    /// The telemetry of a completed move, with the gains it ran with.
    MotorRunStats { stats: Vec<MotorRunStat>, p: Fixed, i: Fixed, d: Fixed },
    Lidar { scan_points: Vec<LidarScanPoint> },
    Generic { message: String },
}

/// What an `Event` holds, as mathematical values.
#[allow(inconsistent_fields)]
pub enum EventView {
    Encoder { event: EncoderEvent },
    Arduino { event: ArduinoEvent },
    MotorRunStats { stats: Seq<MotorRunStat>, p: Fixed, i: Fixed, d: Fixed },
    Lidar { scan_points: Seq<LidarScanPoint> },
    Generic { message: Seq<char> },
}

impl View for Event {
    type V = EventView;

    open spec fn view(&self) -> EventView {
        match *self {
            Event::Encoder { event } => EventView::Encoder { event },
            Event::Arduino { event } => EventView::Arduino { event },
            Event::MotorRunStats { stats, p, i, d } => EventView::MotorRunStats {
                stats: stats@,
                p,
                i,
                d,
            },
            Event::Lidar { scan_points } => EventView::Lidar { scan_points: scan_points@ },
            Event::Generic { message } => EventView::Generic { message: message@ },
        }
    }
}

impl Event {
    /// The encoder snapshot that this event carries, if it is a report of
    /// the co-processor about the encoders.
    pub fn encoders(&self) -> (r: Option<EncodersSnapshot>)
        ensures
            r == match self@ {
                EventView::Arduino { event: ArduinoEvent::Encoders { encoders } } => Some(encoders),
                _ => None,
            },
    {
        match self {
            Event::Arduino { event: ArduinoEvent::Encoders { encoders } } => Some(*encoders),
            _ => None,
        }
    }
}

/// An event with the wall-clock time at which it was raised, in
/// milliseconds since the Unix epoch.
#[derive(Clone, Debug, PartialEq, Eq)]
pub struct TimedEvent {
    pub event: Event,
    pub time: u64,
}

/// What a `TimedEvent` holds, as mathematical values.
pub struct TimedEventView {
    pub event: EventView,
    pub time: u64,
}

impl View for TimedEvent {
    type V = TimedEventView;

    open spec fn view(&self) -> TimedEventView {
        TimedEventView { event: self.event@, time: self.time }
    }
}

impl TimedEvent {
    /// Stamps `event` with the time `time`.
    pub fn new(event: Event, time: u64) -> (r: TimedEvent)
        ensures
            r@ == (TimedEventView { event: event@, time }),
    {
        TimedEvent { event, time }
    }
}

} // verus!
