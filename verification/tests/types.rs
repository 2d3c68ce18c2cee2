use motor_control::command::{ArduinoCommand, Command, Direction, MotorCommand};
use motor_control::event::{
    ArduinoEvent, EncoderEvent, EncodersSnapshot, Event, LidarScanPoint, TimedEvent, Wheel,
};
use motor_control::fixed::Fixed;

#[test]
fn fixed_point_numbers() {
    assert_eq!(Fixed::zero().micros, 0);
    assert_eq!(Fixed::from_int(44).micros, 44_000_000);
    assert_eq!(Fixed::from_int(-3).micros, -3_000_000);
    assert_eq!(Fixed::from_int(i32::MAX).micros, 2_147_483_647_000_000);
    assert_eq!(Fixed::from_int(i32::MIN).micros, -2_147_483_648_000_000);
    assert_eq!(Fixed::from_micros(61_200_000).micros as f64 / 1e6, 61.2);
}

#[test]
fn saturating_conversion() {
    assert_eq!(Fixed::saturating(5).micros, 5);
    assert_eq!(Fixed::saturating(-5).micros, -5);
    assert_eq!(Fixed::saturating(i64::MAX as i128).micros, i64::MAX);
    assert_eq!(Fixed::saturating(i64::MAX as i128 + 1).micros, i64::MAX);
    assert_eq!(Fixed::saturating(i64::MIN as i128).micros, i64::MIN);
    assert_eq!(Fixed::saturating(i64::MIN as i128 - 1).micros, i64::MIN);
    assert_eq!(Fixed::saturating(i128::MAX).micros, i64::MAX);
    assert_eq!(Fixed::saturating(i128::MIN).micros, i64::MIN);
}

fn move_with(speed: u8, ticks: u32) -> MotorCommand {
    MotorCommand::Move {
        speed,
        direction: Direction::Forward,
        ticks,
        p: Fixed::from_micros(500_000),
        i: Fixed::from_micros(100_000),
        d: Fixed::from_micros(50_000),
    }
}

#[test]
fn valid_commands() {
    assert!(MotorCommand::Stop.is_valid());
    assert!(move_with(0, 1).is_valid());
    assert!(move_with(60, 500).is_valid());
    assert!(move_with(100, u32::MAX).is_valid());
}

#[test]
fn malformed_commands() {
    assert!(!move_with(101, 500).is_valid());
    assert!(!move_with(255, 500).is_valid());
    assert!(!move_with(60, 0).is_valid());
}

#[test]
fn commands_are_addressed() {
    let for_motor = Command::Motor {
        command: MotorCommand::Stop,
    };
    let for_arduino = Command::Arduino {
        command: ArduinoCommand::Off,
    };
    assert_ne!(for_motor, for_arduino);
}

#[test]
fn timed_event_keeps_event_and_time() {
    let event = Event::Generic {
        message: String::from("Gyro sensor message"),
    };
    let timed = TimedEvent::new(event.clone(), 1_700_000_000_123);
    assert_eq!(timed.event, event);
    assert_eq!(timed.time, 1_700_000_000_123);
}

#[test]
fn encoder_snapshots_are_picked_out_of_the_events() {
    let encoders = EncodersSnapshot {
        left: 6,
        right: 7,
        duration: 100,
    };
    let carrying = Event::Arduino {
        event: ArduinoEvent::Encoders { encoders },
    };
    assert_eq!(carrying.encoders(), Some(encoders));

    let others = vec![
        Event::Arduino {
            event: ArduinoEvent::Power {
                load_voltage: Fixed::from_micros(12_300_000),
                current_ma: Fixed::from_int(450),
            },
        },
        Event::Arduino {
            event: ArduinoEvent::Temp {
                room: Fixed::from_int(21),
                battery: Fixed::from_int(30),
            },
        },
        Event::Encoder {
            event: EncoderEvent { wheel: Wheel::Left },
        },
        Event::MotorRunStats {
            stats: Vec::new(),
            p: Fixed::zero(),
            i: Fixed::zero(),
            d: Fixed::zero(),
        },
        Event::Lidar {
            scan_points: vec![LidarScanPoint {
                angle: Fixed::from_int(90),
                distance: Fixed::from_int(1200),
                quality: 15,
                is_sync: false,
                is_valid: true,
            }],
        },
        Event::Generic {
            message: String::from("Ir sensor message"),
        },
    ];
    for event in &others {
        assert_eq!(event.encoders(), None);
    }
}
