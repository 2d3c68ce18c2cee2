use motor_control::fixed::Fixed;
use motor_control::hardware::HardwareOp;
use motor_control::motor::{duty, BridgeCall, Dir, Motor, Side};
use motor_control::pca9685::{prescale, PCA9685};

fn reg(register: u8, value: u8) -> HardwareOp {
    HardwareOp::RegisterWrite { register, value }
}

#[test]
fn prescale_rounds_to_nearest() {
    // 25 MHz / 4096 / 100 Hz = 61.04, less one
    assert_eq!(prescale(100), 60);
    // 25 MHz / 4096 / 40 Hz = 152.59, rounded up to 153, less one
    assert_eq!(prescale(40), 152);
    // 25 MHz / 4096 / 1000 Hz = 6.10, less one
    assert_eq!(prescale(1000), 5);
    // 25 MHz / 4096 / 50 Hz = 122.07, less one
    assert_eq!(prescale(50), 121);
}

#[test]
fn duty_has_a_floor_of_eighteen_percent() {
    assert_eq!(duty(Fixed::from_int(0)), 737);
    assert_eq!(duty(Fixed::from_int(50)), 2416);
    assert_eq!(duty(Fixed::from_int(100)), 4095);
    assert_eq!(duty(Fixed::from_micros(61_200_000)), 2792);
}

#[test]
fn duty_cycle_goes_to_the_four_registers_of_the_channel() {
    let (pca, _) = PCA9685::new(100);
    assert_eq!(
        pca.set_duty_cycle(0, 2416),
        vec![reg(0x06, 0), reg(0x07, 0), reg(0x08, 0x70), reg(0x09, 0x09)]
    );
    assert_eq!(
        pca.set_duty_cycle(1, 4095),
        vec![reg(0x0A, 0), reg(0x0B, 0), reg(0x0C, 0xFF), reg(0x0D, 0x0F)]
    );
    assert_eq!(
        pca.set_duty_cycle(15, 0),
        vec![reg(0x42, 0), reg(0x43, 0), reg(0x44, 0), reg(0x45, 0)]
    );
}

#[test]
fn controller_start_up_sequence() {
    let (pca, ops) = PCA9685::new(100);
    assert_eq!(pca.frequency, 100);
    assert_eq!(
        ops,
        vec![
            reg(0x01, 0x04),
            reg(0x00, 0x21),
            HardwareOp::Sleep { millis: 6 },
            reg(0x00, 0x20),
            HardwareOp::Sleep { millis: 6 },
            reg(0x00, 0x11),
            reg(0xFE, 60),
            reg(0x00, 0x01),
            HardwareOp::Sleep { millis: 6 },
            reg(0x00, 0x81),
        ]
    );
}

#[test]
fn direction_pins_of_both_sides() {
    let (motor, _) = Motor::new();
    assert_eq!(
        motor.set_direction(Side::Left, Dir::Forward),
        vec![
            HardwareOp::PinWrite { pin: 6, high: true },
            HardwareOp::PinWrite { pin: 5, high: false }
        ]
    );
    assert_eq!(
        motor.set_direction(Side::Left, Dir::Backward),
        vec![
            HardwareOp::PinWrite { pin: 6, high: false },
            HardwareOp::PinWrite { pin: 5, high: true }
        ]
    );
    assert_eq!(
        motor.set_direction(Side::Right, Dir::Forward),
        vec![
            HardwareOp::PinWrite { pin: 27, high: true },
            HardwareOp::PinWrite { pin: 17, high: false }
        ]
    );
    assert_eq!(
        motor.set_direction(Side::Right, Dir::Backward),
        vec![
            HardwareOp::PinWrite { pin: 27, high: false },
            HardwareOp::PinWrite { pin: 17, high: true }
        ]
    );
}

#[test]
fn bridge_start_up_programs_the_controller_and_the_pins() {
    let (motor, ops) = Motor::new();
    assert_eq!(motor.pca.frequency, 100);
    assert_eq!(
        (motor.in1_pin, motor.in2_pin, motor.in3_pin, motor.in4_pin),
        (6, 5, 27, 17)
    );
    let mut expected = vec![
        reg(0x01, 0x04),
        reg(0x00, 0x21),
        HardwareOp::Sleep { millis: 6 },
        reg(0x00, 0x20),
        HardwareOp::Sleep { millis: 6 },
        reg(0x00, 0x11),
        reg(0xFE, 121),
        reg(0x00, 0x01),
        HardwareOp::Sleep { millis: 6 },
        reg(0x00, 0x81),
        reg(0x00, 0x11),
        reg(0xFE, 60),
        reg(0x00, 0x01),
        HardwareOp::Sleep { millis: 6 },
        reg(0x00, 0x81),
    ];
    for pin in [6u64, 5, 27, 17] {
        expected.push(HardwareOp::PinExport { pin });
        expected.push(HardwareOp::PinOutputLow { pin });
    }
    assert_eq!(ops, expected);
}

#[test]
fn set_frequency_records_and_programs_the_frequency() {
    let (mut pca, _) = PCA9685::new(50);
    let ops = pca.set_frequency(1000);
    assert_eq!(pca.frequency, 1000);
    assert_eq!(
        ops,
        vec![
            reg(0x00, 0x11),
            reg(0xFE, 5),
            reg(0x00, 0x01),
            HardwareOp::Sleep { millis: 6 },
            reg(0x00, 0x81),
        ]
    );
}

#[test]
fn speed_goes_to_the_channel_of_the_side() {
    let (motor, _) = Motor::new();
    // 50 percent is duty 2416 = 0x0970
    assert_eq!(
        motor.set_speed(Side::Left, Fixed::from_int(50)),
        vec![reg(0x06, 0), reg(0x07, 0), reg(0x08, 0x70), reg(0x09, 0x09)]
    );
    assert_eq!(
        motor.set_speed(Side::Right, Fixed::from_int(50)),
        vec![reg(0x0A, 0), reg(0x0B, 0), reg(0x0C, 0x70), reg(0x0D, 0x09)]
    );
    // 0 percent is duty 737 = 0x02E1: the motor still gets 18 percent
    assert_eq!(
        motor.set_speed(Side::Left, Fixed::from_int(0)),
        vec![reg(0x06, 0), reg(0x07, 0), reg(0x08, 0xE1), reg(0x09, 0x02)]
    );
}

#[test]
fn stop_zeroes_both_channels_and_leaves_the_pins_alone() {
    let (motor, _) = Motor::new();
    let ops = motor.stop();
    assert_eq!(
        ops,
        vec![
            reg(0x06, 0),
            reg(0x07, 0),
            reg(0x08, 0),
            reg(0x09, 0),
            reg(0x0A, 0),
            reg(0x0B, 0),
            reg(0x0C, 0),
            reg(0x0D, 0),
        ]
    );
    assert!(ops
        .iter()
        .all(|op| matches!(op, HardwareOp::RegisterWrite { .. })));
}

#[test]
fn perform_carries_out_each_kind_of_request() {
    let (motor, _) = Motor::new();
    assert_eq!(
        motor.perform(&BridgeCall::SetDirection {
            side: Side::Right,
            direction: Dir::Backward
        }),
        motor.set_direction(Side::Right, Dir::Backward)
    );
    assert_eq!(
        motor.perform(&BridgeCall::SetSpeed {
            side: Side::Left,
            speed: Fixed::from_int(44)
        }),
        motor.set_speed(Side::Left, Fixed::from_int(44))
    );
    assert_eq!(motor.perform(&BridgeCall::Stop), motor.stop());
}
