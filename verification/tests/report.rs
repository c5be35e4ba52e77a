use joystick_usbhid::dpad::DPadDirection;
use joystick_usbhid::hid::{bipolar_axis, unipolar_axis, AnalogReadings, JoystickReport};
use joystick_usbhid::joystick_button_matrix::JoystickButtons;
use joystick_usbhid::throttle_button_matrix::ThrottleButtons;

#[test]
fn unipolar_axis_values() {
    assert_eq!(unipolar_axis(0), 0);
    assert_eq!(unipolar_axis(15), 0);
    assert_eq!(unipolar_axis(16), 1);
    assert_eq!(unipolar_axis(2048), 128);
    assert_eq!(unipolar_axis(4095), 255);
    // beyond 12 bits the value wraps to its low byte
    assert_eq!(unipolar_axis(4096), 0);
    assert_eq!(unipolar_axis(u16::MAX), 255);
}

#[test]
fn bipolar_axis_values() {
    assert_eq!(bipolar_axis(2048), 0);
    assert_eq!(bipolar_axis(0), -128);
    assert_eq!(bipolar_axis(4095), 127);
    assert_eq!(bipolar_axis(2063), 0);
    assert_eq!(bipolar_axis(2064), 1);
    assert_eq!(bipolar_axis(2033), 0);
    assert_eq!(bipolar_axis(2032), -1);
    assert_eq!(bipolar_axis(1000), -65);
    // beyond 12 bits the value wraps to its low byte
    assert_eq!(bipolar_axis(4096), -128);
    assert_eq!(bipolar_axis(u16::MAX), 127);
}

#[test]
fn bipolar_axis_matches_signed_arithmetic() {
    for raw in (0..=u16::MAX).step_by(7) {
        assert_eq!(bipolar_axis(raw), (((raw as i32) - 2048) / 16) as i8, "raw {}", raw);
        assert_eq!(unipolar_axis(raw), (raw / 16) as u8, "raw {}", raw);
    }
}

#[test]
fn axes_are_monotone_and_symmetric_for_12_bits() {
    for raw in 1..=4095u16 {
        assert!(bipolar_axis(raw - 1) <= bipolar_axis(raw));
        assert!(unipolar_axis(raw - 1) <= unipolar_axis(raw));
        assert_eq!(bipolar_axis(raw), -bipolar_axis(4096 - raw));
    }
}

#[test]
fn report_from_inputs() {
    let analog = AnalogReadings { x: 4095, y: 0, rudder: 2048, throttle: 3000, poti1: 100, poti2: 4000 };
    let joystick = JoystickButtons {
        lock: false,
        fire: true,
        launch: false,
        a: true,
        b: false,
        c: true,
        dpad1: DPadDirection::RightUp,
        dpad2: DPadDirection::Down,
    };
    let throttle = ThrottleButtons {
        mode: 2,
        aux: 0,
        d: false,
        select: true,
        dpad1: DPadDirection::LeftUp,
        dpad2: DPadDirection::Center,
    };
    let r = JoystickReport::from_inputs(&analog, &joystick, &throttle);
    assert_eq!(
        r,
        JoystickReport {
            throttle: 187,
            rudder: 0,
            poti1: 6,
            poti2: 250,
            x: 127,
            y: -128,
            buttons: 0b1010_1001,
            hat_switch_1: 0b0011,
            hat_switch_2: 0b0100,
            hat_switch_3: 0b1001,
            hat_switch_4: 0,
        }
    );
}

#[test]
fn report_button_bits_one_per_button() {
    let analog = AnalogReadings { x: 2048, y: 2048, rudder: 2048, throttle: 0, poti1: 0, poti2: 0 };
    let j0 = JoystickButtons::default();
    let t0 = ThrottleButtons::default();
    let cases: [(JoystickButtons, ThrottleButtons, u8); 9] = [
        (j0, t0, 0),
        (JoystickButtons { fire: true, ..j0 }, t0, 1 << 0),
        (JoystickButtons { lock: true, ..j0 }, t0, 1 << 1),
        (JoystickButtons { launch: true, ..j0 }, t0, 1 << 2),
        (JoystickButtons { a: true, ..j0 }, t0, 1 << 3),
        (JoystickButtons { b: true, ..j0 }, t0, 1 << 4),
        (JoystickButtons { c: true, ..j0 }, t0, 1 << 5),
        (j0, ThrottleButtons { d: true, ..t0 }, 1 << 6),
        (j0, ThrottleButtons { select: true, ..t0 }, 1 << 7),
    ];
    for (j, t, bits) in cases {
        assert_eq!(JoystickReport::from_inputs(&analog, &j, &t).buttons, bits);
    }
    let all_j = JoystickButtons { fire: true, lock: true, launch: true, a: true, b: true, c: true, ..j0 };
    let all_t = ThrottleButtons { d: true, select: true, ..t0 };
    assert_eq!(JoystickReport::from_inputs(&analog, &all_j, &all_t).buttons, 0xff);
}
