use joystick_usbhid::dpad::DPadDirection;
use joystick_usbhid::joystick_button_matrix::{
    JoystickButtons, JoystickButtonsMatrix, JoystickLevels, JoystickRow,
};
use joystick_usbhid::scan::ScanStep;

fn levels(dpad1: bool, dpad2: bool, buttons: bool, fire_lock: bool) -> JoystickLevels {
    JoystickLevels { dpad1, dpad2, buttons, fire_lock }
}

#[test]
fn joystick_default_is_released() {
    let j = JoystickButtons::default();
    assert_eq!(j.as_bitfield(), 0);
    assert_eq!(j.dpad1, DPadDirection::Center);
    assert_eq!(j.dpad2, DPadDirection::Center);
}

#[test]
fn joystick_bitfield_single_buttons() {
    let base = JoystickButtons::default();
    assert_eq!(JoystickButtons { fire: true, ..base }.as_bitfield(), 1);
    assert_eq!(JoystickButtons { lock: true, ..base }.as_bitfield(), 2);
    assert_eq!(JoystickButtons { launch: true, ..base }.as_bitfield(), 4);
    assert_eq!(JoystickButtons { a: true, ..base }.as_bitfield(), 8);
    assert_eq!(JoystickButtons { b: true, ..base }.as_bitfield(), 16);
    assert_eq!(JoystickButtons { c: true, ..base }.as_bitfield(), 32);
}

#[test]
fn joystick_bitfield_all_buttons() {
    let j = JoystickButtons {
        lock: true,
        fire: true,
        launch: true,
        a: true,
        b: true,
        c: true,
        dpad1: DPadDirection::Up,
        dpad2: DPadDirection::Left,
    };
    assert_eq!(j.as_bitfield(), 0b0011_1111);
}

#[test]
fn joystick_from_rows_decodes_each_line() {
    let j = JoystickButtons::from_rows(
        levels(true, false, true, true),
        levels(true, true, false, false),
        levels(false, true, true, false),
        levels(false, false, false, false),
    );
    assert!(j.fire);
    assert!(j.c);
    assert!(!j.lock);
    assert!(!j.a);
    assert!(j.b);
    assert!(!j.launch);
    assert_eq!(j.dpad1, DPadDirection::RightUp);
    assert_eq!(j.dpad2, DPadDirection::RightDown);
}

#[test]
fn joystick_scan_walks_rows_in_order() {
    let mut m = JoystickButtonsMatrix::new(());
    assert!(!m.is_scanning());
    assert_eq!(
        m.begin_scan(),
        ScanStep::Select { release: None, select: JoystickRow::FireDpadUpBtnC }
    );
    assert!(m.is_scanning());
    assert_eq!(
        m.record(levels(false, false, false, true)),
        ScanStep::Select {
            release: Some(JoystickRow::FireDpadUpBtnC),
            select: JoystickRow::LockDpadRightBtnA
        }
    );
    assert_eq!(
        m.record(levels(false, false, true, true)),
        ScanStep::Select {
            release: Some(JoystickRow::LockDpadRightBtnA),
            select: JoystickRow::DpadDownBtnB
        }
    );
    assert_eq!(
        m.record(levels(true, false, false, true)),
        ScanStep::Select {
            release: Some(JoystickRow::DpadDownBtnB),
            select: JoystickRow::DpadLeftLaunch
        }
    );
    let expected = JoystickButtons {
        fire: true,
        lock: true,
        a: true,
        b: false,
        c: false,
        launch: true,
        dpad1: DPadDirection::LeftDown,
        dpad2: DPadDirection::Center,
    };
    assert_eq!(
        m.record(levels(true, false, true, false)),
        ScanStep::Done { release: JoystickRow::DpadLeftLaunch, buttons: expected }
    );
    assert!(!m.is_scanning());
}

#[test]
fn joystick_scan_can_restart() {
    let mut m = JoystickButtonsMatrix::new(5u32);
    m.begin_scan();
    m.record(levels(true, true, true, true));
    m.begin_scan();
    for _ in 0..3 {
        m.record(levels(false, false, false, false));
    }
    match m.record(levels(false, false, false, false)) {
        ScanStep::Done { buttons, .. } => assert_eq!(buttons, JoystickButtons::default()),
        other => panic!("unexpected step {:?}", other),
    }
    assert_eq!(m.pins, 5u32);
}
