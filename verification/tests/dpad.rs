use joystick_usbhid::dpad::DPadDirection;

fn nibble(up: bool, right: bool, down: bool, left: bool) -> u8 {
    (up as u8) | (right as u8) << 1 | (down as u8) << 2 | (left as u8) << 3
}

#[test]
fn from_pins_single_pins() {
    assert_eq!(DPadDirection::from_pins(true, false, false, false), DPadDirection::Up);
    assert_eq!(DPadDirection::from_pins(false, true, false, false), DPadDirection::Right);
    assert_eq!(DPadDirection::from_pins(false, false, true, false), DPadDirection::Down);
    assert_eq!(DPadDirection::from_pins(false, false, false, true), DPadDirection::Left);
}

#[test]
fn from_pins_diagonals() {
    assert_eq!(DPadDirection::from_pins(true, true, false, false), DPadDirection::RightUp);
    assert_eq!(DPadDirection::from_pins(false, true, true, false), DPadDirection::RightDown);
    assert_eq!(DPadDirection::from_pins(false, false, true, true), DPadDirection::LeftDown);
    assert_eq!(DPadDirection::from_pins(true, false, false, true), DPadDirection::LeftUp);
}

#[test]
fn from_pins_rest_and_impossible_readings() {
    assert_eq!(DPadDirection::from_pins(false, false, false, false), DPadDirection::Center);
    assert_eq!(DPadDirection::from_pins(true, false, true, false), DPadDirection::Center);
    assert_eq!(DPadDirection::from_pins(false, true, false, true), DPadDirection::Center);
    assert_eq!(DPadDirection::from_pins(true, true, true, false), DPadDirection::Center);
    assert_eq!(DPadDirection::from_pins(true, true, true, true), DPadDirection::Center);
}

#[test]
fn as_bitfield_values() {
    assert_eq!(DPadDirection::Center.as_bitfield(), 0b0000);
    assert_eq!(DPadDirection::Up.as_bitfield(), 0b0001);
    assert_eq!(DPadDirection::RightUp.as_bitfield(), 0b0011);
    assert_eq!(DPadDirection::Right.as_bitfield(), 0b0010);
    assert_eq!(DPadDirection::RightDown.as_bitfield(), 0b0110);
    assert_eq!(DPadDirection::Down.as_bitfield(), 0b0100);
    assert_eq!(DPadDirection::LeftDown.as_bitfield(), 0b1100);
    assert_eq!(DPadDirection::Left.as_bitfield(), 0b1000);
    assert_eq!(DPadDirection::LeftUp.as_bitfield(), 0b1001);
}

#[test]
fn default_is_center() {
    assert_eq!(DPadDirection::default(), DPadDirection::Center);
    assert_eq!(DPadDirection::default().as_bitfield(), 0);
}

#[test]
fn hat_value_reflects_every_pin_reading() {
    for i in 0..16u8 {
        let (up, right, down, left) = (i & 1 != 0, i & 2 != 0, i & 4 != 0, i & 8 != 0);
        let value = DPadDirection::from_pins(up, right, down, left).as_bitfield();
        let position = !(up && down) && !(left && right);
        let expected = if position { nibble(up, right, down, left) } else { 0 };
        assert_eq!(value, expected, "reading {:04b}", i);
    }
}

#[test]
fn hat_values_are_distinct() {
    let all = [
        DPadDirection::Center,
        DPadDirection::Up,
        DPadDirection::RightUp,
        DPadDirection::Right,
        DPadDirection::RightDown,
        DPadDirection::Down,
        DPadDirection::LeftDown,
        DPadDirection::Left,
        DPadDirection::LeftUp,
    ];
    for (i, a) in all.iter().enumerate() {
        for (j, b) in all.iter().enumerate() {
            assert_eq!(i == j, a.as_bitfield() == b.as_bitfield());
        }
        assert!(a.as_bitfield() < 16);
    }
}
