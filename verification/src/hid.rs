use vstd::prelude::*;

use crate::dpad::{b2n, direction_pins, lemma_hat_value_bits, pins_nibble, DPadDirection};
use crate::joystick_button_matrix::{joystick_button_bits, JoystickButtons};
use crate::throttle_button_matrix::{throttle_button_bits, ThrottleButtons};

verus! {

/// The input report sent to the host: four axes, two potentiometers, eight buttons and
/// four hat switches.
#[derive(Debug, Clone, Copy, PartialEq, Eq, Structural)]
pub struct JoystickReport {
    pub throttle: u8,
    pub rudder: i8,
    pub poti1: u8,
    pub poti2: u8,
    pub x: i8,
    pub y: i8,
    pub buttons: u8,
    pub hat_switch_1: u8,
    pub hat_switch_2: u8,
    pub hat_switch_3: u8,
    pub hat_switch_4: u8,
}

/// Raw conversions of the analog inputs, as the ADCs deliver them (12 bits wide).
#[derive(Debug, Clone, Copy, PartialEq, Eq, Structural)]
pub struct AnalogReadings {
    pub x: u16,
    pub y: u16,
    pub rudder: u16,
    pub throttle: u16,
    pub poti1: u16,
    pub poti2: u16,
}

/// Largest value of a 12-bit conversion.
pub const ADC_MAX: u16 = 4095;

/// Midpoint of a 12-bit conversion, the rest position of a centred axis.
pub const ADC_MID: u16 = 2048;

/// Integer division rounding toward zero, as Rust's `/` does.
pub open spec fn div_toward_zero(n: int, d: int) -> int {
    if n >= 0 {
        n / d
    } else {
        -((-n) / d)
    }
}

/// A one-sided axis (throttle, potentiometer): the conversion divided by 16, kept to its
/// low eight bits.
pub open spec fn spec_unipolar_axis(raw: u16) -> u8 {
    (raw / 16) as u8
}

/// A centred axis (stick, rudder): the offset from the midpoint divided by 16 toward zero,
/// kept to its low eight bits as a signed byte.
pub open spec fn spec_bipolar_axis(raw: u16) -> i8 {
    div_toward_zero(raw - ADC_MID, 16) as i8
}

/// The report for the given conversions and buttons.
pub open spec fn spec_report(
    analog: AnalogReadings,
    joystick: JoystickButtons,
    throttle: ThrottleButtons,
) -> JoystickReport {
    JoystickReport {
        throttle: spec_unipolar_axis(analog.throttle),
        rudder: spec_bipolar_axis(analog.rudder),
        x: spec_bipolar_axis(analog.x),
        y: spec_bipolar_axis(analog.y),
        poti1: spec_unipolar_axis(analog.poti1),
        poti2: spec_unipolar_axis(analog.poti2),
        buttons: (joystick_button_bits(joystick) + 64 * throttle_button_bits(throttle)) as u8,
        hat_switch_1: pins_nibble(direction_pins(joystick.dpad1)) as u8,
        hat_switch_2: pins_nibble(direction_pins(joystick.dpad2)) as u8,
        hat_switch_3: pins_nibble(direction_pins(throttle.dpad1)) as u8,
        hat_switch_4: pins_nibble(direction_pins(throttle.dpad2)) as u8,
    }
}

/// Law: in the report's button byte, bit 0 is fire, 1 lock, 2 launch, 3 A, 4 B, 5 C, 6 D and
/// 7 select: each button has a bit of its own, set exactly when the button is pressed.
pub proof fn lemma_report_button_bits(
    analog: AnalogReadings,
    joystick: JoystickButtons,
    throttle: ThrottleButtons,
)
    ensures
        ({
            let v: u8 = spec_report(analog, joystick, throttle).buttons;
            &&& v % 2 == b2n(joystick.fire)
            &&& (v / 2) % 2 == b2n(joystick.lock)
            &&& (v / 4) % 2 == b2n(joystick.launch)
            &&& (v / 8) % 2 == b2n(joystick.a)
            &&& (v / 16) % 2 == b2n(joystick.b)
            &&& (v / 32) % 2 == b2n(joystick.c)
            &&& (v / 64) % 2 == b2n(throttle.d)
            &&& (v / 128) % 2 == b2n(throttle.select)
        }),
{
    let v: u8 = spec_report(analog, joystick, throttle).buttons;
    let f: u8 = if joystick.fire { 1 } else { 0 };
    let l: u8 = if joystick.lock { 1 } else { 0 };
    let la: u8 = if joystick.launch { 1 } else { 0 };
    let a: u8 = if joystick.a { 1 } else { 0 };
    let b: u8 = if joystick.b { 1 } else { 0 };
    let c: u8 = if joystick.c { 1 } else { 0 };
    let d: u8 = if throttle.d { 1 } else { 0 };
    let s: u8 = if throttle.select { 1 } else { 0 };
    assert(v == f + 2 * l + 4 * la + 8 * a + 16 * b + 32 * c + 64 * d + 128 * s);
    assert({
        &&& v % 2 == f
        &&& (v / 2) % 2 == l
        &&& (v / 4) % 2 == la
        &&& (v / 8) % 2 == a
        &&& (v / 16) % 2 == b
        &&& (v / 32) % 2 == c
        &&& (v / 64) % 2 == d
        &&& (v / 128) % 2 == s
    }) by (bit_vector)
        requires
            f <= 1 && l <= 1 && la <= 1 && a <= 1 && b <= 1 && c <= 1 && d <= 1 && s <= 1,
            v == f + 2 * l + 4 * la + 8 * a + 16 * b + 32 * c + 64 * d + 128 * s,
    ;
}

/// The hat value `v` carries position `d`: bit 0 set when `d` presses the up pin, bit 1 the
/// right pin, bit 2 the down pin, bit 3 the left pin, and no other bit.
pub open spec fn carries_position(v: u8, d: DPadDirection) -> bool {
    &&& v < 16
    &&& v % 2 == b2n(direction_pins(d).0)
    &&& (v / 2) % 2 == b2n(direction_pins(d).1)
    &&& (v / 4) % 2 == b2n(direction_pins(d).2)
    &&& (v / 8) % 2 == b2n(direction_pins(d).3)
}

/// Law: every field of the report comes from its own input: hat switch 1 and 2 carry the
/// positions of the stick's first and second hat, 3 and 4 those of the throttle's; x, y and
/// rudder are the centred scaling of the x, y and rudder readings, and throttle, poti1 and
/// poti2 the one-sided scaling of theirs.
pub proof fn lemma_report_fields(
    analog: AnalogReadings,
    joystick: JoystickButtons,
    throttle: ThrottleButtons,
)
    ensures
        ({
            let r = spec_report(analog, joystick, throttle);
            &&& carries_position(r.hat_switch_1, joystick.dpad1)
            &&& carries_position(r.hat_switch_2, joystick.dpad2)
            &&& carries_position(r.hat_switch_3, throttle.dpad1)
            &&& carries_position(r.hat_switch_4, throttle.dpad2)
            &&& r.x == spec_bipolar_axis(analog.x)
            &&& r.y == spec_bipolar_axis(analog.y)
            &&& r.rudder == spec_bipolar_axis(analog.rudder)
            &&& r.throttle == spec_unipolar_axis(analog.throttle)
            &&& r.poti1 == spec_unipolar_axis(analog.poti1)
            &&& r.poti2 == spec_unipolar_axis(analog.poti2)
        }),
{
    lemma_hat_value_bits(joystick.dpad1);
    lemma_hat_value_bits(joystick.dpad2);
    lemma_hat_value_bits(throttle.dpad1);
    lemma_hat_value_bits(throttle.dpad2);
}

/// Law: for a 12-bit conversion a one-sided axis is the conversion divided by 16, with no
/// wrap-around, and it never decreases as the conversion grows.
pub proof fn lemma_unipolar_axis_12bit(raw: u16, raw2: u16)
    requires
        raw <= ADC_MAX,
        raw2 <= ADC_MAX,
    ensures
        ADC_MAX == 4095,
        spec_unipolar_axis(raw) == raw / 16,
        16 * spec_unipolar_axis(raw) <= raw < 16 * spec_unipolar_axis(raw) + 16,
        raw <= raw2 ==> spec_unipolar_axis(raw) <= spec_unipolar_axis(raw2),
{
}

/// Law: for a 12-bit conversion a centred axis is the offset from the midpoint divided by 16
/// toward zero, within -128..=127 and with no wrap-around; it is 0 at the midpoint, it never
/// decreases as the conversion grows, and it is symmetric about the midpoint.
pub proof fn lemma_bipolar_axis_12bit(raw: u16, raw2: u16)
    requires
        raw <= ADC_MAX,
        raw2 <= ADC_MAX,
    ensures
        ADC_MID == 2048 && ADC_MAX == 4095,
        spec_bipolar_axis(raw) == div_toward_zero(raw - ADC_MID, 16),
        -128 <= div_toward_zero(raw - ADC_MID, 16) <= 127,
        raw >= ADC_MID ==> 0 <= spec_bipolar_axis(raw) && 16 * spec_bipolar_axis(raw) <= raw
            - ADC_MID < 16 * spec_bipolar_axis(raw) + 16,
        raw < ADC_MID ==> spec_bipolar_axis(raw) <= 0 && 16 * spec_bipolar_axis(raw) - 16 < raw
            - ADC_MID <= 16 * spec_bipolar_axis(raw),
        spec_bipolar_axis(ADC_MID) == 0,
        raw <= raw2 ==> spec_bipolar_axis(raw) <= spec_bipolar_axis(raw2),
        1 <= raw && raw + raw2 == 2 * ADC_MID ==> spec_bipolar_axis(raw) == -spec_bipolar_axis(raw2),
{
}

/// Scales a conversion to a one-sided axis value.
pub fn unipolar_axis(raw: u16) -> (v: u8)
    ensures
        v == spec_unipolar_axis(raw),
{
    (raw / 16) as u8
}

/// Scales a conversion to a centred axis value.
pub fn bipolar_axis(raw: u16) -> (v: i8)
    ensures
        v == spec_bipolar_axis(raw),
{
    let centred: i32 = if raw >= ADC_MID {
        ((raw - ADC_MID) / 16) as i32
    } else {
        -(((ADC_MID - raw) / 16) as i32)
    };
    centred as i8
}

impl JoystickReport {
    /// Builds the report from the conversions of the six analog inputs and the buttons of
    /// both matrices: the stick's buttons take bits 0 to 5 of the button byte and the
    /// throttle's bits 6 and 7.
    pub fn from_inputs(
        analog: &AnalogReadings,
        joystick: &JoystickButtons,
        throttle: &ThrottleButtons,
    ) -> (r: JoystickReport)
        ensures
            r == spec_report(*analog, *joystick, *throttle),
            carries_position(r.hat_switch_1, joystick.dpad1),
            carries_position(r.hat_switch_2, joystick.dpad2),
            carries_position(r.hat_switch_3, throttle.dpad1),
            carries_position(r.hat_switch_4, throttle.dpad2),
    {
        proof {
            lemma_hat_value_bits(joystick.dpad1);
            lemma_hat_value_bits(joystick.dpad2);
            lemma_hat_value_bits(throttle.dpad1);
            lemma_hat_value_bits(throttle.dpad2);
        }
        let joystick_bits: u8 = joystick.as_bitfield();
        let throttle_bits: u8 = throttle.as_bitfield();
        let buttons: u8 = joystick_bits | (throttle_bits << 6u8);
        assert(buttons == joystick_bits + 64 * throttle_bits) by (bit_vector)
            requires
                joystick_bits < 64 && throttle_bits < 4,
                buttons == joystick_bits | (throttle_bits << 6u8),
        ;
        JoystickReport {
            throttle: unipolar_axis(analog.throttle),
            rudder: bipolar_axis(analog.rudder),
            x: bipolar_axis(analog.x),
            y: bipolar_axis(analog.y),
            poti1: unipolar_axis(analog.poti1),
            poti2: unipolar_axis(analog.poti2),
            buttons,
            hat_switch_1: joystick.dpad1.as_bitfield(),
            hat_switch_2: joystick.dpad2.as_bitfield(),
            hat_switch_3: throttle.dpad1.as_bitfield(),
            hat_switch_4: throttle.dpad2.as_bitfield(),
        }
    }
}

} // verus!
