use vstd::prelude::*;

use crate::dpad::{b2n, hat_direction, lemma_hat_direction_reads_as, reads_as, DPadDirection};
use crate::scan::ScanStep;

verus! {

/// The buttons and hat switches of the stick.
#[derive(Debug, Clone, Copy, PartialEq, Eq, Structural)]
pub struct JoystickButtons {
    pub lock: bool,
    pub fire: bool,
    pub launch: bool,
    pub a: bool,
    pub b: bool,
    pub c: bool,
    pub dpad1: DPadDirection,
    pub dpad2: DPadDirection,
}

/// The button bits of the stick: bit 0 fire, 1 lock, 2 launch, 3 A, 4 B, 5 C.
pub open spec fn joystick_button_bits(j: JoystickButtons) -> int {
    b2n(j.fire) + 2 * b2n(j.lock) + 4 * b2n(j.launch) + 8 * b2n(j.a) + 16 * b2n(j.b) + 32 * b2n(
        j.c,
    )
}

impl Default for JoystickButtons {
    fn default() -> (j: Self)
        ensures
            !j.lock && !j.fire && !j.launch && !j.a && !j.b && !j.c,
            j.dpad1 == DPadDirection::Center,
            j.dpad2 == DPadDirection::Center,
    {
        JoystickButtons {
            lock: false,
            fire: false,
            launch: false,
            a: false,
            b: false,
            c: false,
            dpad1: DPadDirection::Center,
            dpad2: DPadDirection::Center,
        }
    }
}

/// The select lines of the stick's matrix, in the order in which a scan drives them.
#[derive(Debug, Clone, Copy, PartialEq, Eq, Structural)]
pub enum JoystickRow {
    FireDpadUpBtnC,
    LockDpadRightBtnA,
    DpadDownBtnB,
    DpadLeftLaunch,
}

/// The input lines of the stick's matrix, sampled while one select line is driven.
#[derive(Debug, Clone, Copy, PartialEq, Eq, Structural)]
pub struct JoystickLevels {
    pub dpad1: bool,
    pub dpad2: bool,
    pub buttons: bool,
    pub fire_lock: bool,
}

/// Number of select lines of the stick's matrix.
pub const JOYSTICK_ROWS: usize = 4;

/// The `i`-th select line that a scan drives.
pub open spec fn joystick_row(i: int) -> JoystickRow {
    if i == 0 {
        JoystickRow::FireDpadUpBtnC
    } else if i == 1 {
        JoystickRow::LockDpadRightBtnA
    } else if i == 2 {
        JoystickRow::DpadDownBtnB
    } else {
        JoystickRow::DpadLeftLaunch
    }
}

/// What the lines sampled under each select line say: the fire and lock buttons sit on the
/// fire/lock input of the first two lines, A, B, C and launch on the buttons input, and the
/// four lines are the up, right, down and left pins of both hat switches.
pub open spec fn joystick_buttons_from_rows(
    up: JoystickLevels,
    right: JoystickLevels,
    down: JoystickLevels,
    left: JoystickLevels,
) -> JoystickButtons {
    JoystickButtons {
        fire: up.fire_lock,
        c: up.buttons,
        lock: right.fire_lock,
        a: right.buttons,
        b: down.buttons,
        launch: left.buttons,
        dpad1: hat_direction(up.dpad1, right.dpad1, down.dpad1, left.dpad1),
        dpad2: hat_direction(up.dpad2, right.dpad2, down.dpad2, left.dpad2),
    }
}

/// The step that follows once `sampled` holds the lines sampled so far in a scan (at least
/// one row): select the next line, or finish with the decoded buttons after the last.
pub open spec fn joystick_scan_step(sampled: Seq<JoystickLevels>) -> ScanStep<
    JoystickRow,
    JoystickButtons,
> {
    if sampled.len() < JOYSTICK_ROWS {
        ScanStep::Select {
            release: Some(joystick_row(sampled.len() - 1)),
            select: joystick_row(sampled.len() as int),
        }
    } else {
        ScanStep::Done {
            release: joystick_row(JOYSTICK_ROWS - 1),
            buttons: joystick_buttons_from_rows(sampled[0], sampled[1], sampled[2], sampled[3]),
        }
    }
}

/// Law: a scan drives the four select lines one at a time, in order, releasing each line
/// before the next is driven and the last one at the end, and yields the buttons decoded
/// from the four samples.
pub proof fn lemma_joystick_scan(
    l0: JoystickLevels,
    l1: JoystickLevels,
    l2: JoystickLevels,
    l3: JoystickLevels,
)
    ensures
        joystick_scan_step(seq![l0]) == (ScanStep::<JoystickRow, JoystickButtons>::Select {
            release: Some(JoystickRow::FireDpadUpBtnC),
            select: JoystickRow::LockDpadRightBtnA,
        }),
        joystick_scan_step(seq![l0, l1]) == (ScanStep::<JoystickRow, JoystickButtons>::Select {
            release: Some(JoystickRow::LockDpadRightBtnA),
            select: JoystickRow::DpadDownBtnB,
        }),
        joystick_scan_step(seq![l0, l1, l2]) == (ScanStep::<JoystickRow, JoystickButtons>::Select {
            release: Some(JoystickRow::DpadDownBtnB),
            select: JoystickRow::DpadLeftLaunch,
        }),
        joystick_scan_step(seq![l0, l1, l2, l3]) == (ScanStep::<JoystickRow, JoystickButtons>::Done {
            release: JoystickRow::DpadLeftLaunch,
            buttons: joystick_buttons_from_rows(l0, l1, l2, l3),
        }),
        joystick_row(0) == JoystickRow::FireDpadUpBtnC,
{
    assert(seq![l0, l1, l2, l3][0] == l0);
    assert(seq![l0, l1, l2, l3][1] == l1);
    assert(seq![l0, l1, l2, l3][2] == l2);
    assert(seq![l0, l1, l2, l3][3] == l3);
}

/// Law: decoding the samples taken under the four select lines, in scan order, reads each
/// button from the line that carries it under its own select line (fire and C under the
/// first, lock and A under the second, B under the third, launch under the fourth) and each
/// hat switch from its up, right, down and left pins sampled under the first, second, third
/// and fourth line.
pub proof fn lemma_joystick_decoding(
    fire_dpad_up_btn_c: JoystickLevels,
    lock_dpad_right_btn_a: JoystickLevels,
    dpad_down_btn_b: JoystickLevels,
    dpad_left_launch: JoystickLevels,
)
    ensures
        ({
            let j = joystick_buttons_from_rows(
                fire_dpad_up_btn_c,
                lock_dpad_right_btn_a,
                dpad_down_btn_b,
                dpad_left_launch,
            );
            &&& j.fire == fire_dpad_up_btn_c.fire_lock
            &&& j.c == fire_dpad_up_btn_c.buttons
            &&& j.lock == lock_dpad_right_btn_a.fire_lock
            &&& j.a == lock_dpad_right_btn_a.buttons
            &&& j.b == dpad_down_btn_b.buttons
            &&& j.launch == dpad_left_launch.buttons
            &&& reads_as(
                j.dpad1,
                fire_dpad_up_btn_c.dpad1,
                lock_dpad_right_btn_a.dpad1,
                dpad_down_btn_b.dpad1,
                dpad_left_launch.dpad1,
            )
            &&& reads_as(
                j.dpad2,
                fire_dpad_up_btn_c.dpad2,
                lock_dpad_right_btn_a.dpad2,
                dpad_down_btn_b.dpad2,
                dpad_left_launch.dpad2,
            )
        }),
{
    lemma_hat_direction_reads_as(
        fire_dpad_up_btn_c.dpad1,
        lock_dpad_right_btn_a.dpad1,
        dpad_down_btn_b.dpad1,
        dpad_left_launch.dpad1,
    );
    lemma_hat_direction_reads_as(
        fire_dpad_up_btn_c.dpad2,
        lock_dpad_right_btn_a.dpad2,
        dpad_down_btn_b.dpad2,
        dpad_left_launch.dpad2,
    );
}

/// Law: in the stick's button bits each button has a bit of its own, set exactly when it is
/// pressed: fire bit 0, lock 1, launch 2, A 3, B 4, C 5; bits 6 and 7 stay clear.
pub proof fn lemma_joystick_button_bits(j: JoystickButtons)
    ensures
        ({
            let v = joystick_button_bits(j);
            &&& 0 <= v < 64
            &&& v % 2 == b2n(j.fire)
            &&& (v / 2) % 2 == b2n(j.lock)
            &&& (v / 4) % 2 == b2n(j.launch)
            &&& (v / 8) % 2 == b2n(j.a)
            &&& (v / 16) % 2 == b2n(j.b)
            &&& (v / 32) % 2 == b2n(j.c)
        }),
{
}

impl JoystickButtons {
    /// The button byte of the stick, fire in bit 0 up to C in bit 5.
    pub fn as_bitfield(&self) -> (bits: u8)
        ensures
            bits == joystick_button_bits(*self),
            bits < 64,
    {
        let fire: u8 = if self.fire { 1 } else { 0 };
        let lock: u8 = if self.lock { 1 } else { 0 };
        let launch: u8 = if self.launch { 1 } else { 0 };
        let a: u8 = if self.a { 1 } else { 0 };
        let b: u8 = if self.b { 1 } else { 0 };
        let c: u8 = if self.c { 1 } else { 0 };
        let bits: u8 = fire | lock << 1u8 | launch << 2u8 | a << 3u8 | b << 4u8 | c << 5u8;
        assert(bits == fire + 2 * lock + 4 * launch + 8 * a + 16 * b + 32 * c) by (bit_vector)
            requires
                fire <= 1 && lock <= 1 && launch <= 1 && a <= 1 && b <= 1 && c <= 1,
                bits == fire | lock << 1u8 | launch << 2u8 | a << 3u8 | b << 4u8 | c << 5u8,
        ;
        bits
    }

    /// Decodes the lines sampled under the four select lines, given in scan order.
    pub fn from_rows(
        fire_dpad_up_btn_c: JoystickLevels,
        lock_dpad_right_btn_a: JoystickLevels,
        dpad_down_btn_b: JoystickLevels,
        dpad_left_launch: JoystickLevels,
    ) -> (j: JoystickButtons)
        ensures
            j == joystick_buttons_from_rows(
                fire_dpad_up_btn_c,
                lock_dpad_right_btn_a,
                dpad_down_btn_b,
                dpad_left_launch,
            ),
            j.fire == fire_dpad_up_btn_c.fire_lock,
            j.c == fire_dpad_up_btn_c.buttons,
            j.lock == lock_dpad_right_btn_a.fire_lock,
            j.a == lock_dpad_right_btn_a.buttons,
            j.b == dpad_down_btn_b.buttons,
            j.launch == dpad_left_launch.buttons,
            reads_as(
                j.dpad1,
                fire_dpad_up_btn_c.dpad1,
                lock_dpad_right_btn_a.dpad1,
                dpad_down_btn_b.dpad1,
                dpad_left_launch.dpad1,
            ),
            reads_as(
                j.dpad2,
                fire_dpad_up_btn_c.dpad2,
                lock_dpad_right_btn_a.dpad2,
                dpad_down_btn_b.dpad2,
                dpad_left_launch.dpad2,
            ),
    {
        JoystickButtons {
            fire: fire_dpad_up_btn_c.fire_lock,
            c: fire_dpad_up_btn_c.buttons,
            lock: lock_dpad_right_btn_a.fire_lock,
            a: lock_dpad_right_btn_a.buttons,
            b: dpad_down_btn_b.buttons,
            launch: dpad_left_launch.buttons,
            dpad1: DPadDirection::from_pins(
                fire_dpad_up_btn_c.dpad1,
                lock_dpad_right_btn_a.dpad1,
                dpad_down_btn_b.dpad1,
                dpad_left_launch.dpad1,
            ),
            dpad2: DPadDirection::from_pins(
                fire_dpad_up_btn_c.dpad2,
                lock_dpad_right_btn_a.dpad2,
                dpad_down_btn_b.dpad2,
                dpad_left_launch.dpad2,
            ),
        }
    }
}

/// The stick's button matrix: its pins, driven by the caller, and the state of the scan in
/// progress.
pub struct JoystickButtonsMatrix<P> {
    pub pins: P,
    sampled: Vec<JoystickLevels>,
    scanning: bool,
}

impl<P> JoystickButtonsMatrix<P> {
    /// The pins of the matrix.
    pub closed spec fn held_pins(&self) -> P {
        self.pins
    }

    /// The lines sampled so far in the current (or last) scan, in scan order.
    pub closed spec fn sampled(&self) -> Seq<JoystickLevels> {
        self.sampled@
    }

    /// A scan is in progress: the select line `joystick_row(self.sampled().len())` is driven
    /// and its sample is awaited.
    pub closed spec fn scanning(&self) -> bool {
        self.scanning
    }

    /// The scan state is consistent.
    pub closed spec fn wf(&self) -> bool {
        &&& self.sampled@.len() <= JOYSTICK_ROWS
        &&& self.scanning ==> self.sampled@.len() < JOYSTICK_ROWS
    }

    /// A matrix on the given pins, with no scan in progress.
    pub fn new(pins: P) -> (m: Self)
        ensures
            m.held_pins() == pins,
            m.wf(),
            !m.scanning(),
            m.sampled() == Seq::<JoystickLevels>::empty(),
    {
        JoystickButtonsMatrix { pins, sampled: Vec::new(), scanning: false }
    }

    /// Whether a scan is in progress, so that `record` may be called.
    pub fn is_scanning(&self) -> (r: bool)
        ensures
            r == self.scanning(),
    {
        self.scanning
    }

    /// Starts a scan (dropping any scan in progress): the first select line is to be driven.
    pub fn begin_scan(&mut self) -> (step: ScanStep<JoystickRow, JoystickButtons>)
        ensures
            final(self).held_pins() == old(self).held_pins(),
            final(self).wf(),
            final(self).scanning(),
            final(self).sampled() == Seq::<JoystickLevels>::empty(),
            step == (ScanStep::<JoystickRow, JoystickButtons>::Select {
                release: None,
                select: joystick_row(0),
            }),
    {
        self.sampled.clear();
        self.scanning = true;
        ScanStep::Select { release: None, select: JoystickRow::FireDpadUpBtnC }
    }

    /// Records the input lines sampled under the select line now driven, and says what to do
    /// next: drive the following line, or, after the last, release it and take the buttons.
    pub fn record(&mut self, levels: JoystickLevels) -> (step: ScanStep<JoystickRow, JoystickButtons>)
        requires
            old(self).wf(),
            old(self).scanning(),
        ensures
            final(self).held_pins() == old(self).held_pins(),
            final(self).wf(),
            final(self).sampled() == old(self).sampled().push(levels),
            final(self).scanning() == (final(self).sampled().len() < JOYSTICK_ROWS),
            step == joystick_scan_step(final(self).sampled()),
    {
        self.sampled.push(levels);
        let n: usize = self.sampled.len();
        if n == 1 {
            ScanStep::Select {
                release: Some(JoystickRow::FireDpadUpBtnC),
                select: JoystickRow::LockDpadRightBtnA,
            }
        } else if n == 2 {
            ScanStep::Select {
                release: Some(JoystickRow::LockDpadRightBtnA),
                select: JoystickRow::DpadDownBtnB,
            }
        } else if n == 3 {
            ScanStep::Select {
                release: Some(JoystickRow::DpadDownBtnB),
                select: JoystickRow::DpadLeftLaunch,
            }
        } else {
            self.scanning = false;
            let buttons = JoystickButtons::from_rows(
                self.sampled[0],
                self.sampled[1],
                self.sampled[2],
                self.sampled[3],
            );
            ScanStep::Done { release: JoystickRow::DpadLeftLaunch, buttons }
        }
    }
}

} // verus!
