use vstd::prelude::*;

use crate::dpad::{b2n, hat_direction, lemma_hat_direction_reads_as, reads_as, DPadDirection};
use crate::scan::ScanStep;

verus! {

/// The buttons, three-position switches and hat switches of the throttle.
#[derive(Debug, Clone, Copy, PartialEq, Eq, Structural)]
pub struct ThrottleButtons {
    /// Position of the mode switch: 0 left, 1 middle, 2 right.
    pub mode: u8,
    /// Position of the aux switch: 0 left, 1 middle, 2 right.
    pub aux: u8,
    pub d: bool,
    pub select: bool,
    pub dpad1: DPadDirection,
    pub dpad2: DPadDirection,
}

/// The button bits of the throttle: bit 0 D, bit 1 select.
pub open spec fn throttle_button_bits(t: ThrottleButtons) -> int {
    b2n(t.d) + 2 * b2n(t.select)
}

/// Position of a three-position switch from its two contacts: left (0) when the left
/// contact is closed, else right (2) when the right one is, else middle (1).
pub open spec fn spec_switch_position(left: bool, right: bool) -> u8 {
    if left {
        0
    } else if right {
        2
    } else {
        1
    }
}

impl Default for ThrottleButtons {
    fn default() -> (t: Self)
        ensures
            t.mode == 0 && t.aux == 0 && !t.d && !t.select,
            t.dpad1 == DPadDirection::Center,
            t.dpad2 == DPadDirection::Center,
    {
        ThrottleButtons {
            mode: 0,
            aux: 0,
            d: false,
            select: false,
            dpad1: DPadDirection::Center,
            dpad2: DPadDirection::Center,
        }
    }
}

/// The select lines of the throttle's matrix, in the order in which a scan drives them.
#[derive(Debug, Clone, Copy, PartialEq, Eq, Structural)]
pub enum ThrottleRow {
    DpadUp,
    DpadRight,
    DpadDown,
    DpadLeftSelect,
}

/// The input lines of the throttle's matrix, sampled while one select line is driven.
#[derive(Debug, Clone, Copy, PartialEq, Eq, Structural)]
pub struct ThrottleLevels {
    pub dpad1: bool,
    pub dpad2: bool,
    pub mode_aux: bool,
    pub input: bool,
}

/// Number of select lines of the throttle's matrix.
pub const THROTTLE_ROWS: usize = 4;

/// The `i`-th select line that a scan drives.
pub open spec fn throttle_row(i: int) -> ThrottleRow {
    if i == 0 {
        ThrottleRow::DpadUp
    } else if i == 1 {
        ThrottleRow::DpadRight
    } else if i == 2 {
        ThrottleRow::DpadDown
    } else {
        ThrottleRow::DpadLeftSelect
    }
}

/// What the lines say: the mode/aux input, read with no line driven, is the left contact of
/// the mode switch; under the up, right and down lines it is the right contact of aux, the
/// left contact of aux and the right contact of mode. D and select sit on the input line
/// under the down and left lines, and the four lines are the pins of both hat switches.
pub open spec fn throttle_buttons_from_rows(
    unselected_mode_aux: bool,
    up: ThrottleLevels,
    right: ThrottleLevels,
    down: ThrottleLevels,
    left: ThrottleLevels,
) -> ThrottleButtons {
    ThrottleButtons {
        mode: spec_switch_position(unselected_mode_aux, down.mode_aux),
        aux: spec_switch_position(right.mode_aux, up.mode_aux),
        d: down.input,
        select: left.input,
        dpad1: hat_direction(up.dpad1, right.dpad1, down.dpad1, left.dpad1),
        dpad2: hat_direction(up.dpad2, right.dpad2, down.dpad2, left.dpad2),
    }
}

/// The step that follows once `sampled` holds the lines sampled so far under the select
/// lines (at least one), `unselected_mode_aux` being the mode/aux line read first.
pub open spec fn throttle_scan_step(unselected_mode_aux: bool, sampled: Seq<ThrottleLevels>) -> ScanStep<
    ThrottleRow,
    ThrottleButtons,
> {
    if sampled.len() < THROTTLE_ROWS {
        ScanStep::Select {
            release: Some(throttle_row(sampled.len() - 1)),
            select: throttle_row(sampled.len() as int),
        }
    } else {
        ScanStep::Done {
            release: throttle_row(THROTTLE_ROWS - 1),
            buttons: throttle_buttons_from_rows(
                unselected_mode_aux,
                sampled[0],
                sampled[1],
                sampled[2],
                sampled[3],
            ),
        }
    }
}

/// Law: a scan reads the mode/aux line with no select line driven, then drives the four
/// select lines one at a time, in order, releasing each line before the next is driven and
/// the last one at the end, and yields the buttons decoded from the five readings.
pub proof fn lemma_throttle_scan(
    unselected_mode_aux: bool,
    l0: ThrottleLevels,
    l1: ThrottleLevels,
    l2: ThrottleLevels,
    l3: ThrottleLevels,
)
    ensures
        throttle_scan_step(unselected_mode_aux, seq![l0]) == (ScanStep::<ThrottleRow, ThrottleButtons>::Select {
            release: Some(ThrottleRow::DpadUp),
            select: ThrottleRow::DpadRight,
        }),
        throttle_scan_step(unselected_mode_aux, seq![l0, l1]) == (ScanStep::<ThrottleRow, ThrottleButtons>::Select {
            release: Some(ThrottleRow::DpadRight),
            select: ThrottleRow::DpadDown,
        }),
        throttle_scan_step(unselected_mode_aux, seq![l0, l1, l2]) == (ScanStep::<ThrottleRow, ThrottleButtons>::Select {
            release: Some(ThrottleRow::DpadDown),
            select: ThrottleRow::DpadLeftSelect,
        }),
        throttle_scan_step(unselected_mode_aux, seq![l0, l1, l2, l3]) == (ScanStep::<ThrottleRow, ThrottleButtons>::Done {
            release: ThrottleRow::DpadLeftSelect,
            buttons: throttle_buttons_from_rows(unselected_mode_aux, l0, l1, l2, l3),
        }),
        throttle_row(0) == ThrottleRow::DpadUp,
{
    assert(seq![l0, l1, l2, l3][0] == l0);
    assert(seq![l0, l1, l2, l3][1] == l1);
    assert(seq![l0, l1, l2, l3][2] == l2);
    assert(seq![l0, l1, l2, l3][3] == l3);
}

/// Law: decoding the throttle reads the mode switch from the mode/aux line read with no
/// select line driven (its left contact) and under the down line (its right contact); the
/// aux switch from the mode/aux line under the right line (its left contact) and under the up
/// line (its right contact), whatever the unselected reading; D and select from the input
/// line under the down and left lines; and each hat switch from its up, right, down and left
/// pins sampled under the up, right, down and left lines. A switch is left (0) when its left
/// contact is closed, right (2) when only its right contact is, and middle (1) otherwise.
pub proof fn lemma_throttle_decoding(
    unselected_mode_aux: bool,
    dpad_up: ThrottleLevels,
    dpad_right: ThrottleLevels,
    dpad_down: ThrottleLevels,
    dpad_left_select: ThrottleLevels,
)
    ensures
        ({
            let t = throttle_buttons_from_rows(
                unselected_mode_aux,
                dpad_up,
                dpad_right,
                dpad_down,
                dpad_left_select,
            );
            &&& (t.mode == 0) == unselected_mode_aux
            &&& (t.mode == 2) == (!unselected_mode_aux && dpad_down.mode_aux)
            &&& (t.mode == 1) == (!unselected_mode_aux && !dpad_down.mode_aux)
            &&& (t.aux == 0) == dpad_right.mode_aux
            &&& (t.aux == 2) == (!dpad_right.mode_aux && dpad_up.mode_aux)
            &&& (t.aux == 1) == (!dpad_right.mode_aux && !dpad_up.mode_aux)
            &&& t.d == dpad_down.input
            &&& t.select == dpad_left_select.input
            &&& reads_as(
                t.dpad1,
                dpad_up.dpad1,
                dpad_right.dpad1,
                dpad_down.dpad1,
                dpad_left_select.dpad1,
            )
            &&& reads_as(
                t.dpad2,
                dpad_up.dpad2,
                dpad_right.dpad2,
                dpad_down.dpad2,
                dpad_left_select.dpad2,
            )
        }),
{
    lemma_hat_direction_reads_as(
        dpad_up.dpad1,
        dpad_right.dpad1,
        dpad_down.dpad1,
        dpad_left_select.dpad1,
    );
    lemma_hat_direction_reads_as(
        dpad_up.dpad2,
        dpad_right.dpad2,
        dpad_down.dpad2,
        dpad_left_select.dpad2,
    );
}

/// Law: in the throttle's button bits D is bit 0 and select bit 1, set exactly when pressed.
pub proof fn lemma_throttle_button_bits(t: ThrottleButtons)
    ensures
        ({
            let v = throttle_button_bits(t);
            &&& 0 <= v < 4
            &&& v % 2 == b2n(t.d)
            &&& (v / 2) % 2 == b2n(t.select)
        }),
{
}

/// Law: a three-position switch always reads one of its three positions, and it reads the
/// middle exactly when neither contact is closed.
pub proof fn lemma_switch_position(left: bool, right: bool)
    ensures
        spec_switch_position(left, right) <= 2,
        spec_switch_position(left, right) == 1 <==> (!left && !right),
        spec_switch_position(left, right) == 0 <==> left,
        spec_switch_position(left, right) == 2 <==> (!left && right),
{
}

/// Position of a three-position switch from its two contacts; the left contact wins when
/// both read closed.
pub fn switch_position(left: bool, right: bool) -> (p: u8)
    ensures
        p == spec_switch_position(left, right),
        p <= 2,
        (p == 0) == left,
        (p == 2) == (!left && right),
        (p == 1) == (!left && !right),
{
    if left {
        0
    } else if right {
        2
    } else {
        1
    }
}

impl ThrottleButtons {
    /// The button bits of the throttle, D in bit 0 and select in bit 1.
    pub fn as_bitfield(&self) -> (bits: u8)
        ensures
            bits == throttle_button_bits(*self),
            bits < 4,
    {
        let d: u8 = if self.d { 1 } else { 0 };
        let select: u8 = if self.select { 1 } else { 0 };
        let bits: u8 = d | select << 1u8;
        assert(bits == d + 2 * select) by (bit_vector)
            requires
                d <= 1 && select <= 1,
                bits == d | select << 1u8,
        ;
        bits
    }

    /// Decodes the mode/aux line read with no select line driven and the lines sampled
    /// under the four select lines, given in scan order.
    pub fn from_rows(
        unselected_mode_aux: bool,
        dpad_up: ThrottleLevels,
        dpad_right: ThrottleLevels,
        dpad_down: ThrottleLevels,
        dpad_left_select: ThrottleLevels,
    ) -> (t: ThrottleButtons)
        ensures
            t == throttle_buttons_from_rows(
                unselected_mode_aux,
                dpad_up,
                dpad_right,
                dpad_down,
                dpad_left_select,
            ),
            (t.mode == 0) == unselected_mode_aux,
            (t.mode == 2) == (!unselected_mode_aux && dpad_down.mode_aux),
            (t.mode == 1) == (!unselected_mode_aux && !dpad_down.mode_aux),
            (t.aux == 0) == dpad_right.mode_aux,
            (t.aux == 2) == (!dpad_right.mode_aux && dpad_up.mode_aux),
            (t.aux == 1) == (!dpad_right.mode_aux && !dpad_up.mode_aux),
            t.d == dpad_down.input,
            t.select == dpad_left_select.input,
            reads_as(t.dpad1, dpad_up.dpad1, dpad_right.dpad1, dpad_down.dpad1, dpad_left_select.dpad1),
            reads_as(t.dpad2, dpad_up.dpad2, dpad_right.dpad2, dpad_down.dpad2, dpad_left_select.dpad2),
    {
        ThrottleButtons {
            mode: switch_position(unselected_mode_aux, dpad_down.mode_aux),
            aux: switch_position(dpad_right.mode_aux, dpad_up.mode_aux),
            d: dpad_down.input,
            select: dpad_left_select.input,
            dpad1: DPadDirection::from_pins(
                dpad_up.dpad1,
                dpad_right.dpad1,
                dpad_down.dpad1,
                dpad_left_select.dpad1,
            ),
            dpad2: DPadDirection::from_pins(
                dpad_up.dpad2,
                dpad_right.dpad2,
                dpad_down.dpad2,
                dpad_left_select.dpad2,
            ),
        }
    }
}

/// The throttle's button matrix: its pins, driven by the caller, and the state of the scan
/// in progress.
pub struct ThrottleButtonsMatrix<P> {
    pub pins: P,
    unselected_mode_aux: bool,
    sampled: Vec<ThrottleLevels>,
    scanning: bool,
}

impl<P> ThrottleButtonsMatrix<P> {
    /// The pins of the matrix.
    pub closed spec fn held_pins(&self) -> P {
        self.pins
    }

    /// The mode/aux line as read, with no select line driven, when the scan began.
    pub closed spec fn unselected_mode_aux(&self) -> bool {
        self.unselected_mode_aux
    }

    /// The lines sampled so far under the select lines, in scan order.
    pub closed spec fn sampled(&self) -> Seq<ThrottleLevels> {
        self.sampled@
    }

    /// A scan is in progress: the select line `throttle_row(self.sampled().len())` is driven
    /// and its sample is awaited.
    pub closed spec fn scanning(&self) -> bool {
        self.scanning
    }

    /// The scan state is consistent.
    pub closed spec fn wf(&self) -> bool {
        &&& self.sampled@.len() <= THROTTLE_ROWS
        &&& self.scanning ==> self.sampled@.len() < THROTTLE_ROWS
    }

    /// A matrix on the given pins, with no scan in progress.
    pub fn new(pins: P) -> (m: Self)
        ensures
            m.held_pins() == pins,
            m.wf(),
            !m.scanning(),
            m.sampled() == Seq::<ThrottleLevels>::empty(),
    {
        ThrottleButtonsMatrix { pins, unselected_mode_aux: false, sampled: Vec::new(), scanning: false }
    }

    /// Whether a scan is in progress, so that `record` may be called.
    pub fn is_scanning(&self) -> (r: bool)
        ensures
            r == self.scanning(),
    {
        self.scanning
    }

    /// Starts a scan (dropping any scan in progress) with the mode/aux line read while no
    /// select line is driven: the first select line is to be driven.
    pub fn begin_scan(&mut self, unselected_mode_aux: bool) -> (step: ScanStep<ThrottleRow, ThrottleButtons>)
        ensures
            final(self).held_pins() == old(self).held_pins(),
            final(self).wf(),
            final(self).scanning(),
            final(self).unselected_mode_aux() == unselected_mode_aux,
            final(self).sampled() == Seq::<ThrottleLevels>::empty(),
            step == (ScanStep::<ThrottleRow, ThrottleButtons>::Select {
                release: None,
                select: throttle_row(0),
            }),
    {
        self.sampled.clear();
        self.unselected_mode_aux = unselected_mode_aux;
        self.scanning = true;
        ScanStep::Select { release: None, select: ThrottleRow::DpadUp }
    }

    /// Records the input lines sampled under the select line now driven, and says what to do
    /// next: drive the following line, or, after the last, release it and take the buttons.
    pub fn record(&mut self, levels: ThrottleLevels) -> (step: ScanStep<ThrottleRow, ThrottleButtons>)
        requires
            old(self).wf(),
            old(self).scanning(),
        ensures
            final(self).held_pins() == old(self).held_pins(),
            final(self).wf(),
            final(self).unselected_mode_aux() == old(self).unselected_mode_aux(),
            final(self).sampled() == old(self).sampled().push(levels),
            final(self).scanning() == (final(self).sampled().len() < THROTTLE_ROWS),
            step == throttle_scan_step(final(self).unselected_mode_aux(), final(self).sampled()),
    {
        self.sampled.push(levels);
        let n: usize = self.sampled.len();
        if n == 1 {
            ScanStep::Select { release: Some(ThrottleRow::DpadUp), select: ThrottleRow::DpadRight }
        } else if n == 2 {
            ScanStep::Select { release: Some(ThrottleRow::DpadRight), select: ThrottleRow::DpadDown }
        } else if n == 3 {
            ScanStep::Select {
                release: Some(ThrottleRow::DpadDown),
                select: ThrottleRow::DpadLeftSelect,
            }
        } else {
            self.scanning = false;
            let buttons = ThrottleButtons::from_rows(
                self.unselected_mode_aux,
                self.sampled[0],
                self.sampled[1],
                self.sampled[2],
                self.sampled[3],
            );
            ScanStep::Done { release: ThrottleRow::DpadLeftSelect, buttons }
        }
    }
}

} // verus!
