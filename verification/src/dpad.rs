use vstd::prelude::*;

verus! {

/// Position of an eight-way hat switch (a d-pad), or `Center` when it rests in the centre
/// or its pins read a combination that is no position.
#[derive(Debug, Clone, Copy, PartialEq, Eq, Structural)]
pub enum DPadDirection {
    Center,
    Up,
    RightUp,
    Right,
    RightDown,
    Down,
    LeftDown,
    Left,
    LeftUp,
}

/// `1` for a pressed pin or a set flag, `0` otherwise.
pub open spec fn b2n(b: bool) -> int {
    if b { 1 } else { 0 }
}

/// The pins (up, right, down, left) that are pressed in each position.
pub open spec fn direction_pins(d: DPadDirection) -> (bool, bool, bool, bool) {
    match d {
        DPadDirection::Center => (false, false, false, false),
        DPadDirection::Up => (true, false, false, false),
        DPadDirection::RightUp => (true, true, false, false),
        DPadDirection::Right => (false, true, false, false),
        DPadDirection::RightDown => (false, true, true, false),
        DPadDirection::Down => (false, false, true, false),
        DPadDirection::LeftDown => (false, false, true, true),
        DPadDirection::Left => (false, false, false, true),
        DPadDirection::LeftUp => (true, false, false, true),
    }
}

/// The pin levels of a hat switch form one of its positions: no two opposite pins are
/// pressed at once (every combination of three or four pins holds such a pair).
pub open spec fn is_hat_position(up: bool, right: bool, down: bool, left: bool) -> bool {
    !(up && down) && !(left && right)
}

/// The hat nibble of the report: bit 0 up, bit 1 right, bit 2 down, bit 3 left.
pub open spec fn pins_nibble(pins: (bool, bool, bool, bool)) -> int {
    b2n(pins.0) + 2 * b2n(pins.1) + 4 * b2n(pins.2) + 8 * b2n(pins.3)
}

/// Two positions never press the same pins.
pub proof fn lemma_direction_pins_injective(d1: DPadDirection, d2: DPadDirection)
    ensures
        direction_pins(d1) == direction_pins(d2) ==> d1 == d2,
{
}

/// The position that a reading of the four pins denotes: the one whose pressed pins are
/// exactly the pressed pins of the reading, or `Center` when no position has them.
pub open spec fn hat_direction(up: bool, right: bool, down: bool, left: bool) -> DPadDirection {
    if exists|d: DPadDirection| direction_pins(d) == (up, right, down, left) {
        choose|d: DPadDirection| direction_pins(d) == (up, right, down, left)
    } else {
        DPadDirection::Center
    }
}

/// A reading that is some position's pins denotes that position.
pub proof fn lemma_hat_direction_of_pins(d: DPadDirection)
    ensures
        hat_direction(direction_pins(d).0, direction_pins(d).1, direction_pins(d).2, direction_pins(d).3) == d,
{
    let t = direction_pins(d);
    assert(exists|e: DPadDirection| direction_pins(e) == t);
    let c = choose|e: DPadDirection| direction_pins(e) == t;
    lemma_direction_pins_injective(c, d);
}

/// The positions are exactly the readings without a pair of opposite pins pressed.
pub proof fn lemma_hat_direction_spec(up: bool, right: bool, down: bool, left: bool)
    ensures
        is_hat_position(up, right, down, left) ==> direction_pins(hat_direction(up, right, down, left))
            == (up, right, down, left),
        !is_hat_position(up, right, down, left) ==> hat_direction(up, right, down, left)
            == DPadDirection::Center,
{
    let t = (up, right, down, left);
    if is_hat_position(up, right, down, left) {
        let d = if up && right {
            DPadDirection::RightUp
        } else if right && down {
            DPadDirection::RightDown
        } else if down && left {
            DPadDirection::LeftDown
        } else if left && up {
            DPadDirection::LeftUp
        } else if up {
            DPadDirection::Up
        } else if right {
            DPadDirection::Right
        } else if down {
            DPadDirection::Down
        } else if left {
            DPadDirection::Left
        } else {
            DPadDirection::Center
        };
        assert(direction_pins(d) == t);
        lemma_hat_direction_of_pins(d);
    } else {
        assert forall|e: DPadDirection| direction_pins(e) != t by {}
    }
}

/// Law: the hat value sent for a reading of the four pins has one bit set for each
/// pressed pin when the reading is a position of the switch, and is 0 otherwise.
pub proof fn lemma_hat_value_of_pins(up: bool, right: bool, down: bool, left: bool)
    ensures
        pins_nibble(direction_pins(hat_direction(up, right, down, left))) == if is_hat_position(
            up,
            right,
            down,
            left,
        ) {
            pins_nibble((up, right, down, left))
        } else {
            0
        },
{
    lemma_hat_direction_spec(up, right, down, left);
}

/// A position `d` is what a hat switch reads when its up, right, down and left pins are at the
/// given levels: the position pressing exactly those pins, or `Center` when two opposite
/// pins are pressed.
pub open spec fn reads_as(d: DPadDirection, up: bool, right: bool, down: bool, left: bool) -> bool {
    &&& is_hat_position(up, right, down, left) ==> direction_pins(d) == (up, right, down, left)
    &&& !is_hat_position(up, right, down, left) ==> d == DPadDirection::Center
}

/// Law: `hat_direction` is what the pins read.
pub proof fn lemma_hat_direction_reads_as(up: bool, right: bool, down: bool, left: bool)
    ensures
        reads_as(hat_direction(up, right, down, left), up, right, down, left),
{
    lemma_hat_direction_spec(up, right, down, left);
}

/// Law: each position presses the pins its name says: the up pin exactly in the positions
/// named with Up, the right pin in those named with Right, and so on; `Center` presses none.
pub proof fn lemma_direction_names(d: DPadDirection)
    ensures
        direction_pins(d).0 <==> (d == DPadDirection::Up || d == DPadDirection::RightUp || d
            == DPadDirection::LeftUp),
        direction_pins(d).1 <==> (d == DPadDirection::Right || d == DPadDirection::RightUp || d
            == DPadDirection::RightDown),
        direction_pins(d).2 <==> (d == DPadDirection::Down || d == DPadDirection::RightDown || d
            == DPadDirection::LeftDown),
        direction_pins(d).3 <==> (d == DPadDirection::Left || d == DPadDirection::LeftUp || d
            == DPadDirection::LeftDown),
{
}

/// Law: the hat value of a position has bit 0 set when it presses the up pin, bit 1 for the
/// right pin, bit 2 for the down pin and bit 3 for the left pin, and no other bit.
pub proof fn lemma_hat_value_bits(d: DPadDirection)
    ensures
        ({
            let v = pins_nibble(direction_pins(d));
            &&& 0 <= v < 16
            &&& v % 2 == b2n(direction_pins(d).0)
            &&& (v / 2) % 2 == b2n(direction_pins(d).1)
            &&& (v / 4) % 2 == b2n(direction_pins(d).2)
            &&& (v / 8) % 2 == b2n(direction_pins(d).3)
        }),
{
}

/// Law: distinct positions send distinct hat values, so the host tells every position apart.
pub proof fn lemma_hat_value_injective(d1: DPadDirection, d2: DPadDirection)
    ensures
        pins_nibble(direction_pins(d1)) == pins_nibble(direction_pins(d2)) ==> d1 == d2,
{
}

impl Default for DPadDirection {
    fn default() -> (d: Self)
        ensures
            d == DPadDirection::Center,
    {
        DPadDirection::Center
    }
}

impl DPadDirection {
    /// Reads the position from the four pins of the hat switch.
    pub fn from_pins(up: bool, right: bool, down: bool, left: bool) -> (d: DPadDirection)
        ensures
            d == hat_direction(up, right, down, left),
            is_hat_position(up, right, down, left) ==> direction_pins(d) == (up, right, down, left),
            !is_hat_position(up, right, down, left) ==> d == DPadDirection::Center,
    {
        let d = if up && !right && !down && !left {
            DPadDirection::Up
        } else if !up && right && !down && !left {
            DPadDirection::Right
        } else if !up && !right && down && !left {
            DPadDirection::Down
        } else if !up && !right && !down && left {
            DPadDirection::Left
        } else if up && right && !down && !left {
            DPadDirection::RightUp
        } else if !up && right && down && !left {
            DPadDirection::RightDown
        } else if up && !right && !down && left {
            DPadDirection::LeftUp
        } else if !up && !right && down && left {
            DPadDirection::LeftDown
        } else {
            DPadDirection::Center
        };
        proof {
            lemma_hat_direction_spec(up, right, down, left);
            lemma_direction_pins_injective(d, hat_direction(up, right, down, left));
        }
        d
    }

    /// The four-bit hat value sent in the report: one bit for each pressed pin.
    pub fn as_bitfield(&self) -> (bits: u8)
        ensures
            bits == pins_nibble(direction_pins(*self)),
            bits < 16,
    {
        match self {
            DPadDirection::Center => 0b0000,
            DPadDirection::Up => 0b0001,
            DPadDirection::RightUp => 0b0011,
            DPadDirection::Right => 0b0010,
            DPadDirection::RightDown => 0b0110,
            DPadDirection::Down => 0b0100,
            DPadDirection::LeftDown => 0b1100,
            DPadDirection::Left => 0b1000,
            DPadDirection::LeftUp => 0b1001,
        }
    }
}

} // verus!
