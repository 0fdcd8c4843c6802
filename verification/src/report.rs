//! The 8-byte poll report and its bit layout.

use vstd::prelude::*;

verus! {

/// The button and stick inputs to be reported to a gamecube compatible
/// device. Caller-supplied; the library only reads it to build a report.
#[derive(Clone, Copy, PartialEq, Eq, Structural, Debug)]
pub struct GamecubeInput {
    pub start: bool,
    pub a: bool,
    pub b: bool,
    pub x: bool,
    pub y: bool,
    pub z: bool,
    pub dpad_up: bool,
    pub dpad_down: bool,
    pub dpad_left: bool,
    pub dpad_right: bool,
    pub l_digital: bool,
    pub r_digital: bool,
    pub stick_x: u8,
    pub stick_y: u8,
    pub cstick_x: u8,
    pub cstick_y: u8,
    pub l_analog: u8,
    pub r_analog: u8,
}

/// `mask` if the flag is set, otherwise 0.
pub open spec fn bit_if(flag: bool, mask: u8) -> u8 {
    if flag {
        mask
    } else {
        0
    }
}

/// Whether the bits selected by `mask` are set in `b`.
pub open spec fn bit_set(b: u8, mask: u8) -> bool {
    b & mask != 0
}

/// First button byte: bit0=A, bit1=B, bit2=X, bit3=Y, bit4=Start.
pub open spec fn spec_buttons1(i: GamecubeInput) -> u8 {
    bit_if(i.a, 0x01) | bit_if(i.b, 0x02) | bit_if(i.x, 0x04) | bit_if(i.y, 0x08) | bit_if(
        i.start,
        0x10,
    )
}

/// Second button byte: bit7 always set; bit0=DpadLeft, bit1=DpadRight,
/// bit2=DpadDown, bit3=DpadUp, bit4=Z, bit5=R-digital, bit6=L-digital.
pub open spec fn spec_buttons2(i: GamecubeInput) -> u8 {
    0x80 | bit_if(i.dpad_left, 0x01) | bit_if(i.dpad_right, 0x02) | bit_if(i.dpad_down, 0x04)
        | bit_if(i.dpad_up, 0x08) | bit_if(i.z, 0x10) | bit_if(i.r_digital, 0x20) | bit_if(
        i.l_digital,
        0x40,
    )
}

/// The full 8-byte poll report for a snapshot: the two button bytes, then
/// stick x/y, c-stick x/y, and the two analog triggers.
pub open spec fn spec_report(i: GamecubeInput) -> Seq<u8> {
    seq![
        spec_buttons1(i),
        spec_buttons2(i),
        i.stick_x,
        i.stick_y,
        i.cstick_x,
        i.cstick_y,
        i.l_analog,
        i.r_analog,
    ]
}

impl GamecubeInput {
    /// Build the 8-byte poll report for this snapshot.
    pub fn create_report(&self) -> (r: [u8; 8])
        ensures
            r@ == spec_report(*self),
    {
        let buttons1: u8 = (if self.a {
            0x01
        } else {
            0
        }) | (if self.b {
            0x02
        } else {
            0
        }) | (if self.x {
            0x04
        } else {
            0
        }) | (if self.y {
            0x08
        } else {
            0
        }) | (if self.start {
            0x10
        } else {
            0
        });

        let buttons2: u8 = 0x80 | (if self.dpad_left {
            0x01
        } else {
            0
        }) | (if self.dpad_right {
            0x02
        } else {
            0
        }) | (if self.dpad_down {
            0x04
        } else {
            0
        }) | (if self.dpad_up {
            0x08
        } else {
            0
        }) | (if self.z {
            0x10
        } else {
            0
        }) | (if self.r_digital {
            0x20
        } else {
            0
        }) | (if self.l_digital {
            0x40
        } else {
            0
        });

        let r: [u8; 8] = [
            buttons1,
            buttons2,
            self.stick_x,
            self.stick_y,
            self.cstick_x,
            self.cstick_y,
            self.l_analog,
            self.r_analog,
        ];
        proof {
            assert(r@ =~= spec_report(*self));
        }
        r
    }
}

/// Five single-bit flags combined by `|` occupy disjoint bit positions, so
/// masking recovers each one and the three high bits stay clear.
proof fn lemma_or5_bits(a: u8, b: u8, c: u8, d: u8, e: u8)
    by (bit_vector)
    requires
        a == 0 || a == 0x01,
        b == 0 || b == 0x02,
        c == 0 || c == 0x04,
        d == 0 || d == 0x08,
        e == 0 || e == 0x10,
    ensures
        (a | b | c | d | e) & 0x01 == a,
        (a | b | c | d | e) & 0x02 == b,
        (a | b | c | d | e) & 0x04 == c,
        (a | b | c | d | e) & 0x08 == d,
        (a | b | c | d | e) & 0x10 == e,
        (a | b | c | d | e) & 0xE0 == 0,
{
}

/// Seven single-bit flags below a constantly set top bit: masking recovers
/// each flag and the top bit.
proof fn lemma_or7_bits(a: u8, b: u8, c: u8, d: u8, e: u8, f: u8, g: u8)
    by (bit_vector)
    requires
        a == 0 || a == 0x01,
        b == 0 || b == 0x02,
        c == 0 || c == 0x04,
        d == 0 || d == 0x08,
        e == 0 || e == 0x10,
        f == 0 || f == 0x20,
        g == 0 || g == 0x40,
    ensures
        (0x80 | a | b | c | d | e | f | g) & 0x01 == a,
        (0x80 | a | b | c | d | e | f | g) & 0x02 == b,
        (0x80 | a | b | c | d | e | f | g) & 0x04 == c,
        (0x80 | a | b | c | d | e | f | g) & 0x08 == d,
        (0x80 | a | b | c | d | e | f | g) & 0x10 == e,
        (0x80 | a | b | c | d | e | f | g) & 0x20 == f,
        (0x80 | a | b | c | d | e | f | g) & 0x40 == g,
        (0x80 | a | b | c | d | e | f | g) & 0x80 == 0x80,
{
}

/// Round trip: decoding the documented bit positions of a poll report
/// recovers every field of the snapshot it was encoded from, and the
/// always-set marker bit of the second button byte is set.
pub proof fn lemma_report_roundtrip(i: GamecubeInput)
    ensures
        spec_report(i).len() == 8,
        bit_set(spec_report(i)[0], 0x01) == i.a,
        bit_set(spec_report(i)[0], 0x02) == i.b,
        bit_set(spec_report(i)[0], 0x04) == i.x,
        bit_set(spec_report(i)[0], 0x08) == i.y,
        bit_set(spec_report(i)[0], 0x10) == i.start,
        spec_report(i)[0] & 0xE0 == 0,
        bit_set(spec_report(i)[1], 0x01) == i.dpad_left,
        bit_set(spec_report(i)[1], 0x02) == i.dpad_right,
        bit_set(spec_report(i)[1], 0x04) == i.dpad_down,
        bit_set(spec_report(i)[1], 0x08) == i.dpad_up,
        bit_set(spec_report(i)[1], 0x10) == i.z,
        bit_set(spec_report(i)[1], 0x20) == i.r_digital,
        bit_set(spec_report(i)[1], 0x40) == i.l_digital,
        bit_set(spec_report(i)[1], 0x80),
        spec_report(i)[2] == i.stick_x,
        spec_report(i)[3] == i.stick_y,
        spec_report(i)[4] == i.cstick_x,
        spec_report(i)[5] == i.cstick_y,
        spec_report(i)[6] == i.l_analog,
        spec_report(i)[7] == i.r_analog,
{
    lemma_or5_bits(
        bit_if(i.a, 0x01),
        bit_if(i.b, 0x02),
        bit_if(i.x, 0x04),
        bit_if(i.y, 0x08),
        bit_if(i.start, 0x10),
    );
    lemma_or7_bits(
        bit_if(i.dpad_left, 0x01),
        bit_if(i.dpad_right, 0x02),
        bit_if(i.dpad_down, 0x04),
        bit_if(i.dpad_up, 0x08),
        bit_if(i.z, 0x10),
        bit_if(i.r_digital, 0x20),
        bit_if(i.l_digital, 0x40),
    );
}

} // verus!
