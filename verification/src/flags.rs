use vstd::prelude::*;

verus! {

/// The four condition flags of the flag register.
#[derive(Clone, Copy, Debug, PartialEq, Eq, Structural)]
pub struct FlagsRegister {
    pub zero: bool,
    pub subtract: bool,
    pub half_carry: bool,
    pub carry: bool,
}

/// 1 when a flag is set, 0 when it is clear.
pub open spec fn flag_bit(b: bool) -> u8 {
    if b {
        1
    } else {
        0
    }
}

/// The packed byte of a flags value: zero at bit 7, subtract at bit 6,
/// half-carry at bit 5, carry at bit 4; bits 3..0 are always zero.
pub open spec fn spec_encode(f: FlagsRegister) -> u8 {
    (flag_bit(f.zero) << 7) | (flag_bit(f.subtract) << 6) | (flag_bit(f.half_carry) << 5)
        | (flag_bit(f.carry) << 4)
}

/// The flags read out of a packed byte: bits 7..4 under the same
/// mapping as `spec_encode`; bits 3..0 are ignored.
pub open spec fn spec_decode(b: u8) -> FlagsRegister {
    FlagsRegister {
        zero: (b >> 7) & 1 == 1,
        subtract: (b >> 6) & 1 == 1,
        half_carry: (b >> 5) & 1 == 1,
        carry: (b >> 4) & 1 == 1,
    }
}

impl FlagsRegister {
    /// A flags value with every flag clear.
    pub fn clear() -> (r: FlagsRegister)
        ensures
            r == (FlagsRegister { zero: false, subtract: false, half_carry: false, carry: false }),
    {
        FlagsRegister { zero: false, subtract: false, half_carry: false, carry: false }
    }

    /// Packs the four flags into their single-byte representation.
    pub fn encode(self) -> (r: u8)
        ensures
            r == spec_encode(self),
            r & 0x0F == 0,
    {
        let zb: u8 = if self.zero { 1 } else { 0 };
        let sb: u8 = if self.subtract { 1 } else { 0 };
        let hb: u8 = if self.half_carry { 1 } else { 0 };
        let cb: u8 = if self.carry { 1 } else { 0 };
        let r: u8 = (zb << 7) | (sb << 6) | (hb << 5) | (cb << 4);
        proof {
            lemma_encode_low_nibble_clear(self);
        }
        r
    }

    /// Unpacks a byte into the four flags, ignoring its low nibble.
    pub fn decode(byte: u8) -> (r: FlagsRegister)
        ensures
            r == spec_decode(byte),
    {
        FlagsRegister {
            zero: (byte >> 7) & 1 == 1,
            subtract: (byte >> 6) & 1 == 1,
            half_carry: (byte >> 5) & 1 == 1,
            carry: (byte >> 4) & 1 == 1,
        }
    }
}

/// The low nibble of an encoded flags value is always zero.
pub proof fn lemma_encode_low_nibble_clear(f: FlagsRegister)
    ensures
        spec_encode(f) & 0x0F == 0,
{
    let zb: u8 = flag_bit(f.zero);
    let sb: u8 = flag_bit(f.subtract);
    let hb: u8 = flag_bit(f.half_carry);
    let cb: u8 = flag_bit(f.carry);
    assert(((zb << 7) | (sb << 6) | (hb << 5) | (cb << 4)) & 0x0F == 0) by (bit_vector);
}

/// Law: packing the four flags and unpacking the byte again gives back
/// exactly the same flags.
pub proof fn lemma_decode_encode(f: FlagsRegister)
    ensures
        spec_decode(spec_encode(f)) == f,
{
    let zb: u8 = flag_bit(f.zero);
    let sb: u8 = flag_bit(f.subtract);
    let hb: u8 = flag_bit(f.half_carry);
    let cb: u8 = flag_bit(f.carry);
    assert(zb <= 1 && sb <= 1 && hb <= 1 && cb <= 1 ==> ((((zb << 7) | (sb << 6) | (hb << 5)
        | (cb << 4)) >> 7) & 1) == zb) by (bit_vector);
    assert(zb <= 1 && sb <= 1 && hb <= 1 && cb <= 1 ==> ((((zb << 7) | (sb << 6) | (hb << 5)
        | (cb << 4)) >> 6) & 1) == sb) by (bit_vector);
    assert(zb <= 1 && sb <= 1 && hb <= 1 && cb <= 1 ==> ((((zb << 7) | (sb << 6) | (hb << 5)
        | (cb << 4)) >> 5) & 1) == hb) by (bit_vector);
    assert(zb <= 1 && sb <= 1 && hb <= 1 && cb <= 1 ==> ((((zb << 7) | (sb << 6) | (hb << 5)
        | (cb << 4)) >> 4) & 1) == cb) by (bit_vector);
}

/// Law: unpacking a byte and packing the flags again keeps the four
/// flag bits and clears the low nibble: the result is `b & 0xF0`.
pub proof fn lemma_encode_decode(b: u8)
    ensures
        spec_encode(spec_decode(b)) == b & 0xF0,
{
    assert((b >> 7) & 1 <= 1) by (bit_vector);
    assert((b >> 6) & 1 <= 1) by (bit_vector);
    assert((b >> 5) & 1 <= 1) by (bit_vector);
    assert((b >> 4) & 1 <= 1) by (bit_vector);
    let zb: u8 = flag_bit((b >> 7) & 1 == 1);
    let sb: u8 = flag_bit((b >> 6) & 1 == 1);
    let hb: u8 = flag_bit((b >> 5) & 1 == 1);
    let cb: u8 = flag_bit((b >> 4) & 1 == 1);
    assert(zb == (b >> 7) & 1);
    assert(sb == (b >> 6) & 1);
    assert(hb == (b >> 5) & 1);
    assert(cb == (b >> 4) & 1);
    assert(((((b >> 7) & 1) << 7) | (((b >> 6) & 1) << 6) | (((b >> 5) & 1) << 5) | (((b >> 4) & 1)
        << 4)) == b & 0xF0) by (bit_vector);
}

} // verus!
