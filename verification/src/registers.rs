use vstd::prelude::*;

use crate::flags::{spec_decode, spec_encode, FlagsRegister};

verus! {

/// Selector for one of the seven general-purpose 8-bit registers.
#[derive(Clone, Copy, Debug, PartialEq, Eq, Structural)]
pub enum ArithmeticTarget {
    A,
    B,
    C,
    D,
    E,
    H,
    L,
}

/// Selector for one of the four composite 16-bit register pairs.
#[derive(Clone, Copy, Debug, PartialEq, Eq, Structural)]
pub enum RegisterPair {
    AF,
    BC,
    DE,
    HL,
}

/// The register file: seven 8-bit registers plus the flags, which pair
/// with the accumulator as AF.
#[derive(Clone, Copy, Debug, PartialEq, Eq, Structural)]
pub struct Registers {
    pub a: u8,
    pub b: u8,
    pub c: u8,
    pub d: u8,
    pub e: u8,
    pub f: FlagsRegister,
    pub h: u8,
    pub l: u8,
}

/// The 16-bit value formed by a high byte and a low byte.
pub open spec fn pair_value(hi: u8, lo: u8) -> u16 {
    (hi * 256 + lo) as u16
}

/// The register that a selector picks out.
pub open spec fn spec_read_register(regs: Registers, t: ArithmeticTarget) -> u8 {
    match t {
        ArithmeticTarget::A => regs.a,
        ArithmeticTarget::B => regs.b,
        ArithmeticTarget::C => regs.c,
        ArithmeticTarget::D => regs.d,
        ArithmeticTarget::E => regs.e,
        ArithmeticTarget::H => regs.h,
        ArithmeticTarget::L => regs.l,
    }
}

/// The register file after writing `v` to the selected register; no
/// other register and no flag changes.
pub open spec fn spec_write_register(regs: Registers, t: ArithmeticTarget, v: u8) -> Registers {
    match t {
        ArithmeticTarget::A => Registers { a: v, ..regs },
        ArithmeticTarget::B => Registers { b: v, ..regs },
        ArithmeticTarget::C => Registers { c: v, ..regs },
        ArithmeticTarget::D => Registers { d: v, ..regs },
        ArithmeticTarget::E => Registers { e: v, ..regs },
        ArithmeticTarget::H => Registers { h: v, ..regs },
        ArithmeticTarget::L => Registers { l: v, ..regs },
    }
}

/// The 16-bit value of a composite pair; AF packs the flags as its low
/// byte.
pub open spec fn spec_get_pair(regs: Registers, p: RegisterPair) -> u16 {
    match p {
        RegisterPair::AF => pair_value(regs.a, spec_encode(regs.f)),
        RegisterPair::BC => pair_value(regs.b, regs.c),
        RegisterPair::DE => pair_value(regs.d, regs.e),
        RegisterPair::HL => pair_value(regs.h, regs.l),
    }
}

/// The register file after writing a 16-bit value to a composite pair:
/// high byte to the first-named register, low byte to the second.
/// Writing AF routes the low byte through the flag codec, which
/// discards its low nibble.
pub open spec fn spec_set_pair(regs: Registers, p: RegisterPair, v: u16) -> Registers {
    match p {
        RegisterPair::AF => Registers {
            a: (v / 256) as u8,
            f: spec_decode((v % 256) as u8),
            ..regs
        },
        RegisterPair::BC => Registers { b: (v / 256) as u8, c: (v % 256) as u8, ..regs },
        RegisterPair::DE => Registers { d: (v / 256) as u8, e: (v % 256) as u8, ..regs },
        RegisterPair::HL => Registers { h: (v / 256) as u8, l: (v % 256) as u8, ..regs },
    }
}

impl Registers {
    /// A register file with every register zero and every flag clear.
    pub fn new() -> (r: Registers)
        ensures
            r == (Registers {
                a: 0,
                b: 0,
                c: 0,
                d: 0,
                e: 0,
                f: FlagsRegister { zero: false, subtract: false, half_carry: false, carry: false },
                h: 0,
                l: 0,
            }),
    {
        Registers {
            a: 0,
            b: 0,
            c: 0,
            d: 0,
            e: 0,
            f: FlagsRegister::clear(),
            h: 0,
            l: 0,
        }
    }

    /// Reads the 8-bit register that the selector picks out.
    pub fn read_register(&self, t: ArithmeticTarget) -> (r: u8)
        ensures
            r == spec_read_register(*self, t),
    {
        match t {
            ArithmeticTarget::A => self.a,
            ArithmeticTarget::B => self.b,
            ArithmeticTarget::C => self.c,
            ArithmeticTarget::D => self.d,
            ArithmeticTarget::E => self.e,
            ArithmeticTarget::H => self.h,
            ArithmeticTarget::L => self.l,
        }
    }

    /// Writes `v` to the 8-bit register that the selector picks out.
    pub fn write_register(&mut self, t: ArithmeticTarget, v: u8)
        ensures
            *final(self) == spec_write_register(*old(self), t, v),
    {
        match t {
            ArithmeticTarget::A => self.a = v,
            ArithmeticTarget::B => self.b = v,
            ArithmeticTarget::C => self.c = v,
            ArithmeticTarget::D => self.d = v,
            ArithmeticTarget::E => self.e = v,
            ArithmeticTarget::H => self.h = v,
            ArithmeticTarget::L => self.l = v,
        }
    }

    /// The AF pair: accumulator high, packed flag byte low.
    pub fn get_af(&self) -> (r: u16)
        ensures
            r == pair_value(self.a, spec_encode(self.f)),
    {
        let fb: u8 = self.f.encode();
        (self.a as u16) * 256 + (fb as u16)
    }

    /// Writes the AF pair: the high byte to the accumulator, the low
    /// byte through the flag codec, which discards its low nibble.
    pub fn set_af(&mut self, value: u16)
        ensures
            *final(self) == spec_set_pair(*old(self), RegisterPair::AF, value),
    {
        proof {
            lemma_u16_byte_split(value);
        }
        self.a = (value >> 8) as u8;
        self.f = FlagsRegister::decode((value & 0xFF) as u8);
    }

    /// The BC pair: B high, C low.
    pub fn get_bc(&self) -> (r: u16)
        ensures
            r == pair_value(self.b, self.c),
    {
        (self.b as u16) * 256 + (self.c as u16)
    }

    /// Writes the BC pair: high byte to B, low byte to C.
    pub fn set_bc(&mut self, value: u16)
        ensures
            *final(self) == spec_set_pair(*old(self), RegisterPair::BC, value),
    {
        proof {
            lemma_u16_byte_split(value);
        }
        self.b = (value >> 8) as u8;
        self.c = (value & 0xFF) as u8;
    }

    /// The DE pair: D high, E low.
    pub fn get_de(&self) -> (r: u16)
        ensures
            r == pair_value(self.d, self.e),
    {
        (self.d as u16) * 256 + (self.e as u16)
    }

    /// Writes the DE pair: high byte to D, low byte to E.
    pub fn set_de(&mut self, value: u16)
        ensures
            *final(self) == spec_set_pair(*old(self), RegisterPair::DE, value),
    {
        proof {
            lemma_u16_byte_split(value);
        }
        self.d = (value >> 8) as u8;
        self.e = (value & 0xFF) as u8;
    }

    /// The HL pair: H high, L low.
    pub fn get_hl(&self) -> (r: u16)
        ensures
            r == pair_value(self.h, self.l),
    {
        (self.h as u16) * 256 + (self.l as u16)
    }

    /// Writes the HL pair: high byte to H, low byte to L.
    pub fn set_hl(&mut self, value: u16)
        ensures
            *final(self) == spec_set_pair(*old(self), RegisterPair::HL, value),
    {
        proof {
            lemma_u16_byte_split(value);
        }
        self.h = (value >> 8) as u8;
        self.l = (value & 0xFF) as u8;
    }

    /// Reads the selected composite pair.
    pub fn get_pair(&self, p: RegisterPair) -> (r: u16)
        ensures
            r == spec_get_pair(*self, p),
    {
        match p {
            RegisterPair::AF => self.get_af(),
            RegisterPair::BC => self.get_bc(),
            RegisterPair::DE => self.get_de(),
            RegisterPair::HL => self.get_hl(),
        }
    }

    /// Writes the selected composite pair.
    pub fn set_pair(&mut self, p: RegisterPair, value: u16)
        ensures
            *final(self) == spec_set_pair(*old(self), p, value),
    {
        match p {
            RegisterPair::AF => self.set_af(value),
            RegisterPair::BC => self.set_bc(value),
            RegisterPair::DE => self.set_de(value),
            RegisterPair::HL => self.set_hl(value),
        }
    }
}

/// Shifting and masking a 16-bit value picks out its two bytes.
pub proof fn lemma_u16_byte_split(v: u16)
    ensures
        v >> 8 == v / 256,
        v & 0xFF == v % 256,
{
    assert(v >> 8 == v / 256) by (bit_vector);
    assert(v & 0xFF == v % 256) by (bit_vector);
}

/// Law: setting a pair and reading it back gives the value that was
/// written, except that AF discards the low nibble of its low byte.
pub proof fn lemma_set_get_pair(regs: Registers, p: RegisterPair, v: u16)
    ensures
        p != RegisterPair::AF ==> spec_get_pair(spec_set_pair(regs, p, v), p) == v,
        p == RegisterPair::AF ==> spec_get_pair(spec_set_pair(regs, p, v), p) == v & 0xFFF0,
{
    if p == RegisterPair::AF {
        crate::flags::lemma_encode_decode((v % 256) as u8);
        assert((v / 256) * 256 + ((v % 256) as u8 & 0xF0) == v & 0xFFF0) by (bit_vector);
    }
}

} // verus!
