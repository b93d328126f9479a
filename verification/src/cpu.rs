use vstd::prelude::*;

use crate::flags::{flag_bit, FlagsRegister};
use crate::registers::{
    pair_value, spec_read_register, spec_write_register, ArithmeticTarget, Registers,
};

verus! {

/// Failure signals surfaced by `execute`. The operand and pair
/// selectors are closed types, so a reserved, unimplemented
/// instruction kind is the one condition the dispatcher can refuse.
#[derive(Clone, Copy, Debug, PartialEq, Eq, Structural)]
pub enum CoreError {
    UnsupportedInstruction,
}

/// One instruction: an operation kind carrying the selector of its
/// 8-bit source register. The kinds from CCF on are reserved for a
/// fuller core and are not implemented here; `execute` refuses them.
#[derive(Clone, Copy, Debug, PartialEq, Eq, Structural)]
pub enum Instruction {
    ADD(ArithmeticTarget),
    ADDHL(ArithmeticTarget),
    ADC(ArithmeticTarget),
    SUB(ArithmeticTarget),
    SBC(ArithmeticTarget),
    AND(ArithmeticTarget),
    OR(ArithmeticTarget),
    XOR(ArithmeticTarget),
    CP(ArithmeticTarget),
    INC(ArithmeticTarget),
    DEC(ArithmeticTarget),
    CCF(ArithmeticTarget),
    SCF(ArithmeticTarget),
    RRA(ArithmeticTarget),
    RLA(ArithmeticTarget),
    RRCA(ArithmeticTarget),
    RRLA(ArithmeticTarget),
    CPL(ArithmeticTarget),
    BIT(ArithmeticTarget),
    RESET(ArithmeticTarget),
    SET(ArithmeticTarget),
    SRL(ArithmeticTarget),
    RR(ArithmeticTarget),
    RL(ArithmeticTarget),
    RRC(ArithmeticTarget),
    RLC(ArithmeticTarget),
    SRA(ArithmeticTarget),
    SLA(ArithmeticTarget),
    SWAP(ArithmeticTarget),
}

/// Whether the dispatcher implements the instruction's kind.
pub open spec fn is_supported(inst: Instruction) -> bool {
    match inst {
        Instruction::ADD(_) => true,
        Instruction::ADDHL(_) => true,
        Instruction::ADC(_) => true,
        Instruction::SUB(_) => true,
        Instruction::SBC(_) => true,
        Instruction::AND(_) => true,
        Instruction::OR(_) => true,
        Instruction::XOR(_) => true,
        Instruction::CP(_) => true,
        Instruction::INC(_) => true,
        Instruction::DEC(_) => true,
        _ => false,
    }
}

/// One CPU core: its register file. Flags are part of the register
/// file and are rewritten by every ALU call.
#[derive(Clone, Copy, Debug, PartialEq, Eq, Structural)]
pub struct CPU {
    pub registers: Registers,
}

/// ADD: the wrapping 8-bit sum of the accumulator and the operand.
pub open spec fn add_result(a: u8, v: u8) -> u8 {
    ((a + v) % 256) as u8
}

/// Flags after ADD: zero tracks the result, subtract is clear,
/// half-carry is the carry out of bit 3, carry the carry out of bit 7.
pub open spec fn add_flags(a: u8, v: u8) -> FlagsRegister {
    FlagsRegister {
        zero: add_result(a, v) == 0,
        subtract: false,
        half_carry: (a & 0xF) + (v & 0xF) > 0xF,
        carry: a + v > 255,
    }
}

/// ADC: the wrapping 8-bit sum of accumulator, operand and carry-in.
pub open spec fn adc_result(a: u8, v: u8, cin: bool) -> u8 {
    ((a + v + flag_bit(cin)) % 256) as u8
}

/// Flags after ADC: as ADD, with the carry-in counted into both the
/// low-nibble sum and the full sum.
pub open spec fn adc_flags(a: u8, v: u8, cin: bool) -> FlagsRegister {
    FlagsRegister {
        zero: adc_result(a, v, cin) == 0,
        subtract: false,
        half_carry: (a & 0xF) + (v & 0xF) + flag_bit(cin) > 0xF,
        carry: a + v + flag_bit(cin) > 255,
    }
}

/// SUB and CP: the wrapping 8-bit difference of accumulator and
/// operand.
pub open spec fn sub_result(a: u8, v: u8) -> u8 {
    ((a + 256 - v) % 256) as u8
}

/// Flags after SUB and CP: zero tracks the difference, subtract is
/// set, half-carry is the borrow into the low nibble, carry the full
/// borrow.
pub open spec fn sub_flags(a: u8, v: u8) -> FlagsRegister {
    FlagsRegister {
        zero: sub_result(a, v) == 0,
        subtract: true,
        half_carry: (a & 0xF) < (v & 0xF),
        carry: a < v,
    }
}

/// SBC: the wrapping 8-bit difference with the carry-in borrowed as
/// well.
pub open spec fn sbc_result(a: u8, v: u8, cin: bool) -> u8 {
    ((a + 256 - v - flag_bit(cin)) % 256) as u8
}

/// Flags after SBC: as SUB, with the carry-in counted into both
/// borrows.
pub open spec fn sbc_flags(a: u8, v: u8, cin: bool) -> FlagsRegister {
    FlagsRegister {
        zero: sbc_result(a, v, cin) == 0,
        subtract: true,
        half_carry: (a & 0xF) < (v & 0xF) + flag_bit(cin),
        carry: a < v + flag_bit(cin),
    }
}

/// AND: the bitwise conjunction of accumulator and operand.
pub open spec fn and_result(a: u8, v: u8) -> u8 {
    a & v
}

/// Flags after AND: half-carry is fixed set and carry fixed clear,
/// whatever the operands.
pub open spec fn and_flags(a: u8, v: u8) -> FlagsRegister {
    FlagsRegister { zero: and_result(a, v) == 0, subtract: false, half_carry: true, carry: false }
}

/// OR: the bitwise disjunction of accumulator and operand.
pub open spec fn or_result(a: u8, v: u8) -> u8 {
    a | v
}

/// Flags after OR: half-carry and carry are both fixed clear.
pub open spec fn or_flags(a: u8, v: u8) -> FlagsRegister {
    FlagsRegister { zero: or_result(a, v) == 0, subtract: false, half_carry: false, carry: false }
}

/// XOR: the bitwise exclusive or of accumulator and operand.
pub open spec fn xor_result(a: u8, v: u8) -> u8 {
    a ^ v
}

/// Flags after XOR: half-carry and carry are both fixed clear.
pub open spec fn xor_flags(a: u8, v: u8) -> FlagsRegister {
    FlagsRegister { zero: xor_result(a, v) == 0, subtract: false, half_carry: false, carry: false }
}

/// INC: the wrapping 8-bit successor of a register value.
pub open spec fn inc_result(x: u8) -> u8 {
    ((x + 1) % 256) as u8
}

/// Flags after INC: carry keeps the value it had before the call;
/// only the other three flags are rewritten.
pub open spec fn inc_flags(x: u8, carry_before: bool) -> FlagsRegister {
    FlagsRegister {
        zero: inc_result(x) == 0,
        subtract: false,
        half_carry: (x & 0xF) + 1 > 0xF,
        carry: carry_before,
    }
}

/// DEC: the wrapping 8-bit predecessor of a register value.
pub open spec fn dec_result(x: u8) -> u8 {
    ((x + 255) % 256) as u8
}

/// Flags after DEC: carry keeps the value it had before the call;
/// half-carry is the borrow out of the low nibble.
pub open spec fn dec_flags(x: u8, carry_before: bool) -> FlagsRegister {
    FlagsRegister {
        zero: dec_result(x) == 0,
        subtract: true,
        half_carry: (x & 0xF) == 0,
        carry: carry_before,
    }
}

/// ADD16: the wrapping 16-bit sum of the HL pair and the operand.
pub open spec fn add16_result(hl: u16, v: u16) -> u16 {
    ((hl + v) % 65536) as u16
}

/// Flags after ADD16: zero is fixed clear, half-carry is the carry
/// out of bit 11, carry the carry out of bit 15.
pub open spec fn add16_flags(hl: u16, v: u16) -> FlagsRegister {
    FlagsRegister {
        zero: false,
        subtract: false,
        half_carry: (hl & 0xFFF) + (v & 0xFFF) > 0xFFF,
        carry: hl + v > 65535,
    }
}

/// The low nibble of a byte is at most 0xF.
pub proof fn lemma_nibble_bound(x: u8)
    ensures
        x & 0xF <= 0xF,
{
    assert(x & 0xF <= 0xF) by (bit_vector);
}

/// The low 12 bits of a 16-bit value are at most 0xFFF.
pub proof fn lemma_low12_bound(x: u16)
    ensures
        x & 0xFFF <= 0xFFF,
{
    assert(x & 0xFFF <= 0xFFF) by (bit_vector);
}

/// The core after one implemented instruction, per the operation
/// table: the selected register is read, the operation's result and
/// flags are computed, and the result is written back to the
/// accumulator (ADD, ADC, SUB, SBC, AND, OR, XOR), to the HL pair
/// (ADDHL), to the selected register itself (INC, DEC), or nowhere
/// (CP). A core that receives an unimplemented kind is unchanged.
pub open spec fn spec_execute(s: CPU, inst: Instruction) -> CPU {
    match inst {
        Instruction::ADD(t) => {
            let v: u8 = spec_read_register(s.registers, t);
            CPU {
                registers: Registers {
                    a: add_result(s.registers.a, v),
                    f: add_flags(s.registers.a, v),
                    ..s.registers
                },
            }
        },
        Instruction::ADDHL(t) => {
            let hl: u16 = pair_value(s.registers.h, s.registers.l);
            let v: u16 = spec_read_register(s.registers, t) as u16;
            let r: u16 = add16_result(hl, v);
            CPU {
                registers: Registers {
                    h: (r / 256) as u8,
                    l: (r % 256) as u8,
                    f: add16_flags(hl, v),
                    ..s.registers
                },
            }
        },
        Instruction::ADC(t) => {
            let v: u8 = spec_read_register(s.registers, t);
            CPU {
                registers: Registers {
                    a: adc_result(s.registers.a, v, s.registers.f.carry),
                    f: adc_flags(s.registers.a, v, s.registers.f.carry),
                    ..s.registers
                },
            }
        },
        Instruction::SUB(t) => {
            let v: u8 = spec_read_register(s.registers, t);
            CPU {
                registers: Registers {
                    a: sub_result(s.registers.a, v),
                    f: sub_flags(s.registers.a, v),
                    ..s.registers
                },
            }
        },
        Instruction::SBC(t) => {
            let v: u8 = spec_read_register(s.registers, t);
            CPU {
                registers: Registers {
                    a: sbc_result(s.registers.a, v, s.registers.f.carry),
                    f: sbc_flags(s.registers.a, v, s.registers.f.carry),
                    ..s.registers
                },
            }
        },
        Instruction::AND(t) => {
            let v: u8 = spec_read_register(s.registers, t);
            CPU {
                registers: Registers {
                    a: and_result(s.registers.a, v),
                    f: and_flags(s.registers.a, v),
                    ..s.registers
                },
            }
        },
        Instruction::OR(t) => {
            let v: u8 = spec_read_register(s.registers, t);
            CPU {
                registers: Registers {
                    a: or_result(s.registers.a, v),
                    f: or_flags(s.registers.a, v),
                    ..s.registers
                },
            }
        },
        Instruction::XOR(t) => {
            let v: u8 = spec_read_register(s.registers, t);
            CPU {
                registers: Registers {
                    a: xor_result(s.registers.a, v),
                    f: xor_flags(s.registers.a, v),
                    ..s.registers
                },
            }
        },
        Instruction::CP(t) => {
            let v: u8 = spec_read_register(s.registers, t);
            CPU { registers: Registers { f: sub_flags(s.registers.a, v), ..s.registers } }
        },
        Instruction::INC(t) => {
            let x: u8 = spec_read_register(s.registers, t);
            CPU {
                registers: Registers {
                    f: inc_flags(x, s.registers.f.carry),
                    ..spec_write_register(s.registers, t, inc_result(x))
                },
            }
        },
        Instruction::DEC(t) => {
            let x: u8 = spec_read_register(s.registers, t);
            CPU {
                registers: Registers {
                    f: dec_flags(x, s.registers.f.carry),
                    ..spec_write_register(s.registers, t, dec_result(x))
                },
            }
        },
        _ => s,
    }
}

impl CPU {
    /// A core whose registers are all zero and whose flags are all
    /// clear.
    pub fn new() -> (r: CPU)
        ensures
            r.registers == (Registers {
                a: 0,
                b: 0,
                c: 0,
                d: 0,
                e: 0,
                f: FlagsRegister { zero: false, subtract: false, half_carry: false, carry: false },
                h: 0,
                l: 0,
            }),
    {
        CPU { registers: Registers::new() }
    }

    /// Read-only snapshot of the four condition flags.
    pub fn flags(&self) -> (r: FlagsRegister)
        ensures
            r == self.registers.f,
    {
        self.registers.f
    }

    /// ADD: adds the operand to the accumulator with wrapping,
    /// rewrites all four flags, and returns the sum for write-back.
    pub fn add(&mut self, value: u8) -> (r: u8)
        ensures
            r == add_result(old(self).registers.a, value),
            final(self).registers == (Registers {
                f: add_flags(old(self).registers.a, value),
                ..old(self).registers
            }),
    {
        let a: u8 = self.registers.a;
        let sum: u16 = a as u16 + value as u16;
        let new_value: u8 = (sum % 256) as u8;
        proof {
            lemma_nibble_bound(a);
            lemma_nibble_bound(value);
        }
        self.registers.f = FlagsRegister {
            zero: new_value == 0,
            subtract: false,
            half_carry: (a & 0xF) + (value & 0xF) > 0xF,
            carry: sum > 255,
        };
        new_value
    }

    /// ADD16: adds the operand to the HL pair with wrapping, rewrites
    /// the flags (zero fixed clear), and returns the sum for
    /// write-back to HL.
    pub fn add_hl(&mut self, value: u16) -> (r: u16)
        ensures
            r == add16_result(pair_value(old(self).registers.h, old(self).registers.l), value),
            final(self).registers == (Registers {
                f: add16_flags(pair_value(old(self).registers.h, old(self).registers.l), value),
                ..old(self).registers
            }),
    {
        let hl: u16 = self.registers.get_hl();
        let sum: u32 = hl as u32 + value as u32;
        let new_value: u16 = (sum % 65536) as u16;
        proof {
            lemma_low12_bound(hl);
            lemma_low12_bound(value);
        }
        self.registers.f = FlagsRegister {
            zero: false,
            subtract: false,
            half_carry: (hl & 0xFFF) + (value & 0xFFF) > 0xFFF,
            carry: sum > 65535,
        };
        new_value
    }

    /// ADC: adds the operand and the current carry flag to the
    /// accumulator with wrapping, rewrites all four flags, and
    /// returns the sum for write-back.
    pub fn add_c(&mut self, value: u8) -> (r: u8)
        ensures
            r == adc_result(old(self).registers.a, value, old(self).registers.f.carry),
            final(self).registers == (Registers {
                f: adc_flags(old(self).registers.a, value, old(self).registers.f.carry),
                ..old(self).registers
            }),
    {
        let a: u8 = self.registers.a;
        let cin: u8 = if self.registers.f.carry { 1 } else { 0 };
        let sum: u16 = a as u16 + value as u16 + cin as u16;
        let new_value: u8 = (sum % 256) as u8;
        proof {
            lemma_nibble_bound(a);
            lemma_nibble_bound(value);
        }
        self.registers.f = FlagsRegister {
            zero: new_value == 0,
            subtract: false,
            half_carry: (a & 0xF) + (value & 0xF) + cin > 0xF,
            carry: sum > 255,
        };
        new_value
    }

    /// SUB: subtracts the operand from the accumulator with wrapping,
    /// rewrites all four flags, and returns the difference for
    /// write-back.
    pub fn sub(&mut self, value: u8) -> (r: u8)
        ensures
            r == sub_result(old(self).registers.a, value),
            final(self).registers == (Registers {
                f: sub_flags(old(self).registers.a, value),
                ..old(self).registers
            }),
    {
        let a: u8 = self.registers.a;
        let diff: u16 = a as u16 + 256 - value as u16;
        let new_value: u8 = (diff % 256) as u8;
        self.registers.f = FlagsRegister {
            zero: new_value == 0,
            subtract: true,
            half_carry: (a & 0xF) < (value & 0xF),
            carry: a < value,
        };
        new_value
    }

    /// SBC: subtracts the operand and the current carry flag from the
    /// accumulator with wrapping, rewrites all four flags, and
    /// returns the difference for write-back.
    pub fn sub_c(&mut self, value: u8) -> (r: u8)
        ensures
            r == sbc_result(old(self).registers.a, value, old(self).registers.f.carry),
            final(self).registers == (Registers {
                f: sbc_flags(old(self).registers.a, value, old(self).registers.f.carry),
                ..old(self).registers
            }),
    {
        let a: u8 = self.registers.a;
        let cin: u8 = if self.registers.f.carry { 1 } else { 0 };
        let diff: u16 = a as u16 + 256 - value as u16 - cin as u16;
        let new_value: u8 = (diff % 256) as u8;
        proof {
            lemma_nibble_bound(a);
            lemma_nibble_bound(value);
        }
        self.registers.f = FlagsRegister {
            zero: new_value == 0,
            subtract: true,
            half_carry: (a & 0xF) < (value & 0xF) + cin,
            carry: (a as u16) < value as u16 + cin as u16,
        };
        new_value
    }

    /// AND: the conjunction of accumulator and operand; half-carry is
    /// fixed set and carry fixed clear.
    pub fn and(&mut self, value: u8) -> (r: u8)
        ensures
            r == and_result(old(self).registers.a, value),
            final(self).registers == (Registers {
                f: and_flags(old(self).registers.a, value),
                ..old(self).registers
            }),
    {
        let new_value: u8 = self.registers.a & value;
        self.registers.f = FlagsRegister {
            zero: new_value == 0,
            subtract: false,
            half_carry: true,
            carry: false,
        };
        new_value
    }

    /// OR: the disjunction of accumulator and operand; half-carry and
    /// carry are fixed clear.
    pub fn or(&mut self, value: u8) -> (r: u8)
        ensures
            r == or_result(old(self).registers.a, value),
            final(self).registers == (Registers {
                f: or_flags(old(self).registers.a, value),
                ..old(self).registers
            }),
    {
        let new_value: u8 = self.registers.a | value;
        self.registers.f = FlagsRegister {
            zero: new_value == 0,
            subtract: false,
            half_carry: false,
            carry: false,
        };
        new_value
    }

    /// XOR: the exclusive or of accumulator and operand; half-carry
    /// and carry are fixed clear.
    pub fn xor(&mut self, value: u8) -> (r: u8)
        ensures
            r == xor_result(old(self).registers.a, value),
            final(self).registers == (Registers {
                f: xor_flags(old(self).registers.a, value),
                ..old(self).registers
            }),
    {
        let new_value: u8 = self.registers.a ^ value;
        self.registers.f = FlagsRegister {
            zero: new_value == 0,
            subtract: false,
            half_carry: false,
            carry: false,
        };
        new_value
    }

    /// CP: compares the operand against the accumulator by computing
    /// the same flags as SUB, discarding the difference.
    pub fn cp(&mut self, value: u8)
        ensures
            final(self).registers == (Registers {
                f: sub_flags(old(self).registers.a, value),
                ..old(self).registers
            }),
    {
        let a: u8 = self.registers.a;
        let diff: u16 = a as u16 + 256 - value as u16;
        let result: u8 = (diff % 256) as u8;
        self.registers.f = FlagsRegister {
            zero: result == 0,
            subtract: true,
            half_carry: (a & 0xF) < (value & 0xF),
            carry: a < value,
        };
    }

    /// INC: the wrapping successor of a register value; rewrites
    /// zero, subtract and half-carry but leaves the carry flag
    /// exactly as it was.
    pub fn inc(&mut self, value: u8) -> (r: u8)
        ensures
            r == inc_result(value),
            final(self).registers == (Registers {
                f: inc_flags(value, old(self).registers.f.carry),
                ..old(self).registers
            }),
    {
        let sum: u16 = value as u16 + 1;
        let new_value: u8 = (sum % 256) as u8;
        proof {
            lemma_nibble_bound(value);
        }
        self.registers.f = FlagsRegister {
            zero: new_value == 0,
            subtract: false,
            half_carry: (value & 0xF) + 1 > 0xF,
            carry: self.registers.f.carry,
        };
        new_value
    }

    /// DEC: the wrapping predecessor of a register value; rewrites
    /// zero, subtract and half-carry but leaves the carry flag
    /// exactly as it was.
    pub fn dec(&mut self, value: u8) -> (r: u8)
        ensures
            r == dec_result(value),
            final(self).registers == (Registers {
                f: dec_flags(value, old(self).registers.f.carry),
                ..old(self).registers
            }),
    {
        let diff: u16 = value as u16 + 255;
        let new_value: u8 = (diff % 256) as u8;
        self.registers.f = FlagsRegister {
            zero: new_value == 0,
            subtract: true,
            half_carry: (value & 0xF) == 0,
            carry: self.registers.f.carry,
        };
        new_value
    }

    /// Applies one instruction: reads the selected source register,
    /// runs the matching ALU operation, and writes the result back.
    /// A reserved, unimplemented kind is refused with an error and
    /// leaves the core untouched; it is never a silent no-op.
    pub fn execute(&mut self, instruction: Instruction) -> (r: Result<(), CoreError>)
        ensures
            is_supported(instruction) ==> r == Ok::<(), CoreError>(()) && *final(self)
                == spec_execute(*old(self), instruction),
            !is_supported(instruction) ==> r == Err::<(), CoreError>(
                CoreError::UnsupportedInstruction,
            ) && *final(self) == *old(self),
    {
        match instruction {
            Instruction::ADD(target) => {
                let value: u8 = self.registers.read_register(target);
                let new_value: u8 = self.add(value);
                self.registers.a = new_value;
                Ok(())
            },
            Instruction::ADDHL(target) => {
                let value: u16 = self.registers.read_register(target) as u16;
                let new_value: u16 = self.add_hl(value);
                self.registers.set_hl(new_value);
                Ok(())
            },
            Instruction::ADC(target) => {
                let value: u8 = self.registers.read_register(target);
                let new_value: u8 = self.add_c(value);
                self.registers.a = new_value;
                Ok(())
            },
            Instruction::SUB(target) => {
                let value: u8 = self.registers.read_register(target);
                let new_value: u8 = self.sub(value);
                self.registers.a = new_value;
                Ok(())
            },
            Instruction::SBC(target) => {
                let value: u8 = self.registers.read_register(target);
                let new_value: u8 = self.sub_c(value);
                self.registers.a = new_value;
                Ok(())
            },
            Instruction::AND(target) => {
                let value: u8 = self.registers.read_register(target);
                let new_value: u8 = self.and(value);
                self.registers.a = new_value;
                Ok(())
            },
            Instruction::OR(target) => {
                let value: u8 = self.registers.read_register(target);
                let new_value: u8 = self.or(value);
                self.registers.a = new_value;
                Ok(())
            },
            Instruction::XOR(target) => {
                let value: u8 = self.registers.read_register(target);
                let new_value: u8 = self.xor(value);
                self.registers.a = new_value;
                Ok(())
            },
            Instruction::CP(target) => {
                let value: u8 = self.registers.read_register(target);
                self.cp(value);
                Ok(())
            },
            Instruction::INC(target) => {
                let value: u8 = self.registers.read_register(target);
                let new_value: u8 = self.inc(value);
                self.registers.write_register(target, new_value);
                Ok(())
            },
            Instruction::DEC(target) => {
                let value: u8 = self.registers.read_register(target);
                let new_value: u8 = self.dec(value);
                self.registers.write_register(target, new_value);
                Ok(())
            },
            _ => Err(CoreError::UnsupportedInstruction),
        }
    }
}

/// Law: AND fixes half-carry set and carry clear; OR and XOR clear
/// half-carry and carry; all of it whatever the operands are.
pub proof fn lemma_logic_flags_fixed(a: u8, v: u8)
    ensures
        and_flags(a, v).half_carry,
        !and_flags(a, v).carry,
        !or_flags(a, v).half_carry,
        !or_flags(a, v).carry,
        !xor_flags(a, v).half_carry,
        !xor_flags(a, v).carry,
{
}

/// Law: the increment and decrement instructions leave the carry
/// flag exactly as the preceding operation left it, in every state
/// and for every operand selector.
pub proof fn lemma_inc_dec_preserve_carry(s: CPU, t: ArithmeticTarget)
    ensures
        spec_execute(s, Instruction::INC(t)).registers.f.carry == s.registers.f.carry,
        spec_execute(s, Instruction::DEC(t)).registers.f.carry == s.registers.f.carry,
{
}

} // verus!
