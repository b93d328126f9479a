use gb_alu::flags::FlagsRegister;

fn flags_from_bits(bits: u8) -> FlagsRegister {
    FlagsRegister {
        zero: bits & 0b1000 != 0,
        subtract: bits & 0b0100 != 0,
        half_carry: bits & 0b0010 != 0,
        carry: bits & 0b0001 != 0,
    }
}

#[test]
fn encode_all_clear_is_zero() {
    let f = FlagsRegister { zero: false, subtract: false, half_carry: false, carry: false };
    assert_eq!(f.encode(), 0x00);
}

#[test]
fn encode_all_set_is_f0() {
    let f = FlagsRegister { zero: true, subtract: true, half_carry: true, carry: true };
    assert_eq!(f.encode(), 0xF0);
}

#[test]
fn encode_each_flag_hits_its_bit() {
    let zero = FlagsRegister { zero: true, subtract: false, half_carry: false, carry: false };
    let subtract = FlagsRegister { zero: false, subtract: true, half_carry: false, carry: false };
    let half_carry = FlagsRegister { zero: false, subtract: false, half_carry: true, carry: false };
    let carry = FlagsRegister { zero: false, subtract: false, half_carry: false, carry: true };
    assert_eq!(zero.encode(), 0x80);
    assert_eq!(subtract.encode(), 0x40);
    assert_eq!(half_carry.encode(), 0x20);
    assert_eq!(carry.encode(), 0x10);
}

#[test]
fn decode_reads_the_four_high_bits() {
    let f = FlagsRegister::decode(0xB0);
    assert!(f.zero);
    assert!(!f.subtract);
    assert!(f.half_carry);
    assert!(f.carry);
}

#[test]
fn decode_ignores_the_low_nibble() {
    assert_eq!(FlagsRegister::decode(0xB5), FlagsRegister::decode(0xB0));
    assert_eq!(FlagsRegister::decode(0x0F), FlagsRegister::decode(0x00));
}

#[test]
fn round_trip_all_flag_combinations() {
    for bits in 0u8..16 {
        let f = flags_from_bits(bits);
        assert_eq!(FlagsRegister::decode(f.encode()), f);
    }
}

#[test]
fn round_trip_all_bytes_masks_low_nibble() {
    for b in 0u16..256 {
        let byte = b as u8;
        assert_eq!(FlagsRegister::decode(byte).encode(), byte & 0xF0);
    }
}
