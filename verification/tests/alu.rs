use gb_alu::cpu::CPU;

#[test]
fn add_half_carry_boundary() {
    let mut core = CPU::new();
    core.registers.a = 0x0F;
    let r = core.add(0x01);
    assert_eq!(r, 0x10);
    assert!(core.registers.f.half_carry);
    assert!(!core.registers.f.carry);
    assert!(!core.registers.f.zero);
    assert!(!core.registers.f.subtract);
}

#[test]
fn add_full_overflow() {
    let mut core = CPU::new();
    core.registers.a = 0xFF;
    let r = core.add(0x01);
    assert_eq!(r, 0x00);
    assert!(core.registers.f.zero);
    assert!(core.registers.f.carry);
    assert!(core.registers.f.half_carry);
}

#[test]
fn adc_honors_carry_in() {
    let mut core = CPU::new();
    core.registers.a = 0x0E;
    core.registers.f.carry = true;
    let r = core.add_c(0x01);
    assert_eq!(r, 0x10);
    assert!(core.registers.f.half_carry);
    assert!(!core.registers.f.carry);
}

#[test]
fn adc_without_carry_in_matches_add() {
    let mut core = CPU::new();
    core.registers.a = 0x0E;
    let r = core.add_c(0x01);
    assert_eq!(r, 0x0F);
    assert!(!core.registers.f.half_carry);
    assert!(!core.registers.f.carry);
}

#[test]
fn sub_borrow() {
    let mut core = CPU::new();
    core.registers.a = 0x10;
    let r = core.sub(0x01);
    assert_eq!(r, 0x0F);
    assert!(core.registers.f.half_carry);
    assert!(core.registers.f.subtract);
    assert!(!core.registers.f.carry);
}

#[test]
fn sub_underflow() {
    let mut core = CPU::new();
    core.registers.a = 0x00;
    let r = core.sub(0x01);
    assert_eq!(r, 0xFF);
    assert!(core.registers.f.carry);
    assert!(!core.registers.f.zero);
}

#[test]
fn sbc_borrows_the_carry_in() {
    let mut core = CPU::new();
    core.registers.a = 0x10;
    core.registers.f.carry = true;
    let r = core.sub_c(0x0F);
    assert_eq!(r, 0x00);
    assert!(core.registers.f.zero);
    assert!(core.registers.f.subtract);
    assert!(core.registers.f.half_carry);
    assert!(!core.registers.f.carry);
}

#[test]
fn inc_preserves_preexisting_carry() {
    let mut core = CPU::new();
    core.registers.f.carry = true;
    let r = core.inc(0xFF);
    assert_eq!(r, 0x00);
    assert!(core.registers.f.zero);
    assert!(core.registers.f.half_carry);
    assert!(core.registers.f.carry);
}

#[test]
fn dec_preserves_preexisting_carry() {
    let mut core = CPU::new();
    core.registers.f.carry = true;
    let r = core.dec(0x00);
    assert_eq!(r, 0xFF);
    assert!(!core.registers.f.zero);
    assert!(core.registers.f.subtract);
    assert!(core.registers.f.half_carry);
    assert!(core.registers.f.carry);
}

#[test]
fn dec_half_carry_on_clean_low_nibble() {
    let mut core = CPU::new();
    let r = core.dec(0x10);
    assert_eq!(r, 0x0F);
    assert!(core.registers.f.half_carry);
    assert!(!core.registers.f.carry);
}

#[test]
fn and_fixes_half_carry_set_and_carry_clear() {
    for (a, v) in [(0x00u8, 0x00u8), (0xFF, 0x0F), (0xA5, 0x5A), (0x80, 0x80)] {
        let mut core = CPU::new();
        core.registers.a = a;
        let r = core.and(v);
        assert_eq!(r, a & v);
        assert!(core.registers.f.half_carry);
        assert!(!core.registers.f.carry);
        assert_eq!(core.registers.f.zero, a & v == 0);
        assert!(!core.registers.f.subtract);
    }
}

#[test]
fn or_and_xor_clear_half_carry_and_carry() {
    for (a, v) in [(0x00u8, 0x00u8), (0xFF, 0x0F), (0xA5, 0x5A), (0x80, 0x80)] {
        let mut core = CPU::new();
        core.registers.a = a;
        let r = core.or(v);
        assert_eq!(r, a | v);
        assert!(!core.registers.f.half_carry);
        assert!(!core.registers.f.carry);
        assert_eq!(core.registers.f.zero, a | v == 0);

        let mut core = CPU::new();
        core.registers.a = a;
        let r = core.xor(v);
        assert_eq!(r, a ^ v);
        assert!(!core.registers.f.half_carry);
        assert!(!core.registers.f.carry);
        assert_eq!(core.registers.f.zero, a ^ v == 0);
    }
}

#[test]
fn cp_sets_flags_without_touching_the_accumulator() {
    let mut core = CPU::new();
    core.registers.a = 0x42;
    core.cp(0x42);
    assert!(core.registers.f.zero);
    assert!(core.registers.f.subtract);
    assert_eq!(core.registers.a, 0x42);

    core.cp(0x43);
    assert!(!core.registers.f.zero);
    assert!(core.registers.f.carry);
    assert_eq!(core.registers.a, 0x42);
}

#[test]
fn add_hl_half_carry_out_of_bit_eleven() {
    let mut core = CPU::new();
    core.registers.h = 0x0F;
    core.registers.l = 0xFF;
    let r = core.add_hl(0x0001);
    assert_eq!(r, 0x1000);
    assert!(core.registers.f.half_carry);
    assert!(!core.registers.f.carry);
    assert!(!core.registers.f.zero);
}

#[test]
fn add_hl_overflow_keeps_zero_clear() {
    let mut core = CPU::new();
    core.registers.h = 0xFF;
    core.registers.l = 0xFF;
    let r = core.add_hl(0x0001);
    assert_eq!(r, 0x0000);
    assert!(core.registers.f.carry);
    assert!(core.registers.f.half_carry);
    assert!(!core.registers.f.zero);
}
