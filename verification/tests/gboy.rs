use gboy_core::cpu::gpu::{empty_tile, TilePixelValue, GPU, VRAM_SIZE};
use gboy_core::cpu::instruction::{LoadType, Reg16Source, Reg16Target, Reg8Source, Reg8Target};
use gboy_core::cpu::registers::FlagsRegister;
use gboy_core::cpu::{ArithmeticTarget, Instruction, JumpTest, MemoryBus, Registers, StackTarget, CPU};
use gboy_core::GBoy;

fn flags(zero: bool, subtract: bool, half_carry: bool, carry: bool) -> FlagsRegister {
    FlagsRegister { zero, subtract, half_carry, carry }
}

fn cpu_with_a(a: u8) -> CPU {
    let mut cpu = CPU::new();
    cpu.registers.a = a;
    cpu
}

#[test]
fn it_works() {}

// The console

#[test]
fn reset_returns_to_power_on_state() {
    let mut g = GBoy::new();
    g.reset();
    g.reset();
}

// Flags register

#[test]
fn flags_encode_to_high_nibble() {
    assert_eq!(u8::from(flags(true, false, true, true)), 0xB0);
    assert_eq!(u8::from(flags(false, true, false, false)), 0x40);
    assert_eq!(u8::from(FlagsRegister::new()), 0x00);
}

#[test]
fn flags_decode_ignores_low_nibble() {
    assert_eq!(FlagsRegister::from(0xFFu8), flags(true, true, true, true));
    assert_eq!(FlagsRegister::from(0x0Fu8), flags(false, false, false, false));
    assert_eq!(FlagsRegister::from(0x90u8), flags(true, false, false, true));
}

#[test]
fn flags_roundtrip_for_every_value() {
    for bits in 0u8..16 {
        let f = flags(bits & 8 != 0, bits & 4 != 0, bits & 2 != 0, bits & 1 != 0);
        assert_eq!(FlagsRegister::from(u8::from(f)), f);
    }
    for b in 0u8..=255 {
        assert_eq!(u8::from(FlagsRegister::from(b)), b & 0xF0);
    }
}

// Registers

#[test]
fn register_pairs_read_back_what_was_set() {
    let mut r = Registers::new();
    r.set_bc(0x1234);
    assert_eq!((r.b, r.c), (0x12, 0x34));
    assert_eq!(r.get_bc(), 0x1234);
    r.set_de(0xABCD);
    assert_eq!((r.d, r.e), (0xAB, 0xCD));
    assert_eq!(r.get_de(), 0xABCD);
    r.set_hl(0xFF01);
    assert_eq!((r.h, r.l), (0xFF, 0x01));
    assert_eq!(r.get_hl(), 0xFF01);
    assert_eq!(r.get_bc(), 0x1234);
    r.set_af(0x12FF);
    assert_eq!(r.a, 0x12);
    assert_eq!(r.f, flags(true, true, true, true));
    assert_eq!(r.get_af(), 0x12F0);
}

#[test]
fn operand_hl_reads_and_writes_memory() {
    let mut r = Registers::new();
    let mut bus = MemoryBus::new();
    r.set_hl(0xC000);
    r.set(&ArithmeticTarget::HL, 0x42, &mut bus);
    assert_eq!(bus.read_byte(0xC000), 0x42);
    assert_eq!(r.value(&ArithmeticTarget::HL, &bus), 0x42);
    r.set(&ArithmeticTarget::D, 7, &mut bus);
    assert_eq!(r.value(&ArithmeticTarget::D, &bus), 7);
    assert_eq!(r.d, 7);
}

#[test]
fn sixteen_bit_operands_read_back() {
    let mut r = Registers::new();
    let mut sp: u16 = 0;
    r.set_16(&Reg16Target::SP, 0xFFFE, &mut sp);
    assert_eq!(sp, 0xFFFE);
    assert_eq!(r.value_16(&Reg16Target::SP, sp), 0xFFFE);
    r.set_16(&Reg16Target::DE, 0x0102, &mut sp);
    assert_eq!(r.value_16(&Reg16Target::DE, sp), 0x0102);
    assert_eq!(sp, 0xFFFE);
}

// Memory

#[test]
fn memory_reads_back_writes_only_at_their_address() {
    let mut bus = MemoryBus::new();
    assert_eq!(bus.read_byte(0xFFFF), 0);
    bus.write_byte(0x0000, 0x11);
    bus.write_byte(0xFFFF, 0x22);
    assert_eq!(bus.read_byte(0x0000), 0x11);
    assert_eq!(bus.read_byte(0xFFFF), 0x22);
    assert_eq!(bus.read_byte(0x0001), 0);
}

// Stack

#[test]
fn push_then_pop_gives_the_word_back() {
    let mut cpu = CPU::new();
    cpu.sp = 0xFFFE;
    cpu.push(0xBEEF);
    assert_eq!(cpu.sp, 0xFFFC);
    assert_eq!(cpu.bus.read_byte(0xFFFD), 0xBE);
    assert_eq!(cpu.bus.read_byte(0xFFFC), 0xEF);
    assert_eq!(cpu.pop(), 0xBEEF);
    assert_eq!(cpu.sp, 0xFFFE);
}

#[test]
fn push_wraps_below_address_zero() {
    let mut cpu = CPU::new();
    cpu.push(0x1234);
    assert_eq!(cpu.sp, 0xFFFE);
    assert_eq!(cpu.bus.read_byte(0xFFFF), 0x12);
    assert_eq!(cpu.bus.read_byte(0xFFFE), 0x34);
    assert_eq!(cpu.pop(), 0x1234);
    assert_eq!(cpu.sp, 0);
}

#[test]
fn call_and_return() {
    let mut cpu = CPU::new();
    cpu.pc = 0x0100;
    cpu.sp = 0xD000;
    cpu.bus.write_byte(0x0101, 0x34);
    cpu.bus.write_byte(0x0102, 0x12);
    assert_eq!(cpu.call(false), 0x0103);
    assert_eq!(cpu.sp, 0xD000);
    assert_eq!(cpu.call(true), 0x1234);
    assert_eq!(cpu.sp, 0xCFFE);
    assert_eq!(cpu.bus.read_byte(0xCFFF), 0x01);
    assert_eq!(cpu.bus.read_byte(0xCFFE), 0x03);
    assert_eq!(cpu.return_(false), 0x0101);
    assert_eq!(cpu.return_(true), 0x0103);
    assert_eq!(cpu.sp, 0xD000);
}

#[test]
fn call_at_the_top_of_memory_wraps() {
    let mut cpu = CPU::new();
    cpu.pc = 0xFFFF;
    cpu.sp = 0xD000;
    cpu.bus.write_byte(0x0000, 0x78);
    cpu.bus.write_byte(0x0001, 0x56);
    assert_eq!(cpu.call(true), 0x5678);
    assert_eq!(cpu.return_(true), 0x0002);
    assert_eq!(cpu.sp, 0xD000);
}

#[test]
fn jump_reads_little_endian_target() {
    let mut cpu = CPU::new();
    cpu.pc = 0x0200;
    cpu.bus.write_byte(0x0201, 0x34);
    cpu.bus.write_byte(0x0202, 0x12);
    assert_eq!(cpu.jump(true), 0x1234);
    assert_eq!(cpu.jump(false), 0x0203);
    cpu.pc = 0xFFFE;
    assert_eq!(cpu.jump(false), 0x0001);
}

// Arithmetic

#[test]
fn add_sets_all_flags() {
    let mut cpu = cpu_with_a(0x3A);
    assert_eq!(cpu.add(0xC6), 0x00);
    assert_eq!(cpu.registers.f, flags(true, false, true, true));
    assert_eq!(cpu.registers.a, 0x3A);
    let mut cpu = cpu_with_a(0x12);
    assert_eq!(cpu.add(0x34), 0x46);
    assert_eq!(cpu.registers.f, flags(false, false, false, false));
}

#[test]
fn add_carry_adds_the_carry_in() {
    let mut cpu = cpu_with_a(0xE1);
    cpu.registers.f.carry = true;
    assert_eq!(cpu.add_carry(0x0F), 0xF1);
    assert_eq!(cpu.registers.f, flags(false, false, true, false));
    let mut cpu = cpu_with_a(0xFF);
    cpu.registers.f.carry = true;
    assert_eq!(cpu.add_carry(0x00), 0x00);
    assert_eq!(cpu.registers.f, flags(true, false, true, true));
}

#[test]
fn subtract_borrows() {
    let mut cpu = cpu_with_a(0x3E);
    assert_eq!(cpu.subtract(0x3E), 0x00);
    assert_eq!(cpu.registers.f, flags(true, true, false, false));
    let mut cpu = cpu_with_a(0x3E);
    assert_eq!(cpu.subtract(0x0F), 0x2F);
    assert_eq!(cpu.registers.f, flags(false, true, true, false));
    let mut cpu = cpu_with_a(0x3E);
    assert_eq!(cpu.subtract(0x40), 0xFE);
    assert_eq!(cpu.registers.f, flags(false, true, false, true));
}

#[test]
fn subtract_carry_subtracts_the_carry_in() {
    let mut cpu = cpu_with_a(0x3B);
    cpu.registers.f.carry = true;
    assert_eq!(cpu.subtract_carry(0x2A), 0x10);
    assert_eq!(cpu.registers.f, flags(false, true, false, false));
    let mut cpu = cpu_with_a(0x00);
    cpu.registers.f.carry = true;
    assert_eq!(cpu.subtract_carry(0x00), 0xFF);
    assert!(cpu.registers.f.carry);
}

#[test]
fn logic_operations() {
    let mut cpu = cpu_with_a(0x5A);
    cpu.and(0x3F);
    assert_eq!(cpu.registers.a, 0x1A);
    assert_eq!(cpu.registers.f, flags(false, false, true, false));
    cpu.or(0x00);
    assert_eq!(cpu.registers.a, 0x1A);
    assert_eq!(cpu.registers.f, flags(false, false, false, false));
    cpu.xor(0x1A);
    assert_eq!(cpu.registers.a, 0x00);
    assert_eq!(cpu.registers.f, flags(true, false, false, false));
}

#[test]
fn compare_keeps_a() {
    let mut cpu = cpu_with_a(0x3C);
    cpu.cmp(0x40);
    assert_eq!(cpu.registers.a, 0x3C);
    assert_eq!(cpu.registers.f, flags(false, true, false, true));
    let mut other = cpu_with_a(0x3C);
    other.subtract(0x40);
    assert_eq!(cpu.registers.f, other.registers.f);
}

#[test]
fn inc_and_dec_keep_carry() {
    let mut cpu = CPU::new();
    cpu.registers.f.carry = true;
    assert_eq!(cpu.inc(0xFF), 0x00);
    assert_eq!(cpu.registers.f, flags(true, false, true, true));
    assert_eq!(cpu.dec(0x01), 0x00);
    assert_eq!(cpu.registers.f, flags(true, true, false, true));
    assert_eq!(cpu.dec(0x10), 0x0F);
    assert_eq!(cpu.registers.f, flags(false, true, true, true));
    assert_eq!(cpu.dec(0x00), 0xFF);
}

#[test]
fn add_16_keeps_zero() {
    let mut cpu = CPU::new();
    cpu.registers.f.zero = true;
    cpu.registers.set_hl(0x0FFF);
    cpu.add_16(0x0001);
    assert_eq!(cpu.registers.get_hl(), 0x1000);
    assert_eq!(cpu.registers.f, flags(true, false, true, false));
    cpu.registers.set_hl(0xFFFF);
    cpu.add_16(0x0001);
    assert_eq!(cpu.registers.get_hl(), 0x0000);
    assert_eq!(cpu.registers.f, flags(true, false, true, true));
}

// Rotations and shifts

#[test]
fn rotations_of_a_clear_zero() {
    let mut cpu = cpu_with_a(0x01);
    cpu.rra();
    assert_eq!(cpu.registers.a, 0x00);
    assert_eq!(cpu.registers.f, flags(false, false, false, true));
    cpu.rla();
    assert_eq!(cpu.registers.a, 0x01);
    assert_eq!(cpu.registers.f, flags(false, false, false, false));
    cpu.rrca();
    assert_eq!(cpu.registers.a, 0x80);
    assert!(cpu.registers.f.carry);
    cpu.rlca();
    assert_eq!(cpu.registers.a, 0x01);
    assert!(cpu.registers.f.carry);
    assert!(!cpu.registers.f.zero);
}

#[test]
fn rotations_and_shifts_of_operands() {
    let mut cpu = CPU::new();
    assert_eq!(cpu.rlc(0x85), 0x0B);
    assert!(cpu.registers.f.carry);
    assert_eq!(cpu.rrc(0x01), 0x80);
    assert!(cpu.registers.f.carry);
    assert_eq!(cpu.rl(0x80), 0x01);
    assert_eq!(cpu.registers.f, flags(false, false, false, true));
    assert_eq!(cpu.rr(0x01), 0x80);
    assert_eq!(cpu.registers.f, flags(false, false, false, true));
    assert_eq!(cpu.sla(0x80), 0x00);
    assert_eq!(cpu.registers.f, flags(true, false, false, true));
    assert_eq!(cpu.sra(0x8A), 0xC5);
    assert_eq!(cpu.registers.f, flags(false, false, false, false));
    assert_eq!(cpu.srl(0x01), 0x00);
    assert_eq!(cpu.registers.f, flags(true, false, false, true));
    assert_eq!(cpu.swap(0xF1), 0x1F);
    assert_eq!(cpu.registers.f, flags(false, false, false, false));
    assert_eq!(cpu.swap(0x00), 0x00);
    assert!(cpu.registers.f.zero);
}

#[test]
fn rotations_undo_each_other() {
    let mut cpu = CPU::new();
    for v in 0u8..=255 {
        let r = cpu.rrc(v);
        assert_eq!(cpu.rlc(r), v);
        let s = cpu.swap(v);
        assert_eq!(cpu.swap(s), v);
        cpu.registers.f.carry = v % 3 == 0;
        let r = cpu.rr(v);
        assert_eq!(cpu.rl(r), v);
        assert_eq!(cpu.registers.f.carry, v % 3 == 0);
    }
}

#[test]
fn complement() {
    let mut cpu = cpu_with_a(0x35);
    cpu.cpl();
    assert_eq!(cpu.registers.a, 0xCA);
    assert_eq!(cpu.registers.f, flags(false, true, true, false));
    cpu.cpl();
    assert_eq!(cpu.registers.a, 0x35);
}

#[test]
fn bit_set_reset() {
    let mut cpu = CPU::new();
    cpu.bit(7, 0x80);
    assert_eq!(cpu.registers.f, flags(false, false, true, false));
    cpu.bit(0, 0x80);
    assert!(cpu.registers.f.zero);
    assert_eq!(cpu.set(3, 0x00), 0x08);
    assert_eq!(cpu.set(3, 0x08), 0x08);
    assert_eq!(cpu.reset(7, 0xFF), 0x7F);
    assert_eq!(cpu.reset(7, 0x7F), 0x7F);
    let v = cpu.set(5, 0x00);
    cpu.bit(5, v);
    assert!(!cpu.registers.f.zero);
    let v = cpu.reset(5, 0xFF);
    cpu.bit(5, v);
    assert!(cpu.registers.f.zero);
}

#[test]
fn daa_adjusts_bcd_addition_and_subtraction() {
    let mut cpu = cpu_with_a(0x45);
    cpu.registers.a = cpu.add(0x38);
    assert_eq!(cpu.registers.a, 0x7D);
    cpu.daa();
    assert_eq!(cpu.registers.a, 0x83);
    assert!(!cpu.registers.f.carry);

    let mut cpu = cpu_with_a(0x99);
    cpu.registers.a = cpu.add(0x01);
    cpu.daa();
    assert_eq!(cpu.registers.a, 0x00);
    assert!(cpu.registers.f.carry);
    assert!(cpu.registers.f.zero);

    let mut cpu = cpu_with_a(0x10);
    cpu.registers.a = cpu.subtract(0x20);
    cpu.daa();
    assert_eq!(cpu.registers.a, 0x90);
    assert!(cpu.registers.f.carry);
}

#[test]
fn daa_is_decimal_addition_for_all_bcd_pairs() {
    for x in 0u8..100 {
        for y in 0u8..100 {
            let a = (x / 10) * 16 + x % 10;
            let b = (y / 10) * 16 + y % 10;
            let mut cpu = cpu_with_a(a);
            cpu.registers.a = cpu.add(b);
            cpu.daa();
            let sum = (x as u32 + y as u32) % 100;
            assert_eq!(cpu.registers.a as u32, (sum / 10) * 16 + sum % 10);
            assert_eq!(cpu.registers.f.carry, x as u32 + y as u32 >= 100);
        }
    }
}

// Decoding

#[test]
fn decoding_known_opcodes() {
    assert_eq!(Instruction::from_byte(0x80, false), Some(Instruction::ADD(ArithmeticTarget::B)));
    assert_eq!(Instruction::from_byte(0x81, false), Some(Instruction::ADD(ArithmeticTarget::C)));
    assert_eq!(Instruction::from_byte(0x00, true), Some(Instruction::RLC(ArithmeticTarget::B)));
    assert_eq!(Instruction::from_byte_not_prefixed(0x81), Some(Instruction::ADD(ArithmeticTarget::C)));
    assert_eq!(Instruction::from_byte_prefixed(0x00), Some(Instruction::RLC(ArithmeticTarget::B)));
}

// Execution

#[test]
fn execute_add_immediate_consumes_a_byte() {
    let mut cpu = cpu_with_a(0x01);
    cpu.pc = 0x0150;
    cpu.bus.write_byte(0x0151, 0x02);
    let next = cpu.execute(Instruction::ADD(ArithmeticTarget::D8));
    assert_eq!(next, 0x0152);
    assert_eq!(cpu.registers.a, 0x03);
    assert_eq!(cpu.pc, 0x0150);
}

#[test]
fn execute_alu_on_registers_and_memory() {
    let mut cpu = cpu_with_a(0x0F);
    cpu.registers.b = 0x01;
    assert_eq!(cpu.execute(Instruction::ADD(ArithmeticTarget::B)), 1);
    assert_eq!(cpu.registers.a, 0x10);
    assert!(cpu.registers.f.half_carry);
    cpu.registers.set_hl(0xC000);
    cpu.bus.write_byte(0xC000, 0x10);
    cpu.execute(Instruction::SUB(ArithmeticTarget::HL));
    assert_eq!(cpu.registers.a, 0x00);
    assert!(cpu.registers.f.zero);
    cpu.execute(Instruction::INC(ArithmeticTarget::HL));
    assert_eq!(cpu.bus.read_byte(0xC000), 0x11);
    cpu.execute(Instruction::SET(0, ArithmeticTarget::B));
    assert_eq!(cpu.registers.b, 0x01);
    cpu.execute(Instruction::RESET(0, ArithmeticTarget::B));
    assert_eq!(cpu.registers.b, 0x00);
    cpu.execute(Instruction::SWAP(ArithmeticTarget::HL));
    assert_eq!(cpu.bus.read_byte(0xC000), 0x11);
    cpu.execute(Instruction::CMP(ArithmeticTarget::HL));
    assert_eq!(cpu.registers.a, 0x00);
    assert!(cpu.registers.f.carry);
}

#[test]
fn execute_flag_instructions() {
    let mut cpu = CPU::new();
    cpu.registers.f = flags(true, true, true, false);
    cpu.execute(Instruction::SCF);
    assert_eq!(cpu.registers.f, flags(true, false, false, true));
    cpu.execute(Instruction::CCF);
    assert_eq!(cpu.registers.f, flags(true, false, false, false));
}

#[test]
fn execute_jumps() {
    let mut cpu = CPU::new();
    cpu.pc = 0x0100;
    cpu.bus.write_byte(0x0101, 0x00);
    cpu.bus.write_byte(0x0102, 0x80);
    assert_eq!(cpu.execute(Instruction::JP(JumpTest::Always)), 0x8000);
    assert_eq!(cpu.execute(Instruction::JP(JumpTest::Zero)), 0x0103);
    cpu.registers.f.zero = true;
    assert_eq!(cpu.execute(Instruction::JP(JumpTest::Zero)), 0x8000);
    assert_eq!(cpu.execute(Instruction::JP(JumpTest::NotZero)), 0x0103);
    cpu.bus.write_byte(0x0101, 0xFE);
    assert_eq!(cpu.execute(Instruction::JR(JumpTest::Always)), 0x0100);
    cpu.bus.write_byte(0x0101, 0x05);
    assert_eq!(cpu.execute(Instruction::JR(JumpTest::Carry)), 0x0102);
    cpu.registers.f.carry = true;
    assert_eq!(cpu.execute(Instruction::JR(JumpTest::Carry)), 0x0107);
    assert_eq!(cpu.execute(Instruction::JR(JumpTest::NotCarry)), 0x0102);
}

#[test]
fn execute_loads() {
    let mut cpu = CPU::new();
    cpu.pc = 0x0100;
    cpu.bus.write_byte(0x0101, 0x42);
    cpu.bus.write_byte(0x0102, 0xC0);
    assert_eq!(cpu.execute(Instruction::LD(LoadType::Byte(Reg8Target::B, Reg8Source::D8))), 0x0102);
    assert_eq!(cpu.registers.b, 0x42);
    assert_eq!(
        cpu.execute(Instruction::LD(LoadType::Word(Reg16Target::HL, Reg16Source::D16))),
        0x0103
    );
    assert_eq!(cpu.registers.get_hl(), 0xC042);
    assert_eq!(cpu.execute(Instruction::LD(LoadType::Byte(Reg8Target::HLINC, Reg8Source::B))), 0x0101);
    assert_eq!(cpu.bus.read_byte(0xC042), 0x42);
    assert_eq!(cpu.registers.get_hl(), 0xC043);
    cpu.execute(Instruction::LD(LoadType::Byte(Reg8Target::A, Reg8Source::HLDEC)));
    assert_eq!(cpu.registers.get_hl(), 0xC042);
    assert_eq!(cpu.registers.a, 0x00);
    cpu.execute(Instruction::LD(LoadType::Byte(Reg8Target::C, Reg8Source::HLI)));
    assert_eq!(cpu.registers.c, 0x42);
    cpu.sp = 0xBEEF;
    assert_eq!(cpu.execute(Instruction::LD(LoadType::IndirectFromSP)), 0x0103);
    assert_eq!(cpu.bus.read_byte(0xC042), 0xEF);
    assert_eq!(cpu.bus.read_byte(0xC043), 0xBE);
}

#[test]
fn execute_push_pop_and_word_arithmetic() {
    let mut cpu = CPU::new();
    cpu.sp = 0xD000;
    cpu.registers.set_de(0x1234);
    cpu.execute(Instruction::PUSH(StackTarget::DE));
    assert_eq!(cpu.sp, 0xCFFE);
    cpu.execute(Instruction::POP(StackTarget::BC));
    assert_eq!(cpu.registers.get_bc(), 0x1234);
    assert_eq!(cpu.sp, 0xD000);
    cpu.execute(Instruction::INC16(Reg16Target::SP));
    assert_eq!(cpu.sp, 0xD001);
    cpu.execute(Instruction::DEC16(Reg16Target::SP));
    assert_eq!(cpu.sp, 0xD000);
    cpu.registers.set_hl(0xFFFF);
    cpu.execute(Instruction::INC16(Reg16Target::HL));
    assert_eq!(cpu.registers.get_hl(), 0x0000);
    cpu.execute(Instruction::DEC16(Reg16Target::HL));
    assert_eq!(cpu.registers.get_hl(), 0xFFFF);
    cpu.execute(Instruction::ADD16(Reg16Target::BC));
    assert_eq!(cpu.registers.get_hl(), 0x1233);
    assert!(cpu.registers.f.carry);
}

#[test]
fn execute_lengths_of_simple_instructions() {
    let mut cpu = CPU::new();
    cpu.pc = 0xFFFF;
    assert_eq!(cpu.execute(Instruction::NOP), 0x0000);
    assert_eq!(cpu.execute(Instruction::STOP), 0x0001);
    assert_eq!(cpu.execute(Instruction::HALT), 0x0000);
    assert_eq!(cpu.execute(Instruction::ADDHL), 0x0000);
    cpu.registers.a = 0x45;
    cpu.execute(Instruction::DAA);
    assert_eq!(cpu.registers.a, 0x45);
}

#[test]
fn step_runs_the_instruction_at_pc() {
    let mut cpu = cpu_with_a(0x03);
    cpu.registers.b = 0x05;
    cpu.bus.write_byte(0x0000, 0x80);
    cpu.bus.write_byte(0x0001, 0xCB);
    cpu.bus.write_byte(0x0002, 0x00);
    cpu.step();
    assert_eq!(cpu.registers.a, 0x08);
    assert_eq!(cpu.pc, 0x0001);
    cpu.step();
    assert_eq!(cpu.registers.b, 0x0A);
    assert_eq!(cpu.pc, 0x0003);
}

#[test]
fn load_sixteen_is_a_no_op() {
    let mut cpu = cpu_with_a(0x12);
    cpu.ld16(0xFFFF);
    assert_eq!(cpu.registers.a, 0x12);
    assert_eq!(cpu.sp, 0);
}

// Video

#[test]
fn gpu_starts_blank() {
    let mut gpu = GPU::new();
    assert_eq!(gpu.read_vram(0), 0);
    assert_eq!(gpu.read_vram(VRAM_SIZE - 1), 0);
    gpu.write_vram(0x8000, 0xFF);
    assert_eq!(gpu.read_vram(0), 0);
    let t = empty_tile();
    for row in t.iter() {
        for p in row.iter() {
            assert_eq!(*p, TilePixelValue::Zero);
        }
    }
}
