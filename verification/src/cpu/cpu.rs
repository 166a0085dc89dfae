use vstd::prelude::*;

use crate::cpu::alu::{
    lemma_wrap16_add,
    lemma_nibble, lemma_low12, lemma_shift_right_one, lemma_shift_left_one, lemma_swap_nibbles,
    lemma_complement, lemma_bit_mask, lemma_sign_extend, lemma_sra,
    wrap16, signed8, alu_add, alu_add_carry, alu_sub, alu_sub_carry, alu_and, alu_or, alu_xor,
    alu_inc, alu_dec, alu_add16, alu_rr, alu_rl, alu_rrc, alu_rlc, alu_srl, alu_sra, alu_sla,
    alu_swap, alu_rra, alu_rla, alu_rrca, alu_rlca, alu_cpl, alu_bit, alu_reset, alu_set, alu_daa,
};
use crate::cpu::instruction::{
    ArithmeticTarget, Instruction, JumpTest, LoadType, Reg16Source, Reg16Target, Reg8Source,
    Reg8Target, StackTarget, decode, is_known_opcode,
};
use crate::cpu::memory_bus::{MemoryBus, MEMORY_SIZE, lemma_bus_len};
use crate::cpu::registers::{
    join_word, split_word,
    FlagsRegister, Registers, high_byte, low_byte, word, operand, operand16,
    registers_after_write, memory_after_write, registers_after_write16, sp_after_write16,
    is_register_or_hl,
};

verus! {

broadcast use {lemma_bus_len, crate::cpu::alu::lemma_wrapping_add16, crate::cpu::alu::lemma_wrapping_sub16};

/// The whole observable state of the CPU: registers, memory, program
/// counter and stack pointer.
pub struct CpuState {
    pub registers: Registers,
    pub memory: Seq<u8>,
    pub pc: u16,
    pub sp: u16,
}

impl CpuState {
    pub open spec fn with_registers(self, r: Registers) -> CpuState {
        CpuState { registers: r, ..self }
    }

    pub open spec fn with_flags(self, f: FlagsRegister) -> CpuState {
        self.with_registers(Registers { f: f, ..self.registers })
    }

    /// A and the flags replaced by an operation's result.
    pub open spec fn with_a_flags(self, out: (u8, FlagsRegister)) -> CpuState {
        self.with_registers(Registers { a: out.0, f: out.1, ..self.registers })
    }

    /// The byte after the opcode.
    pub open spec fn imm8(self) -> u8 {
        self.memory[self.pc + 1]
    }

    /// The little-endian word after the opcode.
    pub open spec fn imm16(self) -> u16 {
        word(self.memory[self.pc + 2], self.memory[self.pc + 1])
    }
}

/// The CPU: registers, the memory bus, program counter and stack pointer.
pub struct CPU {
    pub registers: Registers,
    pub bus: MemoryBus,
    pub pc: u16,
    pub sp: u16,
}

impl View for CPU {
    type V = CpuState;

    open spec fn view(&self) -> CpuState {
        CpuState { registers: self.registers, memory: self.bus@, pc: self.pc, sp: self.sp }
    }
}

/// Whether a jump with condition `t` is taken under flags `f`.
pub open spec fn jump_condition(f: FlagsRegister, t: JumpTest) -> bool {
    match t {
        JumpTest::NotZero => !f.zero,
        JumpTest::NotCarry => !f.carry,
        JumpTest::Zero => f.zero,
        JumpTest::Carry => f.carry,
        JumpTest::Always => true,
    }
}

/// Where a relative jump lands: `next_pc` plus the signed offset, modulo 65536.
pub fn relative_target(next_pc: u16, offset: u8) -> (target: u16)
    ensures
        target == wrap16(next_pc + signed8(offset)),
{
    proof {
        lemma_sign_extend(offset);
        reveal(wrap16);
    }
    next_pc.wrapping_add((offset as i8) as u16)
}

/// The target of a call: the little-endian word after the opcode, its
/// addresses wrapping past 0xFFFF.
pub open spec fn call_target(s: CpuState) -> u16 {
    word(s.memory[wrap16(s.pc + 2) as int], s.memory[wrap16(s.pc + 1) as int])
}

/// The state after pushing `v`: the high byte goes to SP - 1, the low byte
/// to SP - 2, and SP moves down by two.
pub open spec fn push_spec(s: CpuState, v: u16) -> CpuState {
    let sp1 = wrap16(s.sp - 1);
    let sp2 = wrap16(s.sp - 2);
    CpuState {
        memory: s.memory.update(sp1 as int, high_byte(v)).update(sp2 as int, low_byte(v)),
        sp: sp2,
        ..s
    }
}

/// The word on top of the stack: low byte at SP, high byte at SP + 1.
pub open spec fn stack_top(s: CpuState) -> u16 {
    word(s.memory[wrap16(s.sp + 1) as int], s.memory[s.sp as int])
}

/// The state after popping: SP moves up by two.
pub open spec fn pop_spec(s: CpuState) -> CpuState {
    CpuState { sp: wrap16(s.sp + 2), ..s }
}

/// Where a conditional absolute jump goes: the word after the opcode when
/// taken, else past the three-byte instruction.
pub open spec fn jump_spec(s: CpuState, should_jump: bool) -> u16 {
    if should_jump {
        s.imm16()
    } else {
        wrap16(s.pc + 3)
    }
}

/// The state after writing `v` to an 8-bit operand (register or memory at HL).
#[verifier::opaque]
pub open spec fn write_operand(s: CpuState, t: ArithmeticTarget, v: u8) -> CpuState {
    CpuState {
        registers: registers_after_write(s.registers, t, v),
        memory: memory_after_write(s.registers, s.memory, t, v),
        ..s
    }
}

/// The operand of an 8-bit ALU instruction and the address of the next
/// instruction: `D8` takes the byte after the opcode.
pub open spec fn alu_operand(s: CpuState, t: ArithmeticTarget) -> (u8, u16) {
    if t == ArithmeticTarget::D8 {
        (s.imm8(), wrap16(s.pc + 2))
    } else {
        (operand(s.registers, s.memory, t), wrap16(s.pc + 1))
    }
}

/// The state after a read-modify-write instruction on an 8-bit operand:
/// the flags are set from `out.1`, then `out.0` is written to the operand.
pub open spec fn modify_operand(s: CpuState, t: ArithmeticTarget, out: (u8, FlagsRegister)) -> CpuState {
    write_operand(s.with_flags(out.1), t, out.0)
}

/// The value that an 8-bit load reads and the state after the read (the
/// `HLINC`/`HLDEC` sources move HL).
pub open spec fn load_source_spec(s: CpuState, src: Reg8Source) -> (u8, CpuState) {
    let r = s.registers;
    match src {
        Reg8Source::A => (r.a, s),
        Reg8Source::B => (r.b, s),
        Reg8Source::C => (r.c, s),
        Reg8Source::D => (r.d, s),
        Reg8Source::E => (r.e, s),
        Reg8Source::H => (r.h, s),
        Reg8Source::L => (r.l, s),
        Reg8Source::BCI => (s.memory[r.bc() as int], s),
        Reg8Source::DEI => (s.memory[r.de() as int], s),
        Reg8Source::HLI => (s.memory[r.hl() as int], s),
        Reg8Source::D8 => (s.imm8(), s),
        Reg8Source::HLINC => (s.memory[r.hl() as int], s.with_registers(r.with_hl(wrap16(r.hl() + 1)))),
        Reg8Source::HLDEC => (s.memory[r.hl() as int], s.with_registers(r.with_hl(wrap16(r.hl() - 1)))),
    }
}

/// The state after an 8-bit load stores `v` to `dst`.
pub open spec fn load_target_spec(s: CpuState, dst: Reg8Target, v: u8) -> CpuState {
    let r = s.registers;
    match dst {
        Reg8Target::A => s.with_registers(Registers { a: v, ..r }),
        Reg8Target::B => s.with_registers(Registers { b: v, ..r }),
        Reg8Target::C => s.with_registers(Registers { c: v, ..r }),
        Reg8Target::D => s.with_registers(Registers { d: v, ..r }),
        Reg8Target::E => s.with_registers(Registers { e: v, ..r }),
        Reg8Target::H => s.with_registers(Registers { h: v, ..r }),
        Reg8Target::L => s.with_registers(Registers { l: v, ..r }),
        Reg8Target::BCI => CpuState { memory: s.memory.update(r.bc() as int, v), ..s },
        Reg8Target::DEI => CpuState { memory: s.memory.update(r.de() as int, v), ..s },
        Reg8Target::HLI => CpuState { memory: s.memory.update(r.hl() as int, v), ..s },
        Reg8Target::HLINC => CpuState {
            memory: s.memory.update(r.hl() as int, v),
            registers: r.with_hl(wrap16(r.hl() + 1)),
            ..s
        },
        Reg8Target::HLDEC => CpuState {
            memory: s.memory.update(r.hl() as int, v),
            registers: r.with_hl(wrap16(r.hl() - 1)),
            ..s
        },
    }
}

/// The state after a 16-bit register or SP receives `v`.
pub open spec fn write_operand16(s: CpuState, t: Reg16Target, v: u16) -> CpuState {
    CpuState {
        registers: registers_after_write16(s.registers, t, v),
        sp: sp_after_write16(s.sp, t, v),
        ..s
    }
}

/// The value PUSH saves for a register pair.
pub open spec fn stack_source(r: Registers, t: StackTarget) -> u16 {
    match t {
        StackTarget::BC => r.bc(),
        StackTarget::DE => r.de(),
        StackTarget::HL => r.hl(),
        StackTarget::AF => r.af(),
    }
}

/// Whether an instruction is one `execute` handles without leaving its domain:
/// PUSH of BC, DE or HL; POP into BC; bit indices below 8; no immediate
/// operand for the read-modify-write instructions; and the bytes read after
/// the opcode, and the address written by LD (a16), SP, within the 16-bit
/// address space.
pub open spec fn can_execute(s: CpuState, ins: Instruction) -> bool {
    let f = s.registers.f;
    match ins {
        Instruction::PUSH(t) => t != StackTarget::AF,
        Instruction::POP(t) => t == StackTarget::BC,
        Instruction::JP(t) => jump_condition(f, t) ==> s.pc + 2 <= 0xFFFF,
        Instruction::JR(t) => jump_condition(f, t) ==> s.pc + 1 <= 0xFFFF,
        Instruction::LD(LoadType::Byte(_, src)) => src == Reg8Source::D8 ==> s.pc + 1 <= 0xFFFF,
        Instruction::LD(LoadType::Word(_, _)) => s.pc + 2 <= 0xFFFF,
        Instruction::LD(LoadType::IndirectFromSP) => s.pc + 2 <= 0xFFFF && s.imm16() + 1 <= 0xFFFF,
        Instruction::ADD(t) | Instruction::ADDC(t) | Instruction::SUB(t) | Instruction::SUBC(t)
        | Instruction::AND(t) | Instruction::OR(t) | Instruction::XOR(t) | Instruction::CMP(t) =>
            t == ArithmeticTarget::D8 ==> s.pc + 1 <= 0xFFFF,
        Instruction::INC(t) | Instruction::DEC(t) | Instruction::SRL(t) | Instruction::RR(t)
        | Instruction::RL(t) | Instruction::RRC(t) | Instruction::RLC(t) | Instruction::SRA(t)
        | Instruction::SLA(t) | Instruction::SWAP(t) => is_register_or_hl(t),
        Instruction::BIT(i, t) | Instruction::RESET(i, t) | Instruction::SET(i, t) =>
            i < 8 && is_register_or_hl(t),
        _ => true,
    }
}

/// What a load does: the new state and the address of the next instruction.
pub open spec fn load_spec(s: CpuState, lt: LoadType) -> (CpuState, u16) {
    match lt {
        LoadType::Byte(dst, src) => {
            let (v, s1) = load_source_spec(s, src);
            (load_target_spec(s1, dst, v), if src == Reg8Source::D8 { wrap16(s.pc + 2) } else { wrap16(s.pc + 1) })
        },
        LoadType::Word(dst, _) => (write_operand16(s, dst, s.imm16()), wrap16(s.pc + 3)),
        LoadType::IndirectFromSP => (
            CpuState {
                memory: s.memory.update(s.imm16() as int, low_byte(s.sp)).update(s.imm16() + 1, high_byte(s.sp)),
                ..s
            },
            wrap16(s.pc + 3),
        ),
    }
}

/// The control instructions: NOP, STOP, HALT, PUSH, POP, JP and JR.
pub open spec fn is_control(ins: Instruction) -> bool {
    ||| ins is NOP
    ||| ins is STOP
    ||| ins is HALT
    ||| ins is PUSH
    ||| ins is POP
    ||| ins is JP
    ||| ins is JR
}

/// The instructions that combine A with an 8-bit operand.
pub open spec fn is_accumulator_alu(ins: Instruction) -> bool {
    ||| ins is ADD
    ||| ins is ADDC
    ||| ins is SUB
    ||| ins is SUBC
    ||| ins is AND
    ||| ins is OR
    ||| ins is XOR
    ||| ins is CMP
}

/// The instructions on 16-bit registers: ADD HL, INC, DEC.
pub open spec fn is_word_alu(ins: Instruction) -> bool {
    ||| ins is ADD16
    ||| ins is INC16
    ||| ins is DEC16
}

/// The instructions on A and the flags alone.
pub open spec fn is_accumulator_flags(ins: Instruction) -> bool {
    ||| ins is CCF
    ||| ins is SCF
    ||| ins is RRA
    ||| ins is RLA
    ||| ins is RRCA
    ||| ins is RLCA
    ||| ins is CPL
    ||| ins is DAA
}

/// The read-modify-write instructions on an 8-bit operand.
pub open spec fn is_operand_rmw(ins: Instruction) -> bool {
    ||| ins is INC
    ||| ins is DEC
    ||| ins is BIT
    ||| ins is RESET
    ||| ins is SET
    ||| ins is SRL
    ||| ins is RR
    ||| ins is RL
    ||| ins is RRC
    ||| ins is RLC
    ||| ins is SRA
    ||| ins is SLA
    ||| ins is SWAP
}

/// What a control instruction does.
pub open spec fn control_spec(s: CpuState, ins: Instruction) -> (CpuState, u16) {
    let r = s.registers;
    let next = wrap16(s.pc + 1);
    match ins {
        Instruction::STOP => (s, wrap16(s.pc + 2)),
        Instruction::PUSH(t) => (push_spec(s, stack_source(r, t)), next),
        Instruction::POP(_) => (pop_spec(s).with_registers(r.with_bc(stack_top(s))), next),
        Instruction::JP(t) => (s, jump_spec(s, jump_condition(r.f, t))),
        Instruction::JR(t) => (
            s,
            if jump_condition(r.f, t) {
                wrap16(s.pc + 2 + signed8(s.imm8()))
            } else {
                wrap16(s.pc + 2)
            },
        ),
        _ => (s, next),
    }
}

/// What an instruction combining A with an 8-bit operand does.
pub open spec fn accumulator_alu_spec(s: CpuState, ins: Instruction) -> (CpuState, u16) {
    let r = s.registers;
    match ins {
        Instruction::ADD(t) => (s.with_a_flags(alu_add(r.a, alu_operand(s, t).0)), alu_operand(s, t).1),
        Instruction::ADDC(t) => (
            s.with_a_flags(alu_add_carry(r.a, alu_operand(s, t).0, r.f.carry)),
            alu_operand(s, t).1,
        ),
        Instruction::SUB(t) => (s.with_a_flags(alu_sub(r.a, alu_operand(s, t).0)), alu_operand(s, t).1),
        Instruction::SUBC(t) => (
            s.with_a_flags(alu_sub_carry(r.a, alu_operand(s, t).0, r.f.carry)),
            alu_operand(s, t).1,
        ),
        Instruction::AND(t) => (s.with_a_flags(alu_and(r.a, alu_operand(s, t).0)), alu_operand(s, t).1),
        Instruction::OR(t) => (s.with_a_flags(alu_or(r.a, alu_operand(s, t).0)), alu_operand(s, t).1),
        Instruction::XOR(t) => (s.with_a_flags(alu_xor(r.a, alu_operand(s, t).0)), alu_operand(s, t).1),
        Instruction::CMP(t) => (s.with_flags(alu_sub(r.a, alu_operand(s, t).0).1), alu_operand(s, t).1),
        _ => (s, wrap16(s.pc + 1)),
    }
}

/// What an instruction on a 16-bit register does.
pub open spec fn word_alu_spec(s: CpuState, ins: Instruction) -> (CpuState, u16) {
    let r = s.registers;
    let next = wrap16(s.pc + 1);
    match ins {
        Instruction::ADD16(t) => {
            let out = alu_add16(r.hl(), operand16(r, s.sp, t), r.f);
            (s.with_registers(Registers { f: out.1, ..r }.with_hl(out.0)), next)
        },
        Instruction::INC16(t) => (write_operand16(s, t, wrap16(operand16(r, s.sp, t) + 1)), next),
        Instruction::DEC16(t) => (write_operand16(s, t, wrap16(operand16(r, s.sp, t) - 1)), next),
        _ => (s, next),
    }
}

/// What an instruction on A and the flags does.
pub open spec fn accumulator_flags_spec(s: CpuState, ins: Instruction) -> CpuState {
    let r = s.registers;
    let f = r.f;
    match ins {
        Instruction::CCF => s.with_flags(FlagsRegister { carry: !f.carry, subtract: false, half_carry: false, ..f }),
        Instruction::SCF => s.with_flags(FlagsRegister { carry: true, subtract: false, half_carry: false, ..f }),
        Instruction::RRA => s.with_a_flags(alu_rra(r.a, f)),
        Instruction::RLA => s.with_a_flags(alu_rla(r.a, f)),
        Instruction::RRCA => s.with_a_flags(alu_rrca(r.a)),
        Instruction::RLCA => s.with_a_flags(alu_rlca(r.a)),
        Instruction::CPL => s.with_a_flags(alu_cpl(r.a, f)),
        Instruction::DAA => s.with_a_flags(alu_daa(r.a, f)),
        _ => s,
    }
}

/// What a read-modify-write instruction on an 8-bit operand does.
pub open spec fn operand_rmw_spec(s: CpuState, ins: Instruction) -> CpuState {
    let r = s.registers;
    let f = r.f;
    match ins {
        Instruction::INC(t) => modify_operand(s, t, alu_inc(operand(r, s.memory, t), f)),
        Instruction::DEC(t) => modify_operand(s, t, alu_dec(operand(r, s.memory, t), f)),
        Instruction::BIT(i, t) => s.with_flags(alu_bit(i, operand(r, s.memory, t), f)),
        Instruction::RESET(i, t) => write_operand(s, t, alu_reset(i, operand(r, s.memory, t))),
        Instruction::SET(i, t) => write_operand(s, t, alu_set(i, operand(r, s.memory, t))),
        Instruction::SRL(t) => modify_operand(s, t, alu_srl(operand(r, s.memory, t))),
        Instruction::RR(t) => modify_operand(s, t, alu_rr(operand(r, s.memory, t), f)),
        Instruction::RL(t) => modify_operand(s, t, alu_rl(operand(r, s.memory, t), f)),
        Instruction::RRC(t) => modify_operand(s, t, alu_rrc(operand(r, s.memory, t))),
        Instruction::RLC(t) => modify_operand(s, t, alu_rlc(operand(r, s.memory, t))),
        Instruction::SRA(t) => modify_operand(s, t, alu_sra(operand(r, s.memory, t))),
        Instruction::SLA(t) => modify_operand(s, t, alu_sla(operand(r, s.memory, t))),
        Instruction::SWAP(t) => modify_operand(s, t, alu_swap(operand(r, s.memory, t))),
        _ => s,
    }
}

/// What executing `ins` does: the new state (its program counter is not
/// moved) and the address of the next instruction. Instructions outside
/// the groups below are not implemented and only move on to the next byte.
#[verifier::opaque]
pub open spec fn execute_spec(s: CpuState, ins: Instruction) -> (CpuState, u16) {
    if is_control(ins) {
        control_spec(s, ins)
    } else if ins is LD {
        load_spec(s, ins->LD_0)
    } else if is_accumulator_alu(ins) {
        accumulator_alu_spec(s, ins)
    } else if is_word_alu(ins) {
        word_alu_spec(s, ins)
    } else if is_accumulator_flags(ins) {
        (accumulator_flags_spec(s, ins), wrap16(s.pc + 1))
    } else if is_operand_rmw(ins) {
        (operand_rmw_spec(s, ins), wrap16(s.pc + 1))
    } else {
        (s, wrap16(s.pc + 1))
    }
}

/// The opcode at PC, whether it came after the 0xCB prefix, and the state
/// with PC moved past the prefix.
pub open spec fn fetch(s: CpuState) -> (u8, bool, CpuState) {
    if s.memory[s.pc as int] == 0xCB {
        let s1 = CpuState { pc: wrap16(s.pc + 1), ..s };
        (s1.memory[s1.pc as int], true, s1)
    } else {
        (s.memory[s.pc as int], false, s)
    }
}

/// Whether the instruction at PC is one the decoder knows.
pub open spec fn can_step(s: CpuState) -> bool {
    is_known_opcode(fetch(s).0, fetch(s).1)
}

/// One fetch-decode-execute cycle: PC ends at the next instruction.
pub open spec fn step_spec(s: CpuState) -> CpuState {
    let (opcode, prefixed, s1) = fetch(s);
    let (s2, next_pc) = execute_spec(s1, decode(opcode, prefixed));
    CpuState { pc: next_pc, ..s2 }
}

/// The registers right after power-on: all zero, all flags cleared.
pub open spec fn initial_registers() -> Registers {
    Registers {
        a: 0,
        b: 0,
        c: 0,
        d: 0,
        e: 0,
        f: FlagsRegister { zero: false, subtract: false, half_carry: false, carry: false },
        h: 0,
        l: 0,
    }
}

/// The state right after power-on: zeroed registers and memory, PC and SP at 0.
pub open spec fn initial_state() -> CpuState {
    CpuState {
        registers: initial_registers(),
        memory: Seq::new(MEMORY_SIZE as nat, |i: int| 0u8),
        pc: 0,
        sp: 0,
    }
}

impl CPU {
    pub fn new() -> (cpu: CPU)
        ensures
            cpu@ == initial_state(),
    {
        CPU { registers: Registers::new(), bus: MemoryBus::new(), pc: 0, sp: 0 }
    }

    /// Fetches, decodes and executes the instruction at PC, and moves PC to
    /// the next one.
    pub fn step(&mut self)
        requires
            can_step(old(self)@),
        ensures
            final(self)@ == step_spec(old(self)@),
    {
        let mut opcode = self.bus.read_byte(self.pc);
        let prefixed = opcode == 0xCB;
        if prefixed {
            // move past the prefix
            self.pc = self.pc.wrapping_add(1);
            opcode = self.bus.read_byte(self.pc);
        }
        let instruction = Instruction::from_byte(opcode, prefixed).unwrap();
        let next_pc = self.execute(instruction);
        self.pc = next_pc;
    }

    /// The address a conditional absolute jump continues at.
    pub fn jump(&self, should_jump: bool) -> (next_pc: u16)
        requires
            should_jump ==> self.pc + 2 <= 0xFFFF,
        ensures
            next_pc == jump_spec(self@, should_jump),
    {
        if should_jump {
            // little endian
            let least = self.bus.read_byte(self.pc + 1);
            let most = self.bus.read_byte(self.pc + 2);
            let target = (most as u16) << 8 | least as u16;
            proof { crate::cpu::registers::lemma_join_bytes(most, least, target); }
            target
        } else {
            // 1 byte for the opcode + 2 for the address
            self.pc.wrapping_add(3)
        }
    }

    /// Pushes `value` onto the stack.
    pub fn push(&mut self, value: u16)
        ensures
            final(self)@ == push_spec(old(self)@, value),
    {
        let hi = ((value & 0xFF00) >> 8) as u8;
        let lo = (value & 0xFF) as u8;
        proof {
            crate::cpu::registers::lemma_split_word(value, hi, lo);
            lemma_wrap16_add(self.sp - 1, -1);
        }
        self.sp = self.sp.wrapping_sub(1);
        self.bus.write_byte(self.sp, hi);

        self.sp = self.sp.wrapping_sub(1);
        self.bus.write_byte(self.sp, lo);
    }

    /// Pops the word on top of the stack.
    pub fn pop(&mut self) -> (v: u16)
        ensures
            v == stack_top(old(self)@),
            final(self)@ == pop_spec(old(self)@),
    {
        proof { lemma_wrap16_add(self.sp + 1, 1); }
        let least = self.bus.read_byte(self.sp);
        self.sp = self.sp.wrapping_add(1);

        let most = self.bus.read_byte(self.sp);
        self.sp = self.sp.wrapping_add(1);

        let v = (most as u16) << 8 | least as u16;
        proof { crate::cpu::registers::lemma_join_bytes(most, least, v); }
        v
    }

    /// A conditional call: when taken, the address after the three-byte
    /// instruction is pushed and the call target, the little-endian word
    /// after the opcode (read before the push, its addresses wrapping past
    /// 0xFFFF), is returned; else the address after the instruction is
    /// returned.
    pub fn call(&mut self, should_jump: bool) -> (next_pc: u16)
        ensures
            should_jump ==> next_pc == call_target(old(self)@) && final(self)@ == push_spec(
                old(self)@,
                wrap16(old(self).pc + 3),
            ),
            !should_jump ==> next_pc == wrap16(old(self).pc + 3) && final(self)@ == old(self)@,
    {
        let next_pc = self.pc.wrapping_add(3);
        if should_jump {
            let least = self.bus.read_byte(self.pc.wrapping_add(1));
            let most = self.bus.read_byte(self.pc.wrapping_add(2));
            let target = join_word(most, least);
            self.push(next_pc);
            target
        } else {
            next_pc
        }
    }

    /// A conditional return: when taken, the popped address; else the next instruction.
    pub fn return_(&mut self, should_jump: bool) -> (next_pc: u16)
        ensures
            should_jump ==> next_pc == stack_top(old(self)@) && final(self)@ == pop_spec(old(self)@),
            !should_jump ==> next_pc == wrap16(old(self).pc + 1) && final(self)@ == old(self)@,
    {
        if should_jump {
            self.pop()
        } else {
            self.pc.wrapping_add(1)
        }
    }

    /// Sets the flags of A + value and returns the sum; A itself is not written.
    pub fn add(&mut self, value: u8) -> (r: u8)
        ensures
            r == alu_add(old(self).registers.a, value).0,
            final(self)@ == old(self)@.with_flags(alu_add(old(self).registers.a, value).1),
    {
        proof {
            reveal(alu_add);
        }
        let a = self.registers.a;
        let new_value = a.wrapping_add(value);
        let did_overflow = a as u16 + value as u16 > 0xFF;
        proof {
            lemma_nibble(a);
            lemma_nibble(value);
        }
        self.registers.f.zero = new_value == 0;
        self.registers.f.subtract = false;
        self.registers.f.carry = did_overflow;
        self.registers.f.half_carry = (a & 0xF) + (value & 0xF) > 0xF;
        new_value
    }

    /// Adds `v` to HL, setting subtract, carry and half-carry; zero is kept.
    pub fn add_16(&mut self, v: u16)
        ensures
            final(self)@ == old(self)@.with_registers(
                Registers {
                    f: alu_add16(old(self).registers.hl(), v, old(self).registers.f).1,
                    ..old(self).registers
                }.with_hl(alu_add16(old(self).registers.hl(), v, old(self).registers.f).0),
            ),
    {
        proof {
            reveal(alu_add16);
        }
        let hl = self.registers.get_hl();
        let res = hl.wrapping_add(v);
        let overflow = hl as u32 + v as u32 > 0xFFFF;
        proof {
            lemma_low12(hl);
            lemma_low12(v);
        }
        self.registers.f.subtract = false;
        self.registers.f.carry = overflow;
        self.registers.f.half_carry = (hl & 0x0FFF) + (v & 0x0FFF) > 0x0FFF;
        self.registers.set_hl(res);
    }

    /// Sets the flags of A + value + carry and returns the sum.
    pub fn add_carry(&mut self, value: u8) -> (r: u8)
        ensures
            r == alu_add_carry(old(self).registers.a, value, old(self).registers.f.carry).0,
            final(self)@ == old(self)@.with_flags(
                alu_add_carry(old(self).registers.a, value, old(self).registers.f.carry).1,
            ),
    {
        proof {
            reveal(alu_add_carry);
        }
        let carry: u8 = if self.registers.f.carry { 1 } else { 0 };
        let a = self.registers.a;
        let v1 = a.wrapping_add(value);
        let overflow1 = a as u16 + value as u16 > 0xFF;
        let v2 = v1.wrapping_add(carry);
        let overflow2 = v1 as u16 + carry as u16 > 0xFF;
        proof {
            lemma_nibble(a);
            lemma_nibble(value);
        }
        self.registers.f.zero = v2 == 0;
        self.registers.f.subtract = false;
        self.registers.f.carry = overflow1 || overflow2;
        self.registers.f.half_carry = (a & 0xF) + (value & 0xF) + carry > 0xF;
        v2
    }

    /// Sets the flags of A - value and returns the difference.
    pub fn subtract(&mut self, value: u8) -> (r: u8)
        ensures
            r == alu_sub(old(self).registers.a, value).0,
            final(self)@ == old(self)@.with_flags(alu_sub(old(self).registers.a, value).1),
    {
        proof {
            reveal(alu_sub);
        }
        let a = self.registers.a;
        let new_v = a.wrapping_sub(value);
        let overflow = a < value;
        proof {
            lemma_nibble(a);
            lemma_nibble(value);
        }
        self.registers.f.zero = new_v == 0;
        self.registers.f.subtract = true;
        self.registers.f.carry = overflow;
        self.registers.f.half_carry = (a & 0xF) < (value & 0xF);
        new_v
    }

    /// Sets the flags of A - value - carry and returns the difference.
    pub fn subtract_carry(&mut self, value: u8) -> (r: u8)
        ensures
            r == alu_sub_carry(old(self).registers.a, value, old(self).registers.f.carry).0,
            final(self)@ == old(self)@.with_flags(
                alu_sub_carry(old(self).registers.a, value, old(self).registers.f.carry).1,
            ),
    {
        proof {
            reveal(alu_sub_carry);
        }
        let carry: u8 = if self.registers.f.carry { 1 } else { 0 };
        let a = self.registers.a;
        let v1 = a.wrapping_sub(value);
        let overflow1 = a < value;
        let v2 = v1.wrapping_sub(carry);
        let overflow2 = v1 < carry;
        proof {
            lemma_nibble(a);
            lemma_nibble(value);
        }
        self.registers.f.zero = v2 == 0;
        self.registers.f.subtract = true;
        self.registers.f.carry = overflow1 || overflow2;
        self.registers.f.half_carry = (a & 0xF) < (value & 0xF);
        v2
    }

    /// A &= value.
    pub fn and(&mut self, value: u8)
        ensures
            final(self)@ == old(self)@.with_a_flags(alu_and(old(self).registers.a, value)),
    {
        proof {
            reveal(alu_and);
        }
        self.registers.a &= value;
        self.registers.f.zero = self.registers.a == 0;
        self.registers.f.subtract = false;
        self.registers.f.carry = false;
        self.registers.f.half_carry = true;
    }

    /// A |= value.
    pub fn or(&mut self, value: u8)
        ensures
            final(self)@ == old(self)@.with_a_flags(alu_or(old(self).registers.a, value)),
    {
        proof {
            reveal(alu_or);
        }
        self.registers.a |= value;
        self.registers.f.zero = self.registers.a == 0;
        self.registers.f.subtract = false;
        self.registers.f.carry = false;
        self.registers.f.half_carry = false;
    }

    /// A ^= value.
    pub fn xor(&mut self, value: u8)
        ensures
            final(self)@ == old(self)@.with_a_flags(alu_xor(old(self).registers.a, value)),
    {
        proof {
            reveal(alu_xor);
        }
        self.registers.a ^= value;
        self.registers.f.zero = self.registers.a == 0;
        self.registers.f.subtract = false;
        self.registers.f.carry = false;
        self.registers.f.half_carry = false;
    }

    /// Compares A with value: the flags of A - value, A unchanged.
    pub fn cmp(&mut self, value: u8)
        ensures
            final(self)@ == old(self)@.with_flags(alu_sub(old(self).registers.a, value).1),
    {
        self.subtract(value);
    }

    /// Sets the flags of value + 1 and returns it; carry is kept.
    pub fn inc(&mut self, value: u8) -> (r: u8)
        ensures
            r == alu_inc(value, old(self).registers.f).0,
            final(self)@ == old(self)@.with_flags(alu_inc(value, old(self).registers.f).1),
    {
        proof {
            reveal(alu_inc);
        }
        let new_v = value.wrapping_add(1);
        proof { lemma_nibble(value); }
        self.registers.f.zero = new_v == 0;
        self.registers.f.subtract = false;
        self.registers.f.half_carry = (value & 0xF) == 0xF;
        new_v
    }

    /// Sets the flags of value - 1 and returns it; carry is kept.
    pub fn dec(&mut self, value: u8) -> (r: u8)
        ensures
            r == alu_dec(value, old(self).registers.f).0,
            final(self)@ == old(self)@.with_flags(alu_dec(value, old(self).registers.f).1),
    {
        proof {
            reveal(alu_dec);
        }
        let new_v = value.wrapping_sub(1);
        proof { lemma_nibble(value); }
        self.registers.f.zero = new_v == 0;
        self.registers.f.subtract = true;
        self.registers.f.half_carry = (value & 0xF) == 0x0;
        new_v
    }

    /// Rotates A right through the carry.
    pub fn rra(&mut self)
        ensures
            final(self)@ == old(self)@.with_a_flags(alu_rra(old(self).registers.a, old(self).registers.f)),
    {
        proof {
            reveal(alu_rra);
            reveal(alu_rr);
        }
        let old_carry: u8 = if self.registers.f.carry { 1 } else { 0 };
        let a = self.registers.a;
        let new_carry = a & 0x1; // bit 0 falls out
        proof { lemma_shift_right_one(a, old_carry); }
        self.registers.a = (a >> 1) | (old_carry << 7);
        self.registers.f.zero = false;
        self.registers.f.subtract = false;
        self.registers.f.carry = new_carry != 0;
        self.registers.f.half_carry = false;
    }

    /// Rotates A left through the carry.
    pub fn rla(&mut self)
        ensures
            final(self)@ == old(self)@.with_a_flags(alu_rla(old(self).registers.a, old(self).registers.f)),
    {
        proof {
            reveal(alu_rla);
            reveal(alu_rl);
        }
        let old_carry: u8 = if self.registers.f.carry { 1 } else { 0 };
        let a = self.registers.a;
        let new_carry = a & 0x80; // bit 7 falls out
        proof {
            lemma_shift_left_one(a, old_carry);
            lemma_shift_right_one(a, 0);
        }
        self.registers.a = (a << 1) | old_carry;
        self.registers.f.zero = false;
        self.registers.f.subtract = false;
        self.registers.f.carry = new_carry != 0;
        self.registers.f.half_carry = false;
    }

    /// Rotates A right; bit 0 goes to bit 7 and to the carry.
    pub fn rrca(&mut self)
        ensures
            final(self)@ == old(self)@.with_a_flags(alu_rrca(old(self).registers.a)),
    {
        proof {
            reveal(alu_rrca);
            reveal(alu_rrc);
        }
        let a = self.registers.a;
        let bit0 = a & 0x1;
        proof {
            lemma_shift_right_one(a, 0);
            lemma_shift_right_one(a, bit0);
        }
        self.registers.a = (a >> 1) | (bit0 << 7);
        self.registers.f.zero = false;
        self.registers.f.subtract = false;
        self.registers.f.carry = bit0 != 0;
        self.registers.f.half_carry = false;
    }

    /// Rotates A left; bit 7 goes to bit 0 and to the carry.
    pub fn rlca(&mut self)
        ensures
            final(self)@ == old(self)@.with_a_flags(alu_rlca(old(self).registers.a)),
    {
        proof {
            reveal(alu_rlca);
            reveal(alu_rlc);
        }
        let a = self.registers.a;
        let bit7 = a & 0x80;
        proof {
            lemma_shift_right_one(a, 0);
            lemma_shift_left_one(a, 0);
            lemma_shift_left_one(a, bit7 >> 7);
        }
        self.registers.a = (a << 1) | (bit7 >> 7);
        self.registers.f.zero = false;
        self.registers.f.subtract = false;
        self.registers.f.carry = bit7 != 0;
        self.registers.f.half_carry = false;
    }

    /// Complements A.
    pub fn cpl(&mut self)
        ensures
            final(self)@ == old(self)@.with_a_flags(alu_cpl(old(self).registers.a, old(self).registers.f)),
    {
        proof {
            reveal(alu_cpl);
        }
        proof { lemma_complement(self.registers.a); }
        self.registers.a = !self.registers.a;
        self.registers.f.half_carry = true;
        self.registers.f.subtract = true;
    }

    /// Tests bit `idx` of `value`: zero is set when the bit is clear.
    pub fn bit(&mut self, idx: u8, value: u8)
        requires
            idx < 8,
        ensures
            final(self)@ == old(self)@.with_flags(alu_bit(idx, value, old(self).registers.f)),
    {
        proof {
            reveal(alu_bit);
        }
        let mask: u8 = 1 << idx;
        proof { lemma_bit_mask(idx, value); }
        self.registers.f.zero = (value & mask) == 0;
        self.registers.f.subtract = false;
        self.registers.f.half_carry = true;
    }

    /// `value` with bit `idx` cleared.
    pub fn reset(&mut self, idx: u8, value: u8) -> (r: u8)
        requires
            idx < 8,
        ensures
            r == alu_reset(idx, value),
            final(self)@ == old(self)@,
    {
        proof {
            reveal(alu_reset);
        }
        let mask: u8 = 1 << idx;
        proof { lemma_bit_mask(idx, value); }
        value & !mask
    }

    /// `value` with bit `idx` set.
    pub fn set(&mut self, idx: u8, value: u8) -> (r: u8)
        requires
            idx < 8,
        ensures
            r == alu_set(idx, value),
            final(self)@ == old(self)@,
    {
        proof {
            reveal(alu_set);
        }
        let mask: u8 = 1 << idx;
        proof { lemma_bit_mask(idx, value); }
        value | mask
    }

    /// Shifts right, bit 0 to the carry.
    pub fn srl(&mut self, value: u8) -> (r: u8)
        ensures
            r == alu_srl(value).0,
            final(self)@ == old(self)@.with_flags(alu_srl(value).1),
    {
        proof {
            reveal(alu_srl);
        }
        let new_carry = value & 0x1;
        let new_v = value >> 1;
        proof { lemma_shift_right_one(value, 0); }
        self.registers.f.zero = new_v == 0;
        self.registers.f.subtract = false;
        self.registers.f.carry = new_carry != 0;
        self.registers.f.half_carry = false;
        new_v
    }

    /// Rotates right through the carry.
    pub fn rr(&mut self, value: u8) -> (r: u8)
        ensures
            r == alu_rr(value, old(self).registers.f).0,
            final(self)@ == old(self)@.with_flags(alu_rr(value, old(self).registers.f).1),
    {
        proof {
            reveal(alu_rr);
        }
        let old_carry: u8 = if self.registers.f.carry { 1 } else { 0 };
        let new_carry = value & 0x1;
        let new_v = (value >> 1) | (old_carry << 7);
        proof { lemma_shift_right_one(value, old_carry); }
        self.registers.f.zero = new_v == 0;
        self.registers.f.subtract = false;
        self.registers.f.half_carry = false;
        self.registers.f.carry = new_carry != 0;
        new_v
    }

    /// Rotates left through the carry.
    pub fn rl(&mut self, value: u8) -> (r: u8)
        ensures
            r == alu_rl(value, old(self).registers.f).0,
            final(self)@ == old(self)@.with_flags(alu_rl(value, old(self).registers.f).1),
    {
        proof {
            reveal(alu_rl);
        }
        let old_carry: u8 = if self.registers.f.carry { 1 } else { 0 };
        let new_carry = value & 0x80;
        let new_v = (value << 1) | old_carry;
        proof {
            lemma_shift_left_one(value, old_carry);
            lemma_shift_right_one(value, 0);
        }
        self.registers.f.zero = new_v == 0;
        self.registers.f.subtract = false;
        self.registers.f.carry = new_carry != 0;
        self.registers.f.half_carry = false;
        new_v
    }

    /// Rotates right; bit 0 goes to bit 7 and to the carry.
    pub fn rrc(&mut self, value: u8) -> (r: u8)
        ensures
            r == alu_rrc(value).0,
            final(self)@ == old(self)@.with_flags(alu_rrc(value).1),
    {
        proof {
            reveal(alu_rrc);
        }
        let bit0 = value & 0x1;
        proof {
            lemma_shift_right_one(value, 0);
            lemma_shift_right_one(value, bit0);
        }
        let new_v = (value >> 1) | (bit0 << 7);
        self.registers.f.zero = new_v == 0;
        self.registers.f.carry = bit0 != 0;
        self.registers.f.half_carry = false;
        self.registers.f.subtract = false;
        new_v
    }

    /// Rotates left; bit 7 goes to bit 0 and to the carry.
    pub fn rlc(&mut self, value: u8) -> (r: u8)
        ensures
            r == alu_rlc(value).0,
            final(self)@ == old(self)@.with_flags(alu_rlc(value).1),
    {
        proof {
            reveal(alu_rlc);
        }
        let bit7 = value & 0x80;
        proof {
            lemma_shift_right_one(value, 0);
            lemma_shift_left_one(value, 0);
            lemma_shift_left_one(value, bit7 >> 7);
        }
        let new_v = (value << 1) | (bit7 >> 7);
        self.registers.f.zero = new_v == 0;
        self.registers.f.subtract = false;
        self.registers.f.carry = bit7 != 0;
        self.registers.f.half_carry = false;
        new_v
    }

    /// Arithmetic shift right: bit 7 is kept, bit 0 to the carry.
    pub fn sra(&mut self, value: u8) -> (r: u8)
        ensures
            r == alu_sra(value).0,
            final(self)@ == old(self)@.with_flags(alu_sra(value).1),
    {
        proof {
            reveal(alu_sra);
        }
        let bit7 = value & 0x80;
        let new_carry = value & 0x1;
        proof { lemma_sra(value); lemma_shift_right_one(value, 0); }
        let new_v = (value >> 1) | bit7;
        self.registers.f.zero = new_v == 0;
        self.registers.f.subtract = false;
        self.registers.f.carry = new_carry != 0;
        self.registers.f.half_carry = false;
        new_v
    }

    /// Shifts left, bit 7 to the carry.
    pub fn sla(&mut self, value: u8) -> (r: u8)
        ensures
            r == alu_sla(value).0,
            final(self)@ == old(self)@.with_flags(alu_sla(value).1),
    {
        proof {
            reveal(alu_sla);
        }
        let new_carry = value & 0x80;
        let new_v = value << 1;
        proof {
            lemma_shift_left_one(value, 0);
            lemma_shift_right_one(value, 0);
        }
        self.registers.f.zero = new_v == 0;
        self.registers.f.subtract = false;
        self.registers.f.carry = new_carry != 0;
        self.registers.f.half_carry = false;
        new_v
    }

    /// Exchanges the two nibbles.
    pub fn swap(&mut self, value: u8) -> (r: u8)
        ensures
            r == alu_swap(value).0,
            final(self)@ == old(self)@.with_flags(alu_swap(value).1),
    {
        proof {
            reveal(alu_swap);
        }
        let high = value >> 4;
        let low = value & 0x0F;
        proof { lemma_swap_nibbles(value); }
        let new_v = (low << 4) | high;
        self.registers.f.zero = new_v == 0;
        self.registers.f.subtract = false;
        self.registers.f.carry = false;
        self.registers.f.half_carry = false;
        new_v
    }

    /// Whether the jump condition `test` holds for the current flags.
    pub fn test_jump(&self, test: JumpTest) -> (b: bool)
        ensures
            b == jump_condition(self.registers.f, test),
    {
        match test {
            JumpTest::NotZero => !self.registers.f.zero,
            JumpTest::NotCarry => !self.registers.f.carry,
            JumpTest::Zero => self.registers.f.zero,
            JumpTest::Carry => self.registers.f.carry,
            JumpTest::Always => true,
        }
    }

    /// The operand of an 8-bit ALU instruction and the address of the
    /// instruction after it (`D8` consumes the byte after the opcode).
    pub fn fetch_operand(&self, target: ArithmeticTarget) -> (r: (u8, u16))
        requires
            target == ArithmeticTarget::D8 ==> self.pc + 1 <= 0xFFFF,
        ensures
            r == alu_operand(self@, target),
    {
        let mut next_pc = self.pc.wrapping_add(1);
        let v = match target {
            ArithmeticTarget::D8 => {
                next_pc = next_pc.wrapping_add(1);
                self.bus.read_byte(self.pc + 1)
            },
            _ => self.registers.value(&target, &self.bus),
        };
        (v, next_pc)
    }

    /// Reads the source of an 8-bit load (`HLINC`/`HLDEC` then move HL).
    pub fn load_source(&mut self, source: Reg8Source) -> (v: u8)
        requires
            source == Reg8Source::D8 ==> old(self).pc + 1 <= 0xFFFF,
        ensures
            v == load_source_spec(old(self)@, source).0,
            final(self)@ == load_source_spec(old(self)@, source).1,
    {
        match source {
            Reg8Source::A => self.registers.a,
            Reg8Source::B => self.registers.b,
            Reg8Source::C => self.registers.c,
            Reg8Source::D => self.registers.d,
            Reg8Source::E => self.registers.e,
            Reg8Source::H => self.registers.h,
            Reg8Source::L => self.registers.l,
            Reg8Source::BCI => self.bus.read_byte(self.registers.get_bc()),
            Reg8Source::DEI => self.bus.read_byte(self.registers.get_de()),
            Reg8Source::HLI => self.bus.read_byte(self.registers.get_hl()),
            Reg8Source::D8 => self.bus.read_byte(self.pc + 1),
            Reg8Source::HLINC => {
                let v = self.bus.read_byte(self.registers.get_hl());
                let hl = self.registers.get_hl();
                self.registers.set_hl(hl.wrapping_add(1));
                v
            },
            Reg8Source::HLDEC => {
                let v = self.bus.read_byte(self.registers.get_hl());
                let hl = self.registers.get_hl();
                self.registers.set_hl(hl.wrapping_sub(1));
                v
            },
        }
    }

    /// Stores the value of an 8-bit load (`HLINC`/`HLDEC` then move HL).
    pub fn load_target(&mut self, target: Reg8Target, source_v: u8)
        ensures
            final(self)@ == load_target_spec(old(self)@, target, source_v),
    {
        match target {
            Reg8Target::A => self.registers.a = source_v,
            Reg8Target::B => self.registers.b = source_v,
            Reg8Target::C => self.registers.c = source_v,
            Reg8Target::D => self.registers.d = source_v,
            Reg8Target::E => self.registers.e = source_v,
            Reg8Target::H => self.registers.h = source_v,
            Reg8Target::L => self.registers.l = source_v,
            Reg8Target::BCI => self.bus.write_byte(self.registers.get_bc(), source_v),
            Reg8Target::DEI => self.bus.write_byte(self.registers.get_de(), source_v),
            Reg8Target::HLI => self.bus.write_byte(self.registers.get_hl(), source_v),
            Reg8Target::HLINC => {
                self.bus.write_byte(self.registers.get_hl(), source_v);
                let hl = self.registers.get_hl();
                self.registers.set_hl(hl.wrapping_add(1));
            },
            Reg8Target::HLDEC => {
                self.bus.write_byte(self.registers.get_hl(), source_v);
                let hl = self.registers.get_hl();
                self.registers.set_hl(hl.wrapping_sub(1));
            },
        }
    }

    /// Executes a load and returns the address of the next instruction.
    pub fn load(&mut self, load_type: LoadType) -> (next_pc: u16)
        requires
            can_execute(old(self)@, Instruction::LD(load_type)),
        ensures
            final(self)@ == load_spec(old(self)@, load_type).0,
            next_pc == load_spec(old(self)@, load_type).1,
    {
        match load_type {
            LoadType::Byte(target, source) => {
                let mut next_pc = self.pc.wrapping_add(1);
                if source == Reg8Source::D8 {
                    // an extra byte is consumed
                    next_pc = next_pc.wrapping_add(1);
                }
                let source_v = self.load_source(source);
                self.load_target(target, source_v);
                next_pc
            },
            LoadType::Word(target, source) => {
                let source_v = match source {
                    Reg16Source::D16 => {
                        let least = self.bus.read_byte(self.pc + 1);
                        let most = self.bus.read_byte(self.pc + 2);
                        join_word(most, least)
                    },
                };
                self.registers.set_16(&target, source_v, &mut self.sp);
                self.pc.wrapping_add(3)
            },
            LoadType::IndirectFromSP => {
                let least = self.bus.read_byte(self.pc + 1);
                let most = self.bus.read_byte(self.pc + 2);
                let addr = join_word(most, least);
                let (hi, lo) = split_word(self.sp);
                self.bus.write_byte(addr, lo);
                self.bus.write_byte(addr + 1, hi);
                self.pc.wrapping_add(3)
            },
        }
    }

    /// Decimal-adjusts A after a BCD addition or subtraction.
    pub fn daa(&mut self)
        ensures
            final(self)@ == old(self)@.with_a_flags(alu_daa(old(self).registers.a, old(self).registers.f)),
    {
        proof {
            reveal(alu_daa);
        }
        let mut adjustment: u8 = 0;
        if self.registers.f.subtract {
            if self.registers.f.half_carry {
                adjustment += 0x06;
            }
            if self.registers.f.carry {
                adjustment += 0x60;
            }
            self.registers.a = self.registers.a.wrapping_sub(adjustment);
        } else {
            if self.registers.f.half_carry || (self.registers.a & 0x0F) > 0x09 {
                adjustment += 0x06;
            }
            if self.registers.f.carry || self.registers.a > 0x99 {
                adjustment += 0x60;
                self.registers.f.carry = true;
            }
            proof { lemma_nibble(old(self).registers.a); }
            self.registers.a = self.registers.a.wrapping_add(adjustment);
        }
        self.registers.f.zero = self.registers.a == 0;
        self.registers.f.half_carry = false;
    }

    /// Executes a control instruction (NOP, STOP, HALT, PUSH, POP, JP, JR).
    pub fn execute_control(&mut self, instruction: Instruction) -> (next_pc: u16)
        requires
            can_execute(old(self)@, instruction),
        ensures
            final(self)@ == control_spec(old(self)@, instruction).0,
            next_pc == control_spec(old(self)@, instruction).1,
    {
        let mut next_pc = self.pc.wrapping_add(1);
        proof { lemma_wrap16_add(self.pc + 1, 1); }
        match instruction {
            Instruction::NOP => next_pc,
            Instruction::STOP => {
                // Low power mode and speed switch are not modelled: a two-byte NOP.
                next_pc = next_pc.wrapping_add(1);
                next_pc
            },
            Instruction::HALT => {
                // Low power mode until an interrupt is not modelled: a NOP.
                next_pc
            },
            Instruction::PUSH(target) => {
                // AF is outside `can_execute`.
                let v = match target {
                    StackTarget::BC => self.registers.get_bc(),
                    StackTarget::DE => self.registers.get_de(),
                    _ => self.registers.get_hl(),
                };
                self.push(v);
                next_pc
            },
            Instruction::POP(_) => {
                // Only BC is within `can_execute`.
                let v = self.pop();
                self.registers.set_bc(v);
                next_pc
            },
            Instruction::JP(test) => {
                let jump_condition = self.test_jump(test);
                self.jump(jump_condition)
            },
            Instruction::JR(test) => {
                let should_jump = self.test_jump(test);
                // the offset byte
                next_pc = next_pc.wrapping_add(1);
                if should_jump {
                    let offset = self.bus.read_byte(self.pc + 1);
                    proof { lemma_wrap16_add(self.pc + 2, signed8(offset)); }
                    relative_target(next_pc, offset)
                } else {
                    next_pc
                }
            },
            _ => next_pc,
        }
    }

    /// Executes an instruction that combines A with an 8-bit operand.
    pub fn execute_accumulator_alu(&mut self, instruction: Instruction) -> (next_pc: u16)
        requires
            can_execute(old(self)@, instruction),
        ensures
            final(self)@ == accumulator_alu_spec(old(self)@, instruction).0,
            next_pc == accumulator_alu_spec(old(self)@, instruction).1,
    {
        match instruction {
            Instruction::ADD(target) => {
                let (v, next_pc) = self.fetch_operand(target);
                self.registers.a = self.add(v);
                next_pc
            },
            Instruction::ADDC(target) => {
                let (v, next_pc) = self.fetch_operand(target);
                self.registers.a = self.add_carry(v);
                next_pc
            },
            Instruction::SUB(target) => {
                let (v, next_pc) = self.fetch_operand(target);
                self.registers.a = self.subtract(v);
                next_pc
            },
            Instruction::SUBC(target) => {
                let (v, next_pc) = self.fetch_operand(target);
                self.registers.a = self.subtract_carry(v);
                next_pc
            },
            Instruction::AND(target) => {
                let (v, next_pc) = self.fetch_operand(target);
                self.and(v);
                next_pc
            },
            Instruction::OR(target) => {
                let (v, next_pc) = self.fetch_operand(target);
                self.or(v);
                next_pc
            },
            Instruction::XOR(target) => {
                let (v, next_pc) = self.fetch_operand(target);
                self.xor(v);
                next_pc
            },
            Instruction::CMP(target) => {
                let (v, next_pc) = self.fetch_operand(target);
                self.cmp(v);
                next_pc
            },
            _ => self.pc.wrapping_add(1),
        }
    }

    /// Executes an instruction on a 16-bit register.
    pub fn execute_word_alu(&mut self, instruction: Instruction) -> (next_pc: u16)
        ensures
            final(self)@ == word_alu_spec(old(self)@, instruction).0,
            next_pc == word_alu_spec(old(self)@, instruction).1,
    {
        let next_pc = self.pc.wrapping_add(1);
        match instruction {
            Instruction::ADD16(target) => {
                let v = self.registers.value_16(&target, self.sp);
                // always added to HL
                self.add_16(v);
                next_pc
            },
            Instruction::INC16(target) => {
                let v = self.registers.value_16(&target, self.sp);
                let new_v = v.wrapping_add(1);
                self.registers.set_16(&target, new_v, &mut self.sp);
                next_pc
            },
            Instruction::DEC16(target) => {
                let v = self.registers.value_16(&target, self.sp);
                let new_v = v.wrapping_sub(1);
                self.registers.set_16(&target, new_v, &mut self.sp);
                next_pc
            },
            _ => next_pc,
        }
    }

    /// Executes an instruction on A and the flags alone.
    pub fn execute_accumulator_flags(&mut self, instruction: Instruction)
        ensures
            final(self)@ == accumulator_flags_spec(old(self)@, instruction),
    {
        match instruction {
            Instruction::CCF => {
                self.registers.f.carry = !self.registers.f.carry;
                self.registers.f.subtract = false;
                self.registers.f.half_carry = false;
            },
            Instruction::SCF => {
                self.registers.f.carry = true;
                self.registers.f.subtract = false;
                self.registers.f.half_carry = false;
            },
            Instruction::RRA => {
                self.rra();
            },
            Instruction::RLA => {
                self.rla();
            },
            Instruction::RRCA => {
                self.rrca();
            },
            Instruction::RLCA => {
                self.rlca();
            },
            Instruction::CPL => {
                self.cpl();
            },
            Instruction::DAA => {
                self.daa();
            },
            _ => {},
        }
    }

    /// Writes `v` to an 8-bit operand: a register, or memory at HL.
    pub fn write_target(&mut self, target: ArithmeticTarget, v: u8)
        requires
            is_register_or_hl(target),
        ensures
            final(self)@ == write_operand(old(self)@, target, v),
    {
        proof { reveal(write_operand); }
        self.registers.set(&target, v, &mut self.bus);
    }

    /// Executes a read-modify-write instruction on an 8-bit operand.
    pub fn execute_operand_rmw(&mut self, instruction: Instruction)
        requires
            can_execute(old(self)@, instruction),
        ensures
            final(self)@ == operand_rmw_spec(old(self)@, instruction),
    {
        match instruction {
            Instruction::INC(target) => {
                let v = self.registers.value(&target, &self.bus);
                let new_v = self.inc(v);
                self.write_target(target, new_v);
            },
            Instruction::DEC(target) => {
                let v = self.registers.value(&target, &self.bus);
                let new_v = self.dec(v);
                self.write_target(target, new_v);
            },
            Instruction::BIT(idx, target) => {
                let v = self.registers.value(&target, &self.bus);
                self.bit(idx, v);
            },
            Instruction::RESET(idx, target) => {
                let v = self.registers.value(&target, &self.bus);
                let new_v = self.reset(idx, v);
                self.write_target(target, new_v);
            },
            Instruction::SET(idx, target) => {
                let v = self.registers.value(&target, &self.bus);
                let new_v = self.set(idx, v);
                self.write_target(target, new_v);
            },
            Instruction::SRL(target) => {
                let v = self.registers.value(&target, &self.bus);
                let new_v = self.srl(v);
                self.write_target(target, new_v);
            },
            Instruction::RR(target) => {
                let v = self.registers.value(&target, &self.bus);
                let new_v = self.rr(v);
                self.write_target(target, new_v);
            },
            Instruction::RL(target) => {
                let v = self.registers.value(&target, &self.bus);
                let new_v = self.rl(v);
                self.write_target(target, new_v);
            },
            Instruction::RRC(target) => {
                let v = self.registers.value(&target, &self.bus);
                let new_v = self.rrc(v);
                self.write_target(target, new_v);
            },
            Instruction::RLC(target) => {
                let v = self.registers.value(&target, &self.bus);
                let new_v = self.rlc(v);
                self.write_target(target, new_v);
            },
            Instruction::SRA(target) => {
                let v = self.registers.value(&target, &self.bus);
                let new_v = self.sra(v);
                self.write_target(target, new_v);
            },
            Instruction::SLA(target) => {
                let v = self.registers.value(&target, &self.bus);
                let new_v = self.sla(v);
                self.write_target(target, new_v);
            },
            Instruction::SWAP(target) => {
                let v = self.registers.value(&target, &self.bus);
                let new_v = self.swap(v);
                self.write_target(target, new_v);
            },
            _ => {},
        }
    }

    /// Executes `instruction` and returns the address of the next one; the
    /// program counter itself is left for the caller to move.
    pub fn execute(&mut self, instruction: Instruction) -> (next_pc: u16)
        requires
            can_execute(old(self)@, instruction),
        ensures
            final(self)@ == execute_spec(old(self)@, instruction).0,
            next_pc == execute_spec(old(self)@, instruction).1,
    {
        proof { reveal(execute_spec); }
        let next_pc = self.pc.wrapping_add(1);
        match instruction {
            Instruction::NOP | Instruction::STOP | Instruction::HALT | Instruction::PUSH(_)
            | Instruction::POP(_) | Instruction::JP(_) | Instruction::JR(_) => self.execute_control(instruction),
            Instruction::LD(load_type) => self.load(load_type),
            Instruction::ADD(_) | Instruction::ADDC(_) | Instruction::SUB(_) | Instruction::SUBC(_)
            | Instruction::AND(_) | Instruction::OR(_) | Instruction::XOR(_) | Instruction::CMP(_) =>
                self.execute_accumulator_alu(instruction),
            Instruction::ADD16(_) | Instruction::INC16(_) | Instruction::DEC16(_) => self.execute_word_alu(instruction),
            Instruction::CCF | Instruction::SCF | Instruction::RRA | Instruction::RLA | Instruction::RRCA
            | Instruction::RLCA | Instruction::CPL | Instruction::DAA => {
                self.execute_accumulator_flags(instruction);
                next_pc
            },
            Instruction::INC(_) | Instruction::DEC(_) | Instruction::BIT(..) | Instruction::RESET(..)
            | Instruction::SET(..) | Instruction::SRL(_) | Instruction::RR(_) | Instruction::RL(_)
            | Instruction::RRC(_) | Instruction::RLC(_) | Instruction::SRA(_) | Instruction::SLA(_)
            | Instruction::SWAP(_) => {
                self.execute_operand_rmw(instruction);
                next_pc
            },
            // the remaining instructions are not implemented yet and only advance PC
            _ => next_pc,
        }
    }

    /// A 16-bit load that does nothing yet.
    pub fn ld16(&mut self, value: u16)
        ensures
            final(self)@ == old(self)@,
    {
    }
}

/// A pop right after a push gives back the pushed word and puts SP back;
/// registers and PC are untouched and memory changes only at the two bytes
/// below the old SP.
pub proof fn law_push_pop(s: CpuState, v: u16)
    requires
        s.memory.len() == MEMORY_SIZE,
    ensures
        stack_top(push_spec(s, v)) == v,
        pop_spec(push_spec(s, v)).sp == s.sp,
        pop_spec(push_spec(s, v)).registers == s.registers,
        pop_spec(push_spec(s, v)).pc == s.pc,
        forall|a: int|
            0 <= a < MEMORY_SIZE && a != wrap16(s.sp - 1) && a != wrap16(s.sp - 2)
                ==> #[trigger] pop_spec(push_spec(s, v)).memory[a] == s.memory[a],
{
    reveal(wrap16);
    crate::cpu::registers::law_word_bytes(v);
}

/// CP leaves A as it is and sets the flags that SUB with the same operand
/// sets; both move on to the same next instruction.
pub proof fn law_cmp_is_flags_of_sub(s: CpuState, t: ArithmeticTarget)
    ensures
        execute_spec(s, Instruction::CMP(t)).0.registers.a == s.registers.a,
        execute_spec(s, Instruction::CMP(t)).0.registers.f == execute_spec(s, Instruction::SUB(t)).0.registers.f,
        execute_spec(s, Instruction::CMP(t)).1 == execute_spec(s, Instruction::SUB(t)).1,
        execute_spec(s, Instruction::CMP(t)).0.memory == s.memory,
{
    reveal(execute_spec);
}

/// Executing an instruction never moves PC itself (the caller moves it to
/// the returned address) and keeps memory the size of the address space.
pub proof fn law_execute_frame(s: CpuState, ins: Instruction)
    requires
        s.memory.len() == MEMORY_SIZE,
        can_execute(s, ins),
    ensures
        execute_spec(s, ins).0.pc == s.pc,
        execute_spec(s, ins).0.memory.len() == MEMORY_SIZE,
{
    reveal(execute_spec);
    reveal(write_operand);
}

/// A step leaves PC at the address of the next instruction that executing
/// the fetched instruction reports, and keeps memory the size of the
/// address space.
pub proof fn law_step_frame(s: CpuState)
    requires
        s.memory.len() == MEMORY_SIZE,
        can_step(s),
    ensures
        step_spec(s).pc == execute_spec(fetch(s).2, decode(fetch(s).0, fetch(s).1)).1,
        step_spec(s).memory.len() == MEMORY_SIZE,
{
    law_execute_frame(fetch(s).2, decode(fetch(s).0, fetch(s).1));
}

/// The state after INC16, from which DEC16 leads back to `s`.
#[verifier::spinoff_prover]
proof fn lemma_inc16_dec16(s: CpuState, t: Reg16Target) -> (s1: CpuState)
    ensures
        execute_spec(s, Instruction::INC16(t)).0 == s1,
        execute_spec(s1, Instruction::DEC16(t)).0 == s,
{
    let r = s.registers;
    let v = operand16(r, s.sp, t);
    let up = wrap16(v + 1);
    reveal(execute_spec);
    lemma_wrap16_add(v + 1, -1);
    assert(wrap16(v as int) == v) by {
        reveal(wrap16);
    }
    let s1 = write_operand16(s, t, up);
    assert(execute_spec(s, Instruction::INC16(t)).0 == s1);
    crate::cpu::registers::law_operand16_write_read(r, s.sp, t, up);
    assert(operand16(s1.registers, s1.sp, t) == up);
    assert(wrap16(up - 1) == v);
    let s2 = write_operand16(s1, t, v);
    assert(execute_spec(s1, Instruction::DEC16(t)).0 == s2);
    crate::cpu::registers::law_bytes_word(r.b, r.c);
    crate::cpu::registers::law_bytes_word(r.d, r.e);
    crate::cpu::registers::law_bytes_word(r.h, r.l);
    match t {
        Reg16Target::BC => assert(s2.registers == r),
        Reg16Target::DE => assert(s2.registers == r),
        Reg16Target::HL => assert(s2.registers == r),
        Reg16Target::SP => assert(s2.sp == s.sp),
    }
    assert(s2.registers == r && s2.sp == s.sp && s2.memory == s.memory && s2.pc == s.pc);
    assert(s2 == s);
    s1
}

/// Incrementing a 16-bit register and then decrementing it gives the
/// original state back.
pub proof fn law_inc16_dec16(s: CpuState, t: Reg16Target)
    ensures
        execute_spec(execute_spec(s, Instruction::INC16(t)).0, Instruction::DEC16(t)).0 == s,
{
    let s1 = lemma_inc16_dec16(s, t);
}

/// A return right after a taken call comes back to the instruction after
/// the three-byte call and puts SP back, for every PC and SP.
pub proof fn law_call_return(s: CpuState)
    requires
        s.memory.len() == MEMORY_SIZE,
    ensures
        stack_top(push_spec(s, wrap16(s.pc + 3))) == wrap16(s.pc + 3),
        pop_spec(push_spec(s, wrap16(s.pc + 3))).sp == s.sp,
{
    law_push_pop(s, wrap16(s.pc + 3));
}

/// The jump conditions: Z and C test the zero and carry flags, NZ and NC
/// are their negations and each depends only on its own flag, and the
/// unconditional test always holds.
pub proof fn law_jump_conditions(f: FlagsRegister)
    ensures
        jump_condition(f, JumpTest::Zero) == f.zero,
        jump_condition(f, JumpTest::Carry) == f.carry,
        jump_condition(f, JumpTest::NotZero) == !jump_condition(f, JumpTest::Zero),
        jump_condition(f, JumpTest::NotCarry) == !jump_condition(f, JumpTest::Carry),
        jump_condition(f, JumpTest::NotCarry) == jump_condition(FlagsRegister { zero: !f.zero, ..f }, JumpTest::NotCarry),
        jump_condition(f, JumpTest::Carry) == jump_condition(FlagsRegister { zero: !f.zero, ..f }, JumpTest::Carry),
        jump_condition(f, JumpTest::NotZero) == jump_condition(FlagsRegister { carry: !f.carry, ..f }, JumpTest::NotZero),
        jump_condition(f, JumpTest::Zero) == jump_condition(FlagsRegister { carry: !f.carry, ..f }, JumpTest::Zero),
        jump_condition(f, JumpTest::Always),
{
}

/// A taken jump and a jump not taken differ: JP goes to the word after the
/// opcode or past the instruction, JR moves by the signed offset from the
/// end of the instruction or just past it.
pub proof fn law_jumps(s: CpuState, t: JumpTest)
    ensures
        execute_spec(s, Instruction::JP(t)).1 == if jump_condition(s.registers.f, t) { s.imm16() } else { wrap16(s.pc + 3) },
        execute_spec(s, Instruction::JR(t)).1 == wrap16(s.pc + 2 + if jump_condition(s.registers.f, t) { signed8(s.imm8()) } else { 0 }),
        execute_spec(s, Instruction::JP(t)).0 == s,
        execute_spec(s, Instruction::JR(t)).0 == s,
{
    reveal(execute_spec);
}

/// Storing through HL+ or HL- writes the byte at the old HL and moves HL up
/// or down by one, modulo 65536, leaving the other registers; reading
/// through HL+ or HL- moves HL the same way. So a store through HL- and a
/// read through HL+ (or HL+ and then HL-) undo each other's move of HL.
#[verifier::spinoff_prover]
pub proof fn law_hl_increment_loads(s: CpuState, v: u8)
    requires
        s.memory.len() == MEMORY_SIZE,
    ensures
        load_target_spec(s, Reg8Target::HLDEC, v).registers.hl() == wrap16(s.registers.hl() - 1),
        load_target_spec(s, Reg8Target::HLINC, v).registers.hl() == wrap16(s.registers.hl() + 1),
        load_source_spec(s, Reg8Source::HLDEC).1.registers.hl() == wrap16(s.registers.hl() - 1),
        load_source_spec(s, Reg8Source::HLINC).1.registers.hl() == wrap16(s.registers.hl() + 1),
        load_target_spec(s, Reg8Target::HLDEC, v).memory[s.registers.hl() as int] == v,
        load_target_spec(s, Reg8Target::HLINC, v).memory[s.registers.hl() as int] == v,
        load_target_spec(s, Reg8Target::HLDEC, v).registers.a == s.registers.a,
        load_target_spec(s, Reg8Target::HLDEC, v).registers.bc() == s.registers.bc(),
        load_target_spec(s, Reg8Target::HLDEC, v).registers.de() == s.registers.de(),
        load_target_spec(s, Reg8Target::HLDEC, v).registers.f == s.registers.f,
        ({
            let s1 = load_target_spec(s, Reg8Target::HLDEC, v);
            let s2 = load_source_spec(s1, Reg8Source::HLINC);
            s2.1.registers.hl() == s.registers.hl()
        }),
        ({
            let s1 = load_target_spec(s, Reg8Target::HLINC, v);
            let s2 = load_source_spec(s1, Reg8Source::HLDEC);
            s2.1.registers.hl() == s.registers.hl()
        }),
{
    let r = s.registers;
    let hl = r.hl();
    crate::cpu::registers::law_pair_set_get(r, wrap16(hl - 1));
    crate::cpu::registers::law_pair_set_get(r, wrap16(hl + 1));
    let down = r.with_hl(wrap16(hl - 1));
    let up = r.with_hl(wrap16(hl + 1));
    crate::cpu::registers::law_pair_set_get(down, wrap16(wrap16(hl - 1) + 1));
    crate::cpu::registers::law_pair_set_get(up, wrap16(wrap16(hl + 1) - 1));
    lemma_wrap16_add(hl - 1, 1);
    lemma_wrap16_add(hl + 1, -1);
    assert(wrap16(hl as int) == hl) by {
        reveal(wrap16);
    }
    assert(wrap16(hl - 1) == if hl == 0 { 0xFFFFint } else { hl - 1 }) by {
        reveal(wrap16);
    }
    assert(wrap16(hl + 1) == if hl == 0xFFFF { 0int } else { hl + 1 }) by {
        reveal(wrap16);
    }
}

/// SCF sets the carry, CCF flips it; both clear subtract and half-carry and
/// keep zero and A. So CCF twice gives the carry back, and CCF after SCF
/// clears it.
pub proof fn law_carry_flag_instructions(s: CpuState)
    ensures
        execute_spec(s, Instruction::SCF).0.registers.f.carry,
        execute_spec(s, Instruction::CCF).0.registers.f.carry == !s.registers.f.carry,
        execute_spec(execute_spec(s, Instruction::CCF).0, Instruction::CCF).0.registers.f.carry == s.registers.f.carry,
        !execute_spec(execute_spec(s, Instruction::SCF).0, Instruction::CCF).0.registers.f.carry,
        !execute_spec(s, Instruction::SCF).0.registers.f.subtract && !execute_spec(s, Instruction::SCF).0.registers.f.half_carry,
        !execute_spec(s, Instruction::CCF).0.registers.f.subtract && !execute_spec(s, Instruction::CCF).0.registers.f.half_carry,
        execute_spec(s, Instruction::SCF).0.registers.f.zero == s.registers.f.zero,
        execute_spec(s, Instruction::CCF).0.registers.f.zero == s.registers.f.zero,
        execute_spec(s, Instruction::SCF).0.registers.a == s.registers.a,
        execute_spec(s, Instruction::CCF).0.registers.a == s.registers.a,
{
    reveal(execute_spec);
}

/// The stack holds words low byte first: a push puts the high byte at
/// SP - 1 and the low byte at SP - 2 (modulo 65536) and moves SP down by two;
/// the top of the stack is the byte at SP plus 256 times the byte above it.
pub proof fn law_stack_layout(s: CpuState, v: u16)
    requires
        s.memory.len() == MEMORY_SIZE,
    ensures
        push_spec(s, v).memory[wrap16(s.sp - 1) as int] == v / 256,
        push_spec(s, v).memory[wrap16(s.sp - 2) as int] == v % 256,
        push_spec(s, v).sp == wrap16(s.sp - 2),
        (push_spec(s, v).sp + 2) % 65536 == s.sp,
        stack_top(s) == s.memory[s.sp as int] + 256 * s.memory[wrap16(s.sp + 1) as int],
        pop_spec(s).sp == wrap16(s.sp + 2),
        pop_spec(s).memory == s.memory,
{
    reveal(wrap16);
}

/// LD (a16), SP stores SP low byte first at the address after the opcode;
/// LD rr, d16 loads the little-endian word after the opcode; both are three
/// bytes long.
pub proof fn law_word_loads(s: CpuState, t: Reg16Target)
    requires
        s.memory.len() == MEMORY_SIZE,
        s.pc + 2 <= 0xFFFF,
        s.imm16() + 1 <= 0xFFFF,
    ensures
        s.imm16() == s.memory[s.pc + 1] + 256 * s.memory[s.pc + 2],
        execute_spec(s, Instruction::LD(LoadType::IndirectFromSP)).0.memory[s.imm16() as int] == s.sp % 256,
        execute_spec(s, Instruction::LD(LoadType::IndirectFromSP)).0.memory[s.imm16() + 1] == s.sp / 256,
        execute_spec(s, Instruction::LD(LoadType::IndirectFromSP)).1 == (s.pc + 3) % 65536,
        ({
            let s1 = execute_spec(s, Instruction::LD(LoadType::Word(t, Reg16Source::D16))).0;
            operand16(s1.registers, s1.sp, t) == s.imm16()
        }),
        execute_spec(s, Instruction::LD(LoadType::Word(t, Reg16Source::D16))).1 == (s.pc + 3) % 65536,
{
    reveal(execute_spec);
    reveal(wrap16);
    crate::cpu::registers::law_operand16_write_read(s.registers, s.sp, t, s.imm16());
}

/// INC16 and DEC16 add and subtract one modulo 65536 from the register they
/// name and leave the flags alone.
#[verifier::spinoff_prover]
pub proof fn law_inc16_dec16_values(s: CpuState, t: Reg16Target)
    ensures
        ({
            let v = operand16(s.registers, s.sp, t);
            let up = execute_spec(s, Instruction::INC16(t)).0;
            let down = execute_spec(s, Instruction::DEC16(t)).0;
            &&& operand16(up.registers, up.sp, t) as int == (v + 1) % 65536
            &&& operand16(down.registers, down.sp, t) as int == (v + 65535) % 65536
            &&& up.registers.f == s.registers.f
            &&& down.registers.f == s.registers.f
        }),
{
    reveal(execute_spec);
    let v = operand16(s.registers, s.sp, t);
    crate::cpu::registers::law_operand16_write_read(s.registers, s.sp, t, wrap16(v + 1));
    crate::cpu::registers::law_operand16_write_read(s.registers, s.sp, t, wrap16(v - 1));
    assert(wrap16(v + 1) as int == (v + 1) % 65536) by {
        reveal(wrap16);
    }
    assert(wrap16(v - 1) as int == (v + 65535) % 65536) by {
        reveal(wrap16);
    }
    assert(execute_spec(s, Instruction::INC16(t)).0 == write_operand16(s, t, wrap16(v + 1)));
    assert(execute_spec(s, Instruction::DEC16(t)).0 == write_operand16(s, t, wrap16(v - 1)));
}

/// The 8-bit loads read the named register, or memory at BC, DE or HL, or
/// the byte after the opcode; a load into a register then reads back the
/// value from that register, and a load into memory through BC, DE or HL
/// stores it at that address.
pub proof fn law_byte_loads(s: CpuState, v: u8)
    requires
        s.memory.len() == MEMORY_SIZE,
    ensures
        load_source_spec(s, Reg8Source::A).0 == s.registers.a,
        load_source_spec(s, Reg8Source::B).0 == s.registers.b,
        load_source_spec(s, Reg8Source::C).0 == s.registers.c,
        load_source_spec(s, Reg8Source::D).0 == s.registers.d,
        load_source_spec(s, Reg8Source::E).0 == s.registers.e,
        load_source_spec(s, Reg8Source::H).0 == s.registers.h,
        load_source_spec(s, Reg8Source::L).0 == s.registers.l,
        load_source_spec(s, Reg8Source::BCI).0 == s.memory[s.registers.b * 256 + s.registers.c],
        load_source_spec(s, Reg8Source::DEI).0 == s.memory[s.registers.d * 256 + s.registers.e],
        load_source_spec(s, Reg8Source::HLI).0 == s.memory[s.registers.h * 256 + s.registers.l],
        load_source_spec(s, Reg8Source::HLINC).0 == s.memory[s.registers.h * 256 + s.registers.l],
        load_source_spec(s, Reg8Source::HLDEC).0 == s.memory[s.registers.h * 256 + s.registers.l],
        load_source_spec(s, Reg8Source::D8).0 == s.memory[s.pc + 1],
        load_target_spec(s, Reg8Target::A, v).registers.a == v,
        load_target_spec(s, Reg8Target::B, v).registers.b == v,
        load_target_spec(s, Reg8Target::C, v).registers.c == v,
        load_target_spec(s, Reg8Target::D, v).registers.d == v,
        load_target_spec(s, Reg8Target::E, v).registers.e == v,
        load_target_spec(s, Reg8Target::H, v).registers.h == v,
        load_target_spec(s, Reg8Target::L, v).registers.l == v,
        load_target_spec(s, Reg8Target::BCI, v).memory[s.registers.b * 256 + s.registers.c] == v,
        load_target_spec(s, Reg8Target::DEI, v).memory[s.registers.d * 256 + s.registers.e] == v,
        load_target_spec(s, Reg8Target::HLI, v).memory[s.registers.h * 256 + s.registers.l] == v,
        load_target_spec(s, Reg8Target::BCI, v).registers == s.registers,
        load_target_spec(s, Reg8Target::DEI, v).registers == s.registers,
        load_target_spec(s, Reg8Target::HLI, v).registers == s.registers,
{
}

/// An 8-bit ALU instruction is one byte long, or two when its operand is the
/// byte after the opcode, which it then uses.
pub proof fn law_alu_operand(s: CpuState, t: ArithmeticTarget)
    ensures
        alu_operand(s, t).1 == wrap16(s.pc + if t == ArithmeticTarget::D8 { 2int } else { 1 }),
        t == ArithmeticTarget::D8 ==> alu_operand(s, t).0 == s.memory[s.pc + 1],
        t == ArithmeticTarget::A ==> alu_operand(s, t).0 == s.registers.a,
        t == ArithmeticTarget::B ==> alu_operand(s, t).0 == s.registers.b,
        t == ArithmeticTarget::HL ==> alu_operand(s, t).0 == s.memory[s.registers.h * 256 + s.registers.l],
{
}

} // verus!
