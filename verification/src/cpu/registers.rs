use vstd::prelude::*;

use crate::cpu::instruction::{ArithmeticTarget, Reg16Target};
use crate::cpu::memory_bus::MemoryBus;

verus! {

/// Bit position of the zero flag inside the F register.
pub const ZERO_FLAG_BYTE_POS: u8 = 7;
/// Bit position of the subtract flag inside the F register.
pub const SUBTRACT_FLAG_BYTE_POS: u8 = 6;
/// Bit position of the half-carry flag inside the F register.
pub const HALF_CARRY_FLAG_BYTE_POS: u8 = 5;
/// Bit position of the carry flag inside the F register.
pub const CARRY_FLAG_BYTE_POS: u8 = 4;

/// The four flags of the F register.
#[derive(Debug, Clone, Copy, PartialEq, Eq, Structural)]
pub struct FlagsRegister {
    pub zero: bool,
    pub subtract: bool,
    pub half_carry: bool,
    pub carry: bool,
}

/// The byte that the flags are stored as: bits 7, 6, 5, 4 hold zero, subtract,
/// half-carry and carry; the low nibble is always zero.
pub open spec fn flags_byte(f: FlagsRegister) -> u8 {
    ((if f.zero { 128int } else { 0 }) + (if f.subtract { 64int } else { 0 })
        + (if f.half_carry { 32int } else { 0 }) + (if f.carry { 16int } else { 0 })) as u8
}

/// The flags that a byte decodes to: each flag is its bit; the low nibble is ignored.
pub open spec fn flags_of_byte(b: u8) -> FlagsRegister {
    FlagsRegister {
        zero: (b / 128) % 2 == 1,
        subtract: (b / 64) % 2 == 1,
        half_carry: (b / 32) % 2 == 1,
        carry: (b / 16) % 2 == 1,
    }
}

impl FlagsRegister {
    /// All flags cleared.
    pub fn new() -> (f: FlagsRegister)
        ensures
            f == (FlagsRegister { zero: false, subtract: false, half_carry: false, carry: false }),
    {
        FlagsRegister { zero: false, subtract: false, half_carry: false, carry: false }
    }
}

impl core::convert::From<FlagsRegister> for u8 {
    fn from(flag: FlagsRegister) -> (b: u8) {
        let z: u8 = if flag.zero { 1 } else { 0 };
        let s: u8 = if flag.subtract { 1 } else { 0 };
        let h: u8 = if flag.half_carry { 1 } else { 0 };
        let c: u8 = if flag.carry { 1 } else { 0 };
        let b = z << ZERO_FLAG_BYTE_POS | s << SUBTRACT_FLAG_BYTE_POS | h << HALF_CARRY_FLAG_BYTE_POS
            | c << CARRY_FLAG_BYTE_POS;
        assert(b == (z * 128 + s * 64 + h * 32 + c * 16) as u8) by (bit_vector)
            requires
                z <= 1, s <= 1, h <= 1, c <= 1,
                b == z << 7u8 | s << 6u8 | h << 5u8 | c << 4u8;
        b
    }
}

impl vstd::std_specs::convert::FromSpecImpl<FlagsRegister> for u8 {
    open spec fn obeys_from_spec() -> bool {
        true
    }

    open spec fn from_spec(v: FlagsRegister) -> u8 {
        flags_byte(v)
    }
}

impl core::convert::From<u8> for FlagsRegister {
    fn from(byte: u8) -> (f: FlagsRegister) {
        let zero = ((byte >> ZERO_FLAG_BYTE_POS) & 0b1) != 0;
        let subtract = ((byte >> SUBTRACT_FLAG_BYTE_POS) & 0b1) != 0;
        let half_carry = ((byte >> HALF_CARRY_FLAG_BYTE_POS) & 0b1) != 0;
        let carry = ((byte >> CARRY_FLAG_BYTE_POS) & 0b1) != 0;
        assert(zero == ((byte / 128) % 2 == 1)) by (bit_vector)
            requires zero == (((byte >> 7u8) & 1u8) != 0);
        assert(subtract == ((byte / 64) % 2 == 1)) by (bit_vector)
            requires subtract == (((byte >> 6u8) & 1u8) != 0);
        assert(half_carry == ((byte / 32) % 2 == 1)) by (bit_vector)
            requires half_carry == (((byte >> 5u8) & 1u8) != 0);
        assert(carry == ((byte / 16) % 2 == 1)) by (bit_vector)
            requires carry == (((byte >> 4u8) & 1u8) != 0);
        FlagsRegister { zero, subtract, half_carry, carry }
    }
}

impl vstd::std_specs::convert::FromSpecImpl<u8> for FlagsRegister {
    open spec fn obeys_from_spec() -> bool {
        true
    }

    open spec fn from_spec(v: u8) -> FlagsRegister {
        flags_of_byte(v)
    }
}

/// The 16-bit value whose high byte is `hi` and low byte is `lo`.
pub open spec fn word(hi: u8, lo: u8) -> u16 {
    (hi as int * 256 + lo as int) as u16
}

/// The high byte of a 16-bit value.
pub open spec fn high_byte(v: u16) -> u8 {
    (v as int / 256) as u8
}

/// The low byte of a 16-bit value.
pub open spec fn low_byte(v: u16) -> u8 {
    (v as int % 256) as u8
}

/// `(hi << 8) | lo` is `hi * 256 + lo`.
pub proof fn lemma_join_bytes(hi: u8, lo: u8, r: u16)
    requires
        r == ((hi as u16) << 8u16 | lo as u16),
    ensures
        r == word(hi, lo),
{
    assert(r == (hi as u16) * 256 + (lo as u16)) by (bit_vector)
        requires
            r == ((hi as u16) << 8u16 | lo as u16),
    ;
}

/// The two bytes extracted by masking and shifting are the high and low byte.
pub proof fn lemma_split_word(v: u16, hi: u8, lo: u8)
    requires
        hi == ((v & 0xFF00u16) >> 8u16) as u8,
        lo == (v & 0xFFu16) as u8,
    ensures
        hi == high_byte(v),
        lo == low_byte(v),
{
    assert(hi == v / 256 && lo == v % 256) by (bit_vector)
        requires
            hi == ((v & 0xFF00u16) >> 8u16) as u8,
            lo == (v & 0xFFu16) as u8,
    ;
}

/// `(hi << 8) | lo`.
pub fn join_word(hi: u8, lo: u8) -> (w: u16)
    ensures
        w == word(hi, lo),
{
    let w = (hi as u16) << 8 | lo as u16;
    proof { lemma_join_bytes(hi, lo, w); }
    w
}

/// The high and low byte of `v`.
pub fn split_word(v: u16) -> (r: (u8, u8))
    ensures
        r.0 == high_byte(v),
        r.1 == low_byte(v),
{
    let hi = ((v & 0xFF00) >> 8) as u8;
    let lo = (v & 0xFF) as u8;
    proof { lemma_split_word(v, hi, lo); }
    (hi, lo)
}

/// The eight-bit registers and the flags.
#[derive(Debug, Clone, Copy, PartialEq, Eq, Structural)]
pub struct Registers {
    pub a: u8,
    pub b: u8,
    pub c: u8,
    pub d: u8,
    pub e: u8,
    pub f: FlagsRegister,
    pub h: u8,
    pub l: u8,
}

/// Whether `t` names a byte the CPU can address without the instruction
/// stream (every target but `D8`).
pub open spec fn is_register_or_hl(t: ArithmeticTarget) -> bool {
    t != ArithmeticTarget::D8
}

/// The byte an operand names: a register, or memory at HL.
pub open spec fn operand(r: Registers, mem: Seq<u8>, t: ArithmeticTarget) -> u8
    recommends
        is_register_or_hl(t),
{
    match t {
        ArithmeticTarget::A => r.a,
        ArithmeticTarget::B => r.b,
        ArithmeticTarget::C => r.c,
        ArithmeticTarget::D => r.d,
        ArithmeticTarget::E => r.e,
        ArithmeticTarget::H => r.h,
        ArithmeticTarget::L => r.l,
        _ => mem[r.hl() as int],
    }
}

/// The registers after writing `v` to the register `t` names (unchanged for
/// the memory operand).
pub open spec fn registers_after_write(r: Registers, t: ArithmeticTarget, v: u8) -> Registers {
    match t {
        ArithmeticTarget::A => Registers { a: v, ..r },
        ArithmeticTarget::B => Registers { b: v, ..r },
        ArithmeticTarget::C => Registers { c: v, ..r },
        ArithmeticTarget::D => Registers { d: v, ..r },
        ArithmeticTarget::E => Registers { e: v, ..r },
        ArithmeticTarget::H => Registers { h: v, ..r },
        ArithmeticTarget::L => Registers { l: v, ..r },
        _ => r,
    }
}

/// The memory after writing `v` to the operand `t` (changed only for the
/// memory operand, at HL).
pub open spec fn memory_after_write(r: Registers, mem: Seq<u8>, t: ArithmeticTarget, v: u8) -> Seq<u8> {
    match t {
        ArithmeticTarget::HL => mem.update(r.hl() as int, v),
        _ => mem,
    }
}

/// The value of a 16-bit operand.
pub open spec fn operand16(r: Registers, sp: u16, t: Reg16Target) -> u16 {
    match t {
        Reg16Target::BC => r.bc(),
        Reg16Target::DE => r.de(),
        Reg16Target::HL => r.hl(),
        Reg16Target::SP => sp,
    }
}

/// The registers after writing `v` to a 16-bit operand (unchanged for SP).
pub open spec fn registers_after_write16(r: Registers, t: Reg16Target, v: u16) -> Registers {
    match t {
        Reg16Target::BC => r.with_bc(v),
        Reg16Target::DE => r.with_de(v),
        Reg16Target::HL => r.with_hl(v),
        Reg16Target::SP => r,
    }
}

/// The stack pointer after writing `v` to a 16-bit operand.
pub open spec fn sp_after_write16(sp: u16, t: Reg16Target, v: u16) -> u16 {
    match t {
        Reg16Target::SP => v,
        _ => sp,
    }
}

impl Registers {
    pub open spec fn af(self) -> u16 {
        word(self.a, flags_byte(self.f))
    }

    pub open spec fn bc(self) -> u16 {
        word(self.b, self.c)
    }

    pub open spec fn de(self) -> u16 {
        word(self.d, self.e)
    }

    pub open spec fn hl(self) -> u16 {
        word(self.h, self.l)
    }

    pub open spec fn with_af(self, v: u16) -> Registers {
        Registers { a: high_byte(v), f: flags_of_byte(low_byte(v)), ..self }
    }

    pub open spec fn with_bc(self, v: u16) -> Registers {
        Registers { b: high_byte(v), c: low_byte(v), ..self }
    }

    pub open spec fn with_de(self, v: u16) -> Registers {
        Registers { d: high_byte(v), e: low_byte(v), ..self }
    }

    pub open spec fn with_hl(self, v: u16) -> Registers {
        Registers { h: high_byte(v), l: low_byte(v), ..self }
    }

    /// All registers zero and all flags cleared.
    pub fn new() -> (r: Registers)
        ensures
            r == (Registers {
                a: 0,
                b: 0,
                c: 0,
                d: 0,
                e: 0,
                f: FlagsRegister { zero: false, subtract: false, half_carry: false, carry: false },
                h: 0,
                l: 0,
            }),
    {
        Registers { a: 0, b: 0, c: 0, d: 0, e: 0, f: FlagsRegister::new(), h: 0, l: 0 }
    }

    /// The byte `target` names: a register, or the byte at HL on the bus.
    pub fn value(&self, target: &ArithmeticTarget, bus: &MemoryBus) -> (v: u8)
        requires
            is_register_or_hl(*target),
        ensures
            v == operand(*self, bus@, *target),
    {
        let v = match target {
            ArithmeticTarget::A => self.a,
            ArithmeticTarget::B => self.b,
            ArithmeticTarget::C => self.c,
            ArithmeticTarget::D => self.d,
            ArithmeticTarget::E => self.e,
            ArithmeticTarget::H => self.h,
            ArithmeticTarget::L => self.l,
            _ => bus.read_byte(self.get_hl()),
        };
        v
    }

    /// The value of a 16-bit register pair, or `sp` for SP.
    pub fn value_16(&self, target: &Reg16Target, sp: u16) -> (v: u16)
        ensures
            v == operand16(*self, sp, *target),
    {
        let v = match target {
            Reg16Target::BC => self.get_bc(),
            Reg16Target::DE => self.get_de(),
            Reg16Target::HL => self.get_hl(),
            Reg16Target::SP => sp,
        };
        v
    }

    /// Writes `value` to the register `target` names, or to the bus at HL.
    pub fn set(&mut self, target: &ArithmeticTarget, value: u8, bus: &mut MemoryBus)
        requires
            is_register_or_hl(*target),
        ensures
            *final(self) == registers_after_write(*old(self), *target, value),
            final(bus)@ == memory_after_write(*old(self), old(bus)@, *target, value),
    {
        match target {
            ArithmeticTarget::A => self.a = value,
            ArithmeticTarget::B => self.b = value,
            ArithmeticTarget::C => self.c = value,
            ArithmeticTarget::D => self.d = value,
            ArithmeticTarget::E => self.e = value,
            ArithmeticTarget::H => self.h = value,
            ArithmeticTarget::L => self.l = value,
            _ => bus.write_byte(self.get_hl(), value),
        }
    }

    /// Writes `v` to a register pair, or to `sp` for SP.
    pub fn set_16(&mut self, target: &Reg16Target, v: u16, sp: &mut u16)
        ensures
            *final(self) == registers_after_write16(*old(self), *target, v),
            *final(sp) == sp_after_write16(*old(sp), *target, v),
    {
        match target {
            Reg16Target::BC => self.set_bc(v),
            Reg16Target::DE => self.set_de(v),
            Reg16Target::HL => self.set_hl(v),
            Reg16Target::SP => *sp = v,
        }
    }

    /// A in the high byte, the flags byte in the low byte.
    pub fn get_af(&self) -> (v: u16)
        ensures
            v == self.af(),
    {
        let f = u8::from(self.f);
        let v = (self.a as u16) << 8 | f as u16;
        proof { lemma_join_bytes(self.a, f, v); }
        v
    }

    pub fn get_bc(&self) -> (v: u16)
        ensures
            v == self.bc(),
    {
        let v = (self.b as u16) << 8 | self.c as u16;
        proof { lemma_join_bytes(self.b, self.c, v); }
        v
    }

    pub fn get_de(&self) -> (v: u16)
        ensures
            v == self.de(),
    {
        let v = (self.d as u16) << 8 | self.e as u16;
        proof { lemma_join_bytes(self.d, self.e, v); }
        v
    }

    pub fn get_hl(&self) -> (v: u16)
        ensures
            v == self.hl(),
    {
        let v = (self.h as u16) << 8 | self.l as u16;
        proof { lemma_join_bytes(self.h, self.l, v); }
        v
    }

    /// Loads A from the high byte and the flags from the low byte; the low
    /// nibble of the low byte is dropped.
    pub fn set_af(&mut self, value: u16)
        ensures
            *final(self) == old(self).with_af(value),
    {
        let hi = ((value & 0xFF00) >> 8) as u8;
        let lo = (value & 0xFF) as u8;
        proof { lemma_split_word(value, hi, lo); }
        self.a = hi;
        self.f = FlagsRegister::from(lo);
    }

    pub fn set_bc(&mut self, value: u16)
        ensures
            *final(self) == old(self).with_bc(value),
    {
        let hi = ((value & 0xFF00) >> 8) as u8;
        let lo = (value & 0xFF) as u8;
        proof { lemma_split_word(value, hi, lo); }
        self.b = hi;
        self.c = lo;
    }

    pub fn set_de(&mut self, value: u16)
        ensures
            *final(self) == old(self).with_de(value),
    {
        let hi = ((value & 0xFF00) >> 8) as u8;
        let lo = (value & 0xFF) as u8;
        proof { lemma_split_word(value, hi, lo); }
        self.d = hi;
        self.e = lo;
    }

    pub fn set_hl(&mut self, value: u16)
        ensures
            *final(self) == old(self).with_hl(value),
    {
        let hi = ((value & 0xFF00) >> 8) as u8;
        let lo = (value & 0xFF) as u8;
        proof { lemma_split_word(value, hi, lo); }
        self.h = hi;
        self.l = lo;
    }
}

/// Encoding the flags as a byte and decoding that byte gives back the flags.
pub proof fn law_flags_byte_roundtrip(f: FlagsRegister)
    ensures
        flags_of_byte(flags_byte(f)) == f,
{
}

/// Decoding a byte into flags and encoding them again keeps the high nibble
/// and clears the low one.
pub proof fn law_byte_flags_roundtrip(b: u8)
    ensures
        flags_byte(flags_of_byte(b)) == (b / 16) * 16,
{
}

/// Splitting a word into its bytes and joining them gives the word back.
pub proof fn law_word_bytes(v: u16)
    ensures
        word(high_byte(v), low_byte(v)) == v,
{
}

/// Joining two bytes into a word and splitting it gives the bytes back.
pub proof fn law_bytes_word(hi: u8, lo: u8)
    ensures
        high_byte(word(hi, lo)) == hi,
        low_byte(word(hi, lo)) == lo,
{
}

/// Reading a register pair after setting it gives the value set; the other
/// registers keep their values. For AF the low nibble of F reads as zero.
pub proof fn law_pair_set_get(r: Registers, v: u16)
    ensures
        r.with_bc(v).bc() == v,
        r.with_de(v).de() == v,
        r.with_hl(v).hl() == v,
        r.with_af(v).af() == v - v % 16,
        r.with_bc(v).a == r.a && r.with_bc(v).f == r.f && r.with_bc(v).de() == r.de() && r.with_bc(v).hl() == r.hl(),
        r.with_de(v).a == r.a && r.with_de(v).f == r.f && r.with_de(v).bc() == r.bc() && r.with_de(v).hl() == r.hl(),
        r.with_hl(v).a == r.a && r.with_hl(v).f == r.f && r.with_hl(v).bc() == r.bc() && r.with_hl(v).de() == r.de(),
        r.with_af(v).bc() == r.bc() && r.with_af(v).de() == r.de() && r.with_af(v).hl() == r.hl(),
{
    law_byte_flags_roundtrip(low_byte(v));
}

/// Reading an 8-bit operand after writing it gives the value written.
pub proof fn law_operand_write_read(r: Registers, mem: Seq<u8>, t: ArithmeticTarget, v: u8)
    requires
        is_register_or_hl(t),
        mem.len() == crate::cpu::memory_bus::MEMORY_SIZE,
    ensures
        operand(registers_after_write(r, t, v), memory_after_write(r, mem, t, v), t) == v,
{
}

/// Reading a 16-bit operand after writing it gives the value written.
pub proof fn law_operand16_write_read(r: Registers, sp: u16, t: Reg16Target, v: u16)
    ensures
        operand16(registers_after_write16(r, t, v), sp_after_write16(sp, t, v), t) == v,
{
    law_pair_set_get(r, v);
}

/// The flags live in bits 7 (zero), 6 (subtract), 5 (half-carry) and 4
/// (carry) of F; its low nibble is zero.
pub proof fn law_flags_bit_positions(f: FlagsRegister)
    ensures
        ((flags_byte(f) / 128) % 2 == 1) == f.zero,
        ((flags_byte(f) / 64) % 2 == 1) == f.subtract,
        ((flags_byte(f) / 32) % 2 == 1) == f.half_carry,
        ((flags_byte(f) / 16) % 2 == 1) == f.carry,
        flags_byte(f) % 16 == 0,
{
}

/// The first-named register of a pair is its high byte: BC is B * 256 + C,
/// DE is D * 256 + E, HL is H * 256 + L, AF is A * 256 + the flags byte.
pub proof fn law_pair_layout(r: Registers)
    ensures
        r.bc() == r.b * 256 + r.c,
        r.de() == r.d * 256 + r.e,
        r.hl() == r.h * 256 + r.l,
        r.af() == r.a * 256 + flags_byte(r.f),
        forall|v: u16| #[trigger] r.with_bc(v).b == v / 256 && r.with_bc(v).c == v % 256,
        forall|v: u16| #[trigger] r.with_de(v).d == v / 256 && r.with_de(v).e == v % 256,
        forall|v: u16| #[trigger] r.with_hl(v).h == v / 256 && r.with_hl(v).l == v % 256,
{
}

/// Each 8-bit operand names its register, and HL the byte at address
/// H * 256 + L; writing an operand changes that register (or that byte) and
/// nothing else.
pub proof fn law_operand_names(r: Registers, mem: Seq<u8>, v: u8)
    requires
        mem.len() == crate::cpu::memory_bus::MEMORY_SIZE,
    ensures
        operand(r, mem, ArithmeticTarget::A) == r.a,
        operand(r, mem, ArithmeticTarget::B) == r.b,
        operand(r, mem, ArithmeticTarget::C) == r.c,
        operand(r, mem, ArithmeticTarget::D) == r.d,
        operand(r, mem, ArithmeticTarget::E) == r.e,
        operand(r, mem, ArithmeticTarget::H) == r.h,
        operand(r, mem, ArithmeticTarget::L) == r.l,
        operand(r, mem, ArithmeticTarget::HL) == mem[r.h * 256 + r.l],
        registers_after_write(r, ArithmeticTarget::A, v) == (Registers { a: v, ..r }),
        registers_after_write(r, ArithmeticTarget::B, v) == (Registers { b: v, ..r }),
        registers_after_write(r, ArithmeticTarget::C, v) == (Registers { c: v, ..r }),
        registers_after_write(r, ArithmeticTarget::D, v) == (Registers { d: v, ..r }),
        registers_after_write(r, ArithmeticTarget::E, v) == (Registers { e: v, ..r }),
        registers_after_write(r, ArithmeticTarget::H, v) == (Registers { h: v, ..r }),
        registers_after_write(r, ArithmeticTarget::L, v) == (Registers { l: v, ..r }),
        registers_after_write(r, ArithmeticTarget::HL, v) == r,
        memory_after_write(r, mem, ArithmeticTarget::HL, v) == mem.update(r.h * 256 + r.l, v),
        memory_after_write(r, mem, ArithmeticTarget::B, v) == mem,
        forall|sp: u16| #[trigger] operand16(r, sp, Reg16Target::BC) == r.b * 256 + r.c,
        forall|sp: u16| #[trigger] operand16(r, sp, Reg16Target::DE) == r.d * 256 + r.e,
        forall|sp: u16| #[trigger] operand16(r, sp, Reg16Target::HL) == r.h * 256 + r.l,
        forall|sp: u16| #[trigger] operand16(r, sp, Reg16Target::SP) == sp,
{
}

} // verus!
