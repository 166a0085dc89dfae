use vstd::prelude::*;

verus! {

/// Operand of the 8-bit arithmetic, logic, bit and shift instructions.
///
/// `HL` is the byte in memory at the address held in HL; `D8` is the byte
/// that follows the opcode.
#[derive(Debug, Clone, Copy, PartialEq, Eq, Structural)]
pub enum ArithmeticTarget {
    A,
    B,
    C,
    D,
    E,
    H,
    L,
    HL,
    D8,
}

/// Condition of a jump.
#[derive(Debug, Clone, Copy, PartialEq, Eq, Structural)]
pub enum JumpTest {
    NotZero,
    Zero,
    NotCarry,
    Carry,
    Always,
}

/// Register pair moved by PUSH and POP.
#[derive(Debug, Clone, Copy, PartialEq, Eq, Structural)]
pub enum StackTarget {
    BC,
    DE,
    HL,
    AF,
}

/// 16-bit register (pair) operand.
#[derive(Debug, Clone, Copy, PartialEq, Eq, Structural)]
pub enum Reg16Target {
    BC,
    DE,
    HL,
    SP,
}

/// Source of an 8-bit load.
///
/// `BCI`, `DEI`, `HLI` read memory at the address in that pair; `D8` is the
/// byte after the opcode; `HLINC` and `HLDEC` read memory at HL and then
/// increment or decrement HL.
#[derive(Debug, Clone, Copy, PartialEq, Eq, Structural)]
pub enum Reg8Source {
    A,
    B,
    C,
    D,
    E,
    H,
    L,
    BCI,
    DEI,
    HLI,
    D8,
    HLINC,
    HLDEC,
}

/// Destination of an 8-bit load; the indirect forms are as in [`Reg8Source`].
#[derive(Debug, Clone, Copy, PartialEq, Eq, Structural)]
pub enum Reg8Target {
    A,
    B,
    C,
    D,
    E,
    H,
    L,
    BCI,
    DEI,
    HLI,
    HLINC,
    HLDEC,
}

/// Source of a 16-bit load: the little-endian word after the opcode.
#[derive(Debug, Clone, Copy, PartialEq, Eq, Structural)]
pub enum Reg16Source {
    D16,
}

/// The kinds of load instruction.
#[derive(Debug, Clone, Copy, PartialEq, Eq, Structural)]
pub enum LoadType {
    Byte(Reg8Target, Reg8Source),
    Word(Reg16Target, Reg16Source),
    /// Stores SP at the address given by the word after the opcode.
    IndirectFromSP,
}

/// A decoded instruction.
#[derive(Debug, Clone, Copy, PartialEq, Eq, Structural)]
pub enum Instruction {
    NOP,
    STOP,
    HALT,
    PUSH(StackTarget),
    POP(StackTarget),
    JR(JumpTest),
    LD(LoadType),
    ADD16(Reg16Target),
    INC16(Reg16Target),
    DEC16(Reg16Target),
    DAA,
    ADD(ArithmeticTarget),
    ADDC(ArithmeticTarget),
    ADDHL,
    SUB(ArithmeticTarget),
    SUBC(ArithmeticTarget),
    SUBHL,
    AND(ArithmeticTarget),
    ANDHL,
    OR(ArithmeticTarget),
    ORHL,
    XOR(ArithmeticTarget),
    XORHL,
    CMP(ArithmeticTarget),
    CMPHL,
    INC(ArithmeticTarget),
    INCHL,
    DEC(ArithmeticTarget),
    DECHL,
    CCF,
    SCF,
    RRA,
    RLA,
    RRCA,
    RLCA,
    CPL,
    BIT(u8, ArithmeticTarget),
    BITHL(u8),
    RESET(u8, ArithmeticTarget),
    RESETHL(u8),
    SET(u8, ArithmeticTarget),
    SETHL(u8),
    SRL(ArithmeticTarget),
    SRLHL,
    RR(ArithmeticTarget),
    RRHL,
    RL(ArithmeticTarget),
    RLHL,
    RRC(ArithmeticTarget),
    RRCHL,
    RLC(ArithmeticTarget),
    RLCHL,
    SRA(ArithmeticTarget),
    SRAHL,
    SLA(ArithmeticTarget),
    SLAHL,
    SWAP(ArithmeticTarget),
    SWAPHL,
    JP(JumpTest),
}

/// Whether the decoder knows `byte` (after the 0xCB prefix when `prefixed`).
pub open spec fn is_known_opcode(byte: u8, prefixed: bool) -> bool {
    if prefixed {
        byte == 0x00
    } else {
        byte == 0x80 || byte == 0x81
    }
}

/// The instruction that a known opcode decodes to.
pub open spec fn decode(byte: u8, prefixed: bool) -> Instruction {
    if prefixed {
        Instruction::RLC(ArithmeticTarget::B)
    } else if byte == 0x80 {
        Instruction::ADD(ArithmeticTarget::B)
    } else {
        Instruction::ADD(ArithmeticTarget::C)
    }
}

impl Instruction {
    /// Decodes `byte`, read after a 0xCB prefix when `prefixed`.
    ///
    /// Only the opcodes of [`is_known_opcode`] are decoded; any other byte is
    /// outside this function's domain.
    pub fn from_byte(byte: u8, prefixed: bool) -> (r: Option<Instruction>)
        requires
            is_known_opcode(byte, prefixed),
        ensures
            r == Some(decode(byte, prefixed)),
    {
        if prefixed {
            Instruction::from_byte_prefixed(byte)
        } else {
            Instruction::from_byte_not_prefixed(byte)
        }
    }

    /// Decodes an opcode read after the 0xCB prefix.
    pub fn from_byte_prefixed(byte: u8) -> (r: Option<Instruction>)
        requires
            is_known_opcode(byte, true),
        ensures
            r == Some(decode(byte, true)),
    {
        match byte {
            0x00 => Some(Instruction::RLC(ArithmeticTarget::B)),
            _ => None,
        }
    }

    /// Decodes an opcode that has no prefix.
    pub fn from_byte_not_prefixed(byte: u8) -> (r: Option<Instruction>)
        requires
            is_known_opcode(byte, false),
        ensures
            r == Some(decode(byte, false)),
    {
        match byte {
            0x80 => Some(Instruction::ADD(ArithmeticTarget::B)),
            0x81 => Some(Instruction::ADD(ArithmeticTarget::C)),
            _ => None,
        }
    }
}

} // verus!
