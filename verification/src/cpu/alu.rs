//! What each arithmetic, logic, bit and shift operation computes, stated
//! over the integers, and the facts that tie the CPU's bitwise code to it.
use vstd::prelude::*;

use crate::cpu::registers::FlagsRegister;

verus! {

/// `x` reduced modulo 256.
pub open spec fn wrap8(x: int) -> u8 {
    (x % 256) as u8
}

/// `x` reduced modulo 65536.
#[verifier::opaque]
pub open spec fn wrap16(x: int) -> u16 {
    (x % 65536) as u16
}

/// `wrapping_add` on `u16` reduces modulo 65536.
pub broadcast proof fn lemma_wrapping_add16(x: u16, y: u16)
    ensures
        #[trigger] vstd::wrapping::u16_specs::wrapping_add(x, y) == wrap16(x + y),
{
    reveal(wrap16);
}

/// `wrapping_sub` on `u16` reduces modulo 65536.
pub broadcast proof fn lemma_wrapping_sub16(x: u16, y: u16)
    ensures
        #[trigger] vstd::wrapping::u16_specs::wrapping_sub(x, y) == wrap16(x - y),
{
    reveal(wrap16);
}

/// Reducing twice is reducing once.
pub proof fn lemma_wrap16_add(x: int, d: int)
    ensures
        wrap16(wrap16(x) + d) == wrap16(x + d),
{
    reveal(wrap16);
    assert(((x % 65536) + d) % 65536 == (x + d) % 65536) by (nonlinear_arith);
}

/// The two's-complement value of a byte.
pub open spec fn signed8(b: u8) -> int {
    if b < 128 {
        b as int
    } else {
        b as int - 256
    }
}

/// 2 to the power `i`, for a bit index.
pub open spec fn bit_weight(i: u8) -> u8
    recommends
        i < 8,
{
    if i == 0 {
        1
    } else if i == 1 {
        2
    } else if i == 2 {
        4
    } else if i == 3 {
        8
    } else if i == 4 {
        16
    } else if i == 5 {
        32
    } else if i == 6 {
        64
    } else {
        128
    }
}

/// Whether bit `i` of `v` is one.
pub open spec fn bit_of(v: u8, i: u8) -> bool
    recommends
        i < 8,
{
    (v / bit_weight(i)) % 2 == 1
}

/// ADD: A + v modulo 256; zero, carry out of bit 7, carry out of bit 3.
#[verifier::opaque]
pub open spec fn alu_add(a: u8, v: u8) -> (u8, FlagsRegister) {
    let r = wrap8(a + v);
    (r, FlagsRegister { zero: r == 0, subtract: false, half_carry: a % 16 + v % 16 > 15, carry: a + v > 255 })
}

/// ADC: A + v + carry modulo 256.
#[verifier::opaque]
pub open spec fn alu_add_carry(a: u8, v: u8, carry: bool) -> (u8, FlagsRegister) {
    let c: int = if carry { 1 } else { 0 };
    let r = wrap8(a + v + c);
    (
        r,
        FlagsRegister {
            zero: r == 0,
            subtract: false,
            half_carry: a % 16 + v % 16 + c > 15,
            carry: a + v + c > 255,
        },
    )
}

/// SUB: A - v modulo 256; carry is a borrow out of bit 7, half-carry a
/// borrow out of bit 3.
#[verifier::opaque]
pub open spec fn alu_sub(a: u8, v: u8) -> (u8, FlagsRegister) {
    let r = wrap8(a - v);
    (r, FlagsRegister { zero: r == 0, subtract: true, half_carry: a % 16 < v % 16, carry: a < v })
}

/// SBC: A - v - carry modulo 256. The half-carry flag compares the low
/// nibbles of A and v only.
#[verifier::opaque]
pub open spec fn alu_sub_carry(a: u8, v: u8, carry: bool) -> (u8, FlagsRegister) {
    let c: int = if carry { 1 } else { 0 };
    let r = wrap8(a - v - c);
    (r, FlagsRegister { zero: r == 0, subtract: true, half_carry: a % 16 < v % 16, carry: a - v - c < 0 })
}

/// The result of AND, OR, XOR bit by bit.
#[verifier::opaque]
pub open spec fn alu_and(a: u8, v: u8) -> (u8, FlagsRegister) {
    let r = a & v;
    (r, FlagsRegister { zero: r == 0, subtract: false, half_carry: true, carry: false })
}

#[verifier::opaque]
pub open spec fn alu_or(a: u8, v: u8) -> (u8, FlagsRegister) {
    let r = a | v;
    (r, FlagsRegister { zero: r == 0, subtract: false, half_carry: false, carry: false })
}

#[verifier::opaque]
pub open spec fn alu_xor(a: u8, v: u8) -> (u8, FlagsRegister) {
    let r = a ^ v;
    (r, FlagsRegister { zero: r == 0, subtract: false, half_carry: false, carry: false })
}

/// INC: v + 1 modulo 256; carry is kept.
#[verifier::opaque]
pub open spec fn alu_inc(v: u8, f: FlagsRegister) -> (u8, FlagsRegister) {
    let r = wrap8(v + 1);
    (r, FlagsRegister { zero: r == 0, subtract: false, half_carry: v % 16 == 15, ..f })
}

/// DEC: v - 1 modulo 256; carry is kept.
#[verifier::opaque]
pub open spec fn alu_dec(v: u8, f: FlagsRegister) -> (u8, FlagsRegister) {
    let r = wrap8(v - 1);
    (r, FlagsRegister { zero: r == 0, subtract: true, half_carry: v % 16 == 0, ..f })
}

/// ADD HL: hl + v modulo 65536; zero is kept, half-carry is the carry out of bit 11.
#[verifier::opaque]
pub open spec fn alu_add16(hl: u16, v: u16, f: FlagsRegister) -> (u16, FlagsRegister) {
    (
        wrap16(hl + v),
        FlagsRegister { subtract: false, half_carry: hl % 4096 + v % 4096 > 4095, carry: hl + v > 65535, ..f },
    )
}

/// RR: rotate right through the carry.
#[verifier::opaque]
pub open spec fn alu_rr(v: u8, f: FlagsRegister) -> (u8, FlagsRegister) {
    let r = (v / 2 + if f.carry { 128int } else { 0 }) as u8;
    (r, FlagsRegister { zero: r == 0, subtract: false, half_carry: false, carry: v % 2 == 1 })
}

/// RL: rotate left through the carry.
#[verifier::opaque]
pub open spec fn alu_rl(v: u8, f: FlagsRegister) -> (u8, FlagsRegister) {
    let r = ((v * 2) % 256 + if f.carry { 1int } else { 0 }) as u8;
    (r, FlagsRegister { zero: r == 0, subtract: false, half_carry: false, carry: v >= 128 })
}

/// RRC: rotate right, bit 0 goes to bit 7 and to the carry.
#[verifier::opaque]
pub open spec fn alu_rrc(v: u8) -> (u8, FlagsRegister) {
    let r = (v / 2 + (v % 2) * 128) as u8;
    (r, FlagsRegister { zero: r == 0, subtract: false, half_carry: false, carry: v % 2 == 1 })
}

/// RLC: rotate left, bit 7 goes to bit 0 and to the carry.
#[verifier::opaque]
pub open spec fn alu_rlc(v: u8) -> (u8, FlagsRegister) {
    let r = ((v * 2) % 256 + v / 128) as u8;
    (r, FlagsRegister { zero: r == 0, subtract: false, half_carry: false, carry: v >= 128 })
}

/// SRL: logical shift right, bit 0 to the carry.
#[verifier::opaque]
pub open spec fn alu_srl(v: u8) -> (u8, FlagsRegister) {
    let r = v / 2;
    (r, FlagsRegister { zero: r == 0, subtract: false, half_carry: false, carry: v % 2 == 1 })
}

/// SRA: arithmetic shift right, bit 7 is kept, bit 0 to the carry.
#[verifier::opaque]
pub open spec fn alu_sra(v: u8) -> (u8, FlagsRegister) {
    let r = (v / 2 + (v / 128) * 128) as u8;
    (r, FlagsRegister { zero: r == 0, subtract: false, half_carry: false, carry: v % 2 == 1 })
}

/// SLA: shift left, bit 7 to the carry.
#[verifier::opaque]
pub open spec fn alu_sla(v: u8) -> (u8, FlagsRegister) {
    let r = ((v * 2) % 256) as u8;
    (r, FlagsRegister { zero: r == 0, subtract: false, half_carry: false, carry: v >= 128 })
}

/// SWAP: exchange the two nibbles.
#[verifier::opaque]
pub open spec fn alu_swap(v: u8) -> (u8, FlagsRegister) {
    let r = ((v % 16) * 16 + v / 16) as u8;
    (r, FlagsRegister { zero: r == 0, subtract: false, half_carry: false, carry: false })
}

/// RRA, RLA, RRCA, RLCA: the rotations of A, which always clear zero.
#[verifier::opaque]
pub open spec fn alu_rra(a: u8, f: FlagsRegister) -> (u8, FlagsRegister) {
    (alu_rr(a, f).0, FlagsRegister { zero: false, ..alu_rr(a, f).1 })
}

#[verifier::opaque]
pub open spec fn alu_rla(a: u8, f: FlagsRegister) -> (u8, FlagsRegister) {
    (alu_rl(a, f).0, FlagsRegister { zero: false, ..alu_rl(a, f).1 })
}

#[verifier::opaque]
pub open spec fn alu_rrca(a: u8) -> (u8, FlagsRegister) {
    (alu_rrc(a).0, FlagsRegister { zero: false, ..alu_rrc(a).1 })
}

#[verifier::opaque]
pub open spec fn alu_rlca(a: u8) -> (u8, FlagsRegister) {
    (alu_rlc(a).0, FlagsRegister { zero: false, ..alu_rlc(a).1 })
}

/// CPL: complement A.
#[verifier::opaque]
pub open spec fn alu_cpl(a: u8, f: FlagsRegister) -> (u8, FlagsRegister) {
    ((255 - a) as u8, FlagsRegister { subtract: true, half_carry: true, ..f })
}

/// BIT: zero is set when bit `idx` of v is clear.
#[verifier::opaque]
pub open spec fn alu_bit(idx: u8, v: u8, f: FlagsRegister) -> FlagsRegister {
    FlagsRegister { zero: !bit_of(v, idx), subtract: false, half_carry: true, ..f }
}

/// RES: v with bit `idx` cleared.
#[verifier::opaque]
pub open spec fn alu_reset(idx: u8, v: u8) -> u8 {
    if bit_of(v, idx) {
        (v - bit_weight(idx)) as u8
    } else {
        v
    }
}

/// SET: v with bit `idx` set.
#[verifier::opaque]
pub open spec fn alu_set(idx: u8, v: u8) -> u8 {
    if bit_of(v, idx) {
        v
    } else {
        (v + bit_weight(idx)) as u8
    }
}

/// DAA: the decimal adjustment of A after a BCD addition or subtraction.
#[verifier::opaque]
pub open spec fn alu_daa(a: u8, f: FlagsRegister) -> (u8, FlagsRegister) {
    if f.subtract {
        let adj: int = (if f.half_carry { 0x06int } else { 0 }) + (if f.carry { 0x60int } else { 0 });
        let r = wrap8(a - adj);
        (r, FlagsRegister { zero: r == 0, half_carry: false, ..f })
    } else {
        let low = f.half_carry || a % 16 > 9;
        let high = f.carry || a > 0x99;
        let adj: int = (if low { 0x06int } else { 0 }) + (if high { 0x60int } else { 0 });
        let r = wrap8(a + adj);
        (r, FlagsRegister { zero: r == 0, half_carry: false, carry: high, ..f })
    }
}

// Facts about the bitwise forms the CPU computes with.

pub proof fn lemma_nibble(x: u8)
    ensures
        x & 0xF == x % 16,
{
    assert(x & 0xF == x % 16) by (bit_vector);
}

pub proof fn lemma_low12(x: u16)
    ensures
        x & 0x0FFF == x % 4096,
{
    assert(x & 0x0FFF == x % 4096) by (bit_vector);
}

pub proof fn lemma_shift_right_one(v: u8, c: u8)
    requires
        c <= 1,
    ensures
        (v >> 1u8) | (c << 7u8) == v / 2 + c * 128,
        v >> 1u8 == v / 2,
        v & 0x1 == v % 2,
        (v & 0x80 != 0) == (v >= 128),
        v & 0x80 == (v / 128) * 128,
{
    assert((v >> 1u8) | (c << 7u8) == v / 2 + c * 128) by (bit_vector)
        requires
            c <= 1,
    ;
    assert(v >> 1u8 == v / 2) by (bit_vector);
    assert(v & 0x1 == v % 2) by (bit_vector);
    assert((v & 0x80 != 0) == (v >= 128)) by (bit_vector);
    assert(v & 0x80 == (v / 128) * 128) by (bit_vector);
}

pub proof fn lemma_shift_left_one(v: u8, c: u8)
    requires
        c <= 1,
    ensures
        (v << 1u8) | c == (v * 2) % 256 + c,
        v << 1u8 == (v * 2) % 256,
        (v & 0x80) >> 7u8 == v / 128,
{
    assert((v << 1u8) | c == (v * 2) % 256 + c) by (bit_vector)
        requires
            c <= 1,
    ;
    assert(v << 1u8 == (v * 2) % 256) by (bit_vector);
    assert((v & 0x80) >> 7u8 == v / 128) by (bit_vector);
}

pub proof fn lemma_sra(v: u8)
    ensures
        (v >> 1u8) | (v & 0x80) == v / 2 + (v / 128) * 128,
{
    assert((v >> 1u8) | (v & 0x80) == v / 2 + (v / 128) * 128) by (bit_vector);
}

pub proof fn lemma_swap_nibbles(v: u8)
    ensures
        ((v & 0x0F) << 4u8) | (v >> 4u8) == (v % 16) * 16 + v / 16,
{
    assert(((v & 0x0F) << 4u8) | (v >> 4u8) == (v % 16) * 16 + v / 16) by (bit_vector);
}

pub proof fn lemma_complement(a: u8)
    ensures
        !a == 255 - a,
{
    assert(!a == 255 - a) by (bit_vector);
}

/// The mask `1 << idx` is the weight of bit `idx`, and testing, clearing and
/// setting through it agree with [`bit_of`], [`alu_reset`] and [`alu_set`].
pub proof fn lemma_bit_mask(idx: u8, v: u8)
    requires
        idx < 8,
    ensures
        1u8 << idx == bit_weight(idx),
        ((v & (1u8 << idx)) == 0) == !bit_of(v, idx),
        v & !(1u8 << idx) == alu_reset(idx, v),
        v | (1u8 << idx) == alu_set(idx, v),
{
    reveal(alu_reset);
    reveal(alu_set);
    let m = 1u8 << idx;
    assert(m == bit_weight(idx)) by (bit_vector)
        requires
            idx < 8,
            m == 1u8 << idx,
    ;
    assert((v & m == 0) == ((v / m) % 2 != 1)) by (bit_vector)
        requires
            idx < 8,
            m == 1u8 << idx,
    ;
    assert(v & !m == (if (v / m) % 2 == 1 { (v - m) as u8 } else { v })) by (bit_vector)
        requires
            idx < 8,
            m == 1u8 << idx,
    ;
    assert(v | m == (if (v / m) % 2 == 1 { v } else { (v + m) as u8 })) by (bit_vector)
        requires
            idx < 8,
            m == 1u8 << idx,
    ;
}

/// Sign extension of a byte to 16 bits adds 0xFF00 to the negative bytes.
pub proof fn lemma_sign_extend(b: u8)
    ensures
        ((b as i8) as u16) as int == if b < 128 { b as int } else { b as int + 0xFF00 },
{
    assert(((b as i8) as u16) == if b < 128 { b as int } else { b as int + 0xFF00 }) by (bit_vector);
}

/// Rotating right and then left (or left and then right) gives the value back.
pub proof fn law_rotate_inverse(v: u8)
    ensures
        alu_rlc(alu_rrc(v).0).0 == v,
        alu_rrc(alu_rlc(v).0).0 == v,
{
    reveal(alu_rlc);
    reveal(alu_rrc);
}

/// Rotating right through the carry and then left through the carry gives
/// back both the value and the carry, and the other way round.
pub proof fn law_rotate_through_carry_inverse(v: u8, f: FlagsRegister)
    ensures
        alu_rl(alu_rr(v, f).0, alu_rr(v, f).1).0 == v,
        alu_rl(alu_rr(v, f).0, alu_rr(v, f).1).1.carry == f.carry,
        alu_rr(alu_rl(v, f).0, alu_rl(v, f).1).0 == v,
        alu_rr(alu_rl(v, f).0, alu_rl(v, f).1).1.carry == f.carry,
{
    reveal(alu_rl);
    reveal(alu_rr);
}

/// Swapping the nibbles twice gives the value back.
pub proof fn law_swap_involution(v: u8)
    ensures
        alu_swap(alu_swap(v).0).0 == v,
{
    reveal(alu_swap);
}

/// Complementing A twice gives A back.
pub proof fn law_cpl_involution(a: u8, f: FlagsRegister)
    ensures
        alu_cpl(alu_cpl(a, f).0, alu_cpl(a, f).1).0 == a,
{
    reveal(alu_cpl);
}

/// Subtracting what was added gives the first operand back, modulo 256.
pub proof fn law_add_sub_inverse(a: u8, v: u8)
    ensures
        alu_sub(alu_add(a, v).0, v).0 == a,
        alu_add(alu_sub(a, v).0, v).0 == a,
{
    reveal(alu_add);
    reveal(alu_sub);
    reveal(wrap8);
    let s = (a + v) % 256;
    let d = (a - v) % 256;
    assert(s == if a + v >= 256 { a + v - 256 } else { a + v });
    assert(d == if a >= v { a - v } else { a - v + 256 });
}

/// Decrementing an incremented value gives it back, and the other way round.
pub proof fn law_inc_dec_inverse(v: u8, f: FlagsRegister, g: FlagsRegister)
    ensures
        alu_dec(alu_inc(v, f).0, g).0 == v,
        alu_inc(alu_dec(v, f).0, g).0 == v,
{
    reveal(alu_inc);
    reveal(alu_dec);
    reveal(wrap8);
}

/// After SET the bit tests as one, after RES it tests as zero; both leave the
/// other bits as they were.
pub proof fn law_set_reset_bit(i: u8, j: u8, v: u8, f: FlagsRegister)
    requires
        i < 8,
        j < 8,
    ensures
        !alu_bit(i, alu_set(i, v), f).zero,
        alu_bit(i, alu_reset(i, v), f).zero,
        i != j ==> (bit_of(alu_set(i, v), j) == bit_of(v, j)),
        i != j ==> (bit_of(alu_reset(i, v), j) == bit_of(v, j)),
{
    reveal(alu_bit);
    reveal(alu_set);
    reveal(alu_reset);
    let s = alu_set(i, v);
    let r = alu_reset(i, v);
    lemma_bit_mask(i, v);
    lemma_bit_mask(i, s);
    lemma_bit_mask(i, r);
    lemma_bit_mask(j, v);
    lemma_bit_mask(j, s);
    lemma_bit_mask(j, r);
    let mi = 1u8 << i;
    let mj = 1u8 << j;
    assert(s == v | mi);
    assert(r == v & !mi);
    assert((s & mi) != 0) by (bit_vector)
        requires
            s == v | mi,
            i < 8,
            mi == 1u8 << i,
    ;
    assert((r & mi) == 0) by (bit_vector)
        requires
            r == v & !mi,
    ;
    if i != j {
        assert(((s & mj) == 0) == ((v & mj) == 0)) by (bit_vector)
            requires
                s == v | mi,
                i < 8,
                j < 8,
                i != j,
                mi == 1u8 << i,
                mj == 1u8 << j,
        ;
        assert(((r & mj) == 0) == ((v & mj) == 0)) by (bit_vector)
            requires
                r == v & !mi,
                i < 8,
                j < 8,
                i != j,
                mi == 1u8 << i,
                mj == 1u8 << j,
        ;
    }
}

/// Whether both nibbles of `x` are decimal digits.
pub open spec fn is_bcd(x: u8) -> bool {
    x / 16 <= 9 && x % 16 <= 9
}

/// The number 0..=99 that a packed BCD byte stands for.
pub open spec fn bcd_value(x: u8) -> int {
    (x / 16) * 10 + x % 16
}

/// ADD of two packed BCD bytes followed by DAA gives the packed BCD byte of
/// their decimal sum modulo 100, and the carry tells whether the sum reached 100.
pub proof fn law_daa_after_add(a: u8, b: u8)
    requires
        is_bcd(a),
        is_bcd(b),
    ensures
        is_bcd(alu_daa(alu_add(a, b).0, alu_add(a, b).1).0),
        bcd_value(alu_daa(alu_add(a, b).0, alu_add(a, b).1).0) == (bcd_value(a) + bcd_value(b)) % 100,
        alu_daa(alu_add(a, b).0, alu_add(a, b).1).1.carry == (bcd_value(a) + bcd_value(b) >= 100),
{
    reveal(alu_add);
    reveal(alu_daa);
    reveal(wrap8);
    let r: u8 = ((a + b) % 256) as u8;
    let hc: bool = a % 16 + b % 16 > 15;
    let c: bool = a + b > 255;
    let low: bool = hc || r % 16 > 9;
    let high: bool = c || r > 0x99;
    let adj: u8 = ((if low { 6int } else { 0 }) + (if high { 0x60int } else { 0 })) as u8;
    let d: u8 = ((r + adj) % 256) as u8;
    assert(d / 16 <= 9 && d % 16 <= 9 && (d / 16) * 10 + d % 16 == ((a / 16) * 10 + a % 16 + (b / 16) * 10
        + b % 16) % 100 && high == ((a / 16) * 10 + a % 16 + (b / 16) * 10 + b % 16 >= 100)) by (bit_vector)
        requires
            a / 16 <= 9,
            a % 16 <= 9,
            b / 16 <= 9,
            b % 16 <= 9,
            r == ((a + b) % 256) as u8,
            hc == (a % 16 + b % 16 > 15),
            c == (a + b > 255),
            low == (hc || r % 16 > 9),
            high == (c || r > 0x99),
            adj == (if low { 6u8 } else { 0u8 }) + (if high { 0x60u8 } else { 0u8 }),
            d == ((r + adj) % 256) as u8,
    ;
}

/// SUB of two packed BCD bytes followed by DAA gives the packed BCD byte of
/// their decimal difference modulo 100, and the carry tells whether it borrowed.
pub proof fn law_daa_after_sub(a: u8, b: u8)
    requires
        is_bcd(a),
        is_bcd(b),
    ensures
        is_bcd(alu_daa(alu_sub(a, b).0, alu_sub(a, b).1).0),
        bcd_value(alu_daa(alu_sub(a, b).0, alu_sub(a, b).1).0) == (bcd_value(a) - bcd_value(b)) % 100,
        alu_daa(alu_sub(a, b).0, alu_sub(a, b).1).1.carry == (bcd_value(a) < bcd_value(b)),
{
    reveal(alu_sub);
    reveal(alu_daa);
    reveal(wrap8);
    let r: u8 = ((a - b) % 256) as u8;
    let hc: bool = a % 16 < b % 16;
    let c: bool = a < b;
    let adj: u8 = ((if hc { 6int } else { 0 }) + (if c { 0x60int } else { 0 })) as u8;
    let d: u8 = ((r - adj) % 256) as u8;
    assert(d / 16 <= 9 && d % 16 <= 9 && (d / 16) * 10 + d % 16 == ((a / 16) * 10 + a % 16 - (b / 16) * 10
        - b % 16) % 100 && c == ((a / 16) * 10 + a % 16 < (b / 16) * 10 + b % 16)) by (bit_vector)
        requires
            a / 16 <= 9,
            a % 16 <= 9,
            b / 16 <= 9,
            b % 16 <= 9,
            r == ((a - b) % 256) as u8,
            hc == (a % 16 < b % 16),
            c == (a < b),
            adj == (if hc { 6u8 } else { 0u8 }) + (if c { 0x60u8 } else { 0u8 }),
            d == ((r - adj) % 256) as u8,
    ;
}

/// Bit `i` of `x` is one exactly when masking `x` with `1 << i` leaves something.
proof fn lemma_bit_of_mask(x: u8, i: u8)
    requires
        i < 8,
    ensures
        bit_of(x, i) == ((x & (1u8 << i)) != 0),
{
    lemma_bit_mask(i, x);
}

/// OR sets exactly the bits set in either operand, AND exactly the bits set in
/// both, XOR exactly the bits set in one of them; OR and AND of a value with
/// itself give the value back, XOR gives zero. All three clear subtract and
/// carry; only AND sets half-carry; zero tells whether the result is zero.
pub proof fn law_logic_bits(a: u8, v: u8, i: u8)
    requires
        i < 8,
    ensures
        bit_of(alu_or(a, v).0, i) == (bit_of(a, i) || bit_of(v, i)),
        bit_of(alu_and(a, v).0, i) == (bit_of(a, i) && bit_of(v, i)),
        bit_of(alu_xor(a, v).0, i) == (bit_of(a, i) != bit_of(v, i)),
        alu_or(a, a).0 == a,
        alu_and(a, a).0 == a,
        alu_xor(a, a).0 == 0,
        alu_or(a, v).1 == (FlagsRegister { zero: alu_or(a, v).0 == 0, subtract: false, half_carry: false, carry: false }),
        alu_xor(a, v).1 == (FlagsRegister { zero: alu_xor(a, v).0 == 0, subtract: false, half_carry: false, carry: false }),
        alu_and(a, v).1 == (FlagsRegister { zero: alu_and(a, v).0 == 0, subtract: false, half_carry: true, carry: false }),
{
    reveal(alu_or);
    reveal(alu_and);
    reveal(alu_xor);
    let m = 1u8 << i;
    lemma_bit_of_mask(a, i);
    lemma_bit_of_mask(v, i);
    lemma_bit_of_mask(a | v, i);
    lemma_bit_of_mask(a & v, i);
    lemma_bit_of_mask(a ^ v, i);
    assert(((a | v) & m != 0) == ((a & m != 0) || (v & m != 0))) by (bit_vector);
    assert(((a & v) & m != 0) == ((a & m != 0) && (v & m != 0))) by (bit_vector)
        requires
            i < 8,
            m == 1u8 << i,
    ;
    assert(((a ^ v) & m != 0) == ((a & m != 0) != (v & m != 0))) by (bit_vector)
        requires
            i < 8,
            m == 1u8 << i,
    ;
    assert(a | a == a && a & a == a && a ^ a == 0) by (bit_vector);
}

/// CPL flips every bit of A, sets subtract and half-carry and keeps zero and carry.
pub proof fn law_cpl_bits(a: u8, f: FlagsRegister, i: u8)
    requires
        i < 8,
    ensures
        bit_of(alu_cpl(a, f).0, i) == !bit_of(a, i),
        alu_cpl(a, f).1 == (FlagsRegister { subtract: true, half_carry: true, ..f }),
{
    reveal(alu_cpl);
    let m = 1u8 << i;
    lemma_complement(a);
    lemma_bit_of_mask(a, i);
    lemma_bit_of_mask(!a, i);
    assert((!a & m != 0) == (a & m == 0)) by (bit_vector)
        requires
            i < 8,
            m == 1u8 << i,
    ;
}

/// ADC with the carry clear is ADD, result and flags; with the carry set its
/// result is ADD's result plus one, modulo 256. SBC with the carry clear is SUB,
/// and with it set its result is SUB's result minus one, modulo 256.
pub proof fn law_carry_in(a: u8, v: u8)
    ensures
        alu_add_carry(a, v, false) == alu_add(a, v),
        alu_add_carry(a, v, true).0 as int == (alu_add(a, v).0 + 1) % 256,
        alu_add_carry(a, v, true).1.carry == (a + v >= 255),
        alu_sub_carry(a, v, false) == alu_sub(a, v),
        alu_sub_carry(a, v, true).0 as int == (alu_sub(a, v).0 - 1) % 256,
        alu_sub_carry(a, v, true).1.carry == (a <= v),
{
    reveal(alu_add);
    reveal(alu_add_carry);
    reveal(alu_sub);
    reveal(alu_sub_carry);
    reveal(wrap8);
}

/// ADD's result plus the carry out (weight 256) is the sum of the operands,
/// and SUB's result minus the borrow (weight 256) is their difference.
pub proof fn law_add_sub_carry_out(a: u8, v: u8)
    ensures
        alu_add(a, v).0 + (if alu_add(a, v).1.carry { 256int } else { 0 }) == a + v,
        alu_sub(a, v).0 - (if alu_sub(a, v).1.carry { 256int } else { 0 }) == a - v,
        alu_add(a, v).1.zero == (alu_add(a, v).0 == 0),
        alu_sub(a, v).1.zero == (a == v),
{
    reveal(alu_add);
    reveal(alu_sub);
    reveal(wrap8);
}

/// INC gives ADD's result and zero and half-carry flags for an operand of one,
/// and keeps the carry; DEC likewise gives SUB's for one.
pub proof fn law_inc_dec_are_add_sub_one(v: u8, f: FlagsRegister)
    ensures
        alu_inc(v, f).0 == alu_add(v, 1).0,
        alu_inc(v, f).1.zero == alu_add(v, 1).1.zero,
        alu_inc(v, f).1.half_carry == alu_add(v, 1).1.half_carry,
        alu_inc(v, f).1.carry == f.carry,
        alu_dec(v, f).0 == alu_sub(v, 1).0,
        alu_dec(v, f).1.zero == alu_sub(v, 1).1.zero,
        alu_dec(v, f).1.half_carry == alu_sub(v, 1).1.half_carry,
        alu_dec(v, f).1.carry == f.carry,
{
    reveal(alu_add);
    reveal(alu_sub);
    reveal(alu_inc);
    reveal(alu_dec);
    reveal(wrap8);
}

/// The right shifts: SRL clears bit 7 and SRA keeps it; twice SRL's result,
/// or twice SRA's result without bit 7, plus the carry (the bit shifted out)
/// gives back the operand. RR puts the old carry in bit 7, RRC the old bit 0.
pub proof fn law_right_shifts(v: u8, f: FlagsRegister)
    ensures
        alu_srl(v).0 < 128,
        alu_srl(v).0 * 2 + (if alu_srl(v).1.carry { 1int } else { 0 }) == v,
        alu_sra(v).0 / 128 == v / 128,
        (alu_sra(v).0 % 128) * 2 + (if alu_sra(v).1.carry { 1int } else { 0 }) == v,
        alu_rr(v, f).0 % 128 == v / 2,
        (alu_rr(v, f).0 >= 128) == f.carry,
        alu_rr(v, f).1.carry == (v % 2 == 1),
        alu_rrc(v).0 % 128 == v / 2,
        (alu_rrc(v).0 >= 128) == (v % 2 == 1),
{
    reveal(alu_srl);
    reveal(alu_sra);
    reveal(alu_rr);
    reveal(alu_rrc);
}

/// The left shifts: SLA moves bit 7 to the carry and leaves bit 0 clear, so
/// SRL after SLA gives the operand without its bit 7; RL puts the old carry in
/// bit 0 and RLC the old bit 7; the bits above move up by one. SWAP exchanges
/// the nibbles.
pub proof fn law_left_shifts_and_swap(v: u8, f: FlagsRegister)
    ensures
        alu_sla(v).0 % 2 == 0,
        alu_sla(v).1.carry == (v >= 128),
        alu_srl(alu_sla(v).0).0 == v % 128,
        alu_rl(v, f).0 / 2 == v % 128,
        (alu_rl(v, f).0 % 2 == 1) == f.carry,
        alu_rl(v, f).1.carry == (v >= 128),
        alu_rlc(v).0 / 2 == v % 128,
        alu_rlc(v).0 % 2 == v / 128,
        alu_swap(v).0 / 16 == v % 16,
        alu_swap(v).0 % 16 == v / 16,
        alu_swap(v).1.zero == (v == 0),
{
    reveal(alu_sla);
    reveal(alu_srl);
    reveal(alu_rl);
    reveal(alu_rlc);
    reveal(alu_swap);
}

/// The rotations of A give the same value and carry as the rotations of an
/// operand, with zero always clear.
pub proof fn law_accumulator_rotations(a: u8, f: FlagsRegister)
    ensures
        alu_rra(a, f).0 == alu_rr(a, f).0 && alu_rra(a, f).1.carry == alu_rr(a, f).1.carry && !alu_rra(a, f).1.zero,
        alu_rla(a, f).0 == alu_rl(a, f).0 && alu_rla(a, f).1.carry == alu_rl(a, f).1.carry && !alu_rla(a, f).1.zero,
        alu_rrca(a).0 == alu_rrc(a).0 && alu_rrca(a).1.carry == alu_rrc(a).1.carry && !alu_rrca(a).1.zero,
        alu_rlca(a).0 == alu_rlc(a).0 && alu_rlca(a).1.carry == alu_rlc(a).1.carry && !alu_rlca(a).1.zero,
{
    reveal(alu_rra);
    reveal(alu_rla);
    reveal(alu_rrca);
    reveal(alu_rlca);
}

/// The flags of the 8-bit arithmetic: subtract tells a subtraction, zero
/// a zero result, and half-carry the carry out of (ADD, ADC) or the borrow
/// into (SUB, SBC) the low nibble; SBC's half-carry looks at the operands'
/// low nibbles only, as SUB's does.
pub proof fn law_arithmetic_flags(a: u8, v: u8, c: bool)
    ensures
        !alu_add(a, v).1.subtract && !alu_add_carry(a, v, c).1.subtract,
        alu_sub(a, v).1.subtract && alu_sub_carry(a, v, c).1.subtract,
        alu_add(a, v).1.half_carry == ((a % 16 + v % 16) / 16 == 1),
        alu_add_carry(a, v, true).1.half_carry == ((a % 16 + v % 16 + 1) / 16 == 1),
        alu_sub(a, v).1.half_carry == (a % 16 < v % 16),
        alu_sub_carry(a, v, c).1.half_carry == alu_sub(a, v).1.half_carry,
        alu_add_carry(a, v, c).1.zero == (alu_add_carry(a, v, c).0 == 0),
        alu_sub_carry(a, v, c).1.zero == (alu_sub_carry(a, v, c).0 == 0),
        !alu_inc(v, alu_add(a, v).1).1.subtract,
        alu_dec(v, alu_add(a, v).1).1.subtract,
{
    reveal(alu_add);
    reveal(alu_add_carry);
    reveal(alu_sub);
    reveal(alu_sub_carry);
    reveal(alu_inc);
    reveal(alu_dec);
}

/// ADD HL: the result plus the carry out of bit 15 (weight 65536) is the sum;
/// half-carry is the carry out of bit 11; zero is kept, subtract cleared.
pub proof fn law_add16(hl: u16, v: u16, f: FlagsRegister)
    ensures
        alu_add16(hl, v, f).0 + (if alu_add16(hl, v, f).1.carry { 65536int } else { 0 }) == hl + v,
        alu_add16(hl, v, f).1.half_carry == ((hl % 4096 + v % 4096) / 4096 == 1),
        alu_add16(hl, v, f).1.zero == f.zero,
        !alu_add16(hl, v, f).1.subtract,
{
    reveal(alu_add16);
    reveal(wrap16);
}

/// The shifts, rotations and SWAP clear subtract and half-carry and set zero
/// exactly when their result is zero; SWAP clears the carry.
pub proof fn law_shift_flags(v: u8, f: FlagsRegister)
    ensures
        ({
            let outs = seq![alu_rr(v, f), alu_rl(v, f), alu_rrc(v), alu_rlc(v), alu_srl(v), alu_sra(v), alu_sla(v), alu_swap(v)];
            forall|k: int| 0 <= k < 8 ==> {
                &&& (#[trigger] outs[k]).1.zero == (outs[k].0 == 0)
                &&& !outs[k].1.subtract
                &&& !outs[k].1.half_carry
            }
        }),
        !alu_swap(v).1.carry,
{
    reveal(alu_rr);
    reveal(alu_rl);
    reveal(alu_rrc);
    reveal(alu_rlc);
    reveal(alu_srl);
    reveal(alu_sra);
    reveal(alu_sla);
    reveal(alu_swap);
}

/// BIT sets half-carry, clears subtract and keeps the carry.
pub proof fn law_bit_flags(i: u8, v: u8, f: FlagsRegister)
    ensures
        alu_bit(i, v, f).half_carry && !alu_bit(i, v, f).subtract && alu_bit(i, v, f).carry == f.carry,
{
    reveal(alu_bit);
}

/// The signed value of a byte lies in -128..=127 and agrees with the byte
/// modulo 256.
pub proof fn law_signed8(b: u8)
    ensures
        -128 <= signed8(b) <= 127,
        (signed8(b) - b) % 256 == 0,
        (b < 128) == (signed8(b) >= 0),
{
}

} // verus!
