//! The instruction set: the decoded form of every opcode, the decoder, and the
//! encoder that the decoder inverts.
//!
//! An opcode word is matched against a table of bit patterns, of which at most
//! one fits; the operand fields are then cut out of the word. A second word
//! completes the four two-word instructions.

use crate::bits::{bit16, bit8, set_bit16, set_bit8, test_bit16, test_bit8, write_bit16, write_bit8};
use vstd::prelude::*;

verus! {

/// A decoded instruction with its operands.
///
/// `d` is a destination register, `r` a source register, `K` constant data,
/// `k` a constant address or offset, `b` a bit position in a register, `s` a
/// bit position in the status register, `A` an I/O address and `q` a
/// displacement.
#[allow(non_snake_case)]
#[allow(inconsistent_fields)]
#[derive(Clone, Copy, Debug, PartialEq, Eq, Structural)]
pub enum Instruction {
    NOP,
    ADC { d: u8, r: u8 },
    ADD { d: u8, r: u8 },
    ADIW { d: u8, K: u8 },
    AND { d: u8, r: u8 },
    ANDI { d: u8, K: u8 },
    ASR { d: u8 },
    BCLR { s: u8 },
    BLD { d: u8, b: u8 },
    BRBC { s: u8, k: i8 },
    BRBS { s: u8, k: i8 },
    BREAK,
    BSET { s: u8 },
    BST { d: u8, b: u8 },
    CALL { k: u32 },
    CBI { A: u8, b: u8 },
    COM { d: u8 },
    CP { d: u8, r: u8 },
    CPC { d: u8, r: u8 },
    CPI { d: u8, K: u8 },
    CPSE { d: u8, r: u8 },
    DEC { d: u8 },
    EOR { d: u8, r: u8 },
    FMUL { d: u8, r: u8 },
    FMULS { d: u8, r: u8 },
    FMULSU { d: u8, r: u8 },
    ICALL,
    IJMP,
    IN { d: u8, A: u8 },
    INC { d: u8 },
    JMP { k: u32 },
    LDX { d: u8 },
    LDXinc { d: u8 },
    LDXdec { d: u8 },
    LDYinc { d: u8 },
    LDYdec { d: u8 },
    LDZinc { d: u8 },
    LDZdec { d: u8 },
    LDDY { d: u8, q: u8 },
    LDDZ { d: u8, q: u8 },
    LDI { d: u8, K: u8 },
    LDS { d: u8, k: u16 },
    LPM,
    LPMZ { d: u8 },
    LPMZinc { d: u8 },
    LSL { d: u8 },
    LSR { d: u8 },
    MOV { d: u8, r: u8 },
    MOVW { d: u8, r: u8 },
    MUL { d: u8, r: u8 },
    MULS { d: u8, r: u8 },
    MULSU { d: u8, r: u8 },
    NEG { d: u8 },
    OR { d: u8, r: u8 },
    ORI { d: u8, K: u8 },
    OUT { A: u8, r: u8 },
    POP { d: u8 },
    PUSH { d: u8 },
    RCALL { k: i16 },
    RET,
    RETI,
    RJMP { k: i16 },
    ROR { d: u8 },
    SBC { d: u8, r: u8 },
    SBCI { d: u8, K: u8 },
    SBI { A: u8, b: u8 },
    SBIC { A: u8, b: u8 },
    SBIS { A: u8, b: u8 },
    SBIW { d: u8, K: u8 },
    SBRC { r: u8, b: u8 },
    SBRS { r: u8, b: u8 },
    SLEEP,
    STX { r: u8 },
    STXdec { r: u8 },
    STXinc { r: u8 },
    STYdec { r: u8 },
    STYinc { r: u8 },
    STZdec { r: u8 },
    STZinc { r: u8 },
    STDY { q: u8, r: u8 },
    STDZ { q: u8, r: u8 },
    STS { k: u16, r: u8 },
    SUB { d: u8, r: u8 },
    SUBI { d: u8, K: u8 },
    SWAP { d: u8 },
    WDR,
    UNDEF,
}

impl Instruction {
    /// Every operand lies in the range that its instruction's encoding has
    /// room for.
    pub open spec fn wf(self) -> bool {
        match self {
            Instruction::ADC { d, r }
            | Instruction::ADD { d, r }
            | Instruction::AND { d, r }
            | Instruction::CP { d, r }
            | Instruction::CPC { d, r }
            | Instruction::CPSE { d, r }
            | Instruction::EOR { d, r }
            | Instruction::MOV { d, r }
            | Instruction::MUL { d, r }
            | Instruction::OR { d, r }
            | Instruction::SBC { d, r }
            | Instruction::SUB { d, r } => d < 32 && r < 32,
            Instruction::ADIW { d, K }
            | Instruction::SBIW { d, K } => (d == 24 || d == 26 || d == 28 || d == 30) && K < 64,
            Instruction::ANDI { d, .. }
            | Instruction::CPI { d, .. }
            | Instruction::LDI { d, .. }
            | Instruction::ORI { d, .. }
            | Instruction::SBCI { d, .. }
            | Instruction::SUBI { d, .. } => 16 <= d < 32,
            Instruction::ASR { d }
            | Instruction::COM { d }
            | Instruction::DEC { d }
            | Instruction::INC { d }
            | Instruction::LDX { d }
            | Instruction::LDXinc { d }
            | Instruction::LDXdec { d }
            | Instruction::LDYinc { d }
            | Instruction::LDYdec { d }
            | Instruction::LDZinc { d }
            | Instruction::LDZdec { d }
            | Instruction::LDS { d, .. }
            | Instruction::LPMZ { d }
            | Instruction::LPMZinc { d }
            | Instruction::LSR { d }
            | Instruction::NEG { d }
            | Instruction::POP { d }
            | Instruction::PUSH { d }
            | Instruction::ROR { d }
            | Instruction::SWAP { d }
            | Instruction::LSL { d } => d < 32,
            Instruction::BCLR { s }
            | Instruction::BSET { s } => s < 8,
            Instruction::BLD { d, b }
            | Instruction::BST { d, b } => d < 32 && b < 8,
            Instruction::BRBC { s, k }
            | Instruction::BRBS { s, k } => s < 8 && -64 <= k < 64,
            Instruction::CALL { k }
            | Instruction::JMP { k } => k < 0x40_0000,
            Instruction::CBI { A, b }
            | Instruction::SBI { A, b }
            | Instruction::SBIC { A, b }
            | Instruction::SBIS { A, b } => A < 32 && b < 8,
            Instruction::FMUL { d, r }
            | Instruction::FMULS { d, r }
            | Instruction::FMULSU { d, r }
            | Instruction::MULSU { d, r } => 16 <= d < 24 && 16 <= r < 24,
            Instruction::IN { d, A } => d < 32 && A < 64,
            Instruction::LDDY { d, q }
            | Instruction::LDDZ { d, q } => d < 32 && q < 64,
            Instruction::MOVW { d, r } => d < 32 && d % 2 == 0 && r < 32 && r % 2 == 0,
            Instruction::MULS { d, r } => 16 <= d < 32 && 16 <= r < 32,
            Instruction::OUT { A, r } => A < 64 && r < 32,
            Instruction::RCALL { k }
            | Instruction::RJMP { k } => -2048 <= k < 2048,
            Instruction::SBRC { r, b }
            | Instruction::SBRS { r, b } => r < 32 && b < 8,
            Instruction::STX { r }
            | Instruction::STXdec { r }
            | Instruction::STXinc { r }
            | Instruction::STYdec { r }
            | Instruction::STYinc { r }
            | Instruction::STZdec { r }
            | Instruction::STZinc { r }
            | Instruction::STS { r, .. } => r < 32,
            Instruction::STDY { q, r }
            | Instruction::STDZ { q, r } => q < 64 && r < 32,
            _ => true,
        }
    }

    /// True for the four instructions that occupy two program words.
    pub open spec fn is_two_words(self) -> bool {
        self is CALL || self is JMP || self is LDS || self is STS
    }

    /// True for the four instructions that occupy two program words.
    pub fn two_words(&self) -> (b: bool)
        ensures
            b == self.is_two_words(),
    {
        match self {
            Instruction::CALL { .. }
            | Instruction::JMP { .. }
            | Instruction::LDS { .. }
            | Instruction::STS { .. } => true,
            _ => false,
        }
    }
}

/// The row of the pattern table that an opcode word falls under, one constant
/// for each instruction, and `KIND_UNDEF` for words that fit no row.
pub const KIND_NOP: u8 = 0;
pub const KIND_ADC: u8 = 1;
pub const KIND_ADD: u8 = 2;
pub const KIND_ADIW: u8 = 3;
pub const KIND_AND: u8 = 4;
pub const KIND_ANDI: u8 = 5;
pub const KIND_ASR: u8 = 6;
pub const KIND_BCLR: u8 = 7;
pub const KIND_BLD: u8 = 8;
pub const KIND_BRBC: u8 = 9;
pub const KIND_BRBS: u8 = 10;
pub const KIND_BREAK: u8 = 11;
pub const KIND_BSET: u8 = 12;
pub const KIND_BST: u8 = 13;
pub const KIND_CALL: u8 = 14;
pub const KIND_CBI: u8 = 15;
pub const KIND_COM: u8 = 16;
pub const KIND_CP: u8 = 17;
pub const KIND_CPC: u8 = 18;
pub const KIND_CPI: u8 = 19;
pub const KIND_CPSE: u8 = 20;
pub const KIND_DEC: u8 = 21;
pub const KIND_EOR: u8 = 22;
pub const KIND_FMUL: u8 = 23;
pub const KIND_FMULS: u8 = 24;
pub const KIND_FMULSU: u8 = 25;
pub const KIND_ICALL: u8 = 26;
pub const KIND_IJMP: u8 = 27;
pub const KIND_IN: u8 = 28;
pub const KIND_INC: u8 = 29;
pub const KIND_JMP: u8 = 30;
pub const KIND_LDX: u8 = 31;
pub const KIND_LDXINC: u8 = 32;
pub const KIND_LDXDEC: u8 = 33;
pub const KIND_LDYINC: u8 = 34;
pub const KIND_LDYDEC: u8 = 35;
pub const KIND_LDZINC: u8 = 36;
pub const KIND_LDZDEC: u8 = 37;
pub const KIND_LDDY: u8 = 38;
pub const KIND_LDDZ: u8 = 39;
pub const KIND_LDI: u8 = 40;
pub const KIND_LDS: u8 = 41;
pub const KIND_LPM: u8 = 42;
pub const KIND_LPMZ: u8 = 43;
pub const KIND_LPMZINC: u8 = 44;
pub const KIND_LSR: u8 = 45;
pub const KIND_MOV: u8 = 46;
pub const KIND_MOVW: u8 = 47;
pub const KIND_MUL: u8 = 48;
pub const KIND_MULS: u8 = 49;
pub const KIND_MULSU: u8 = 50;
pub const KIND_NEG: u8 = 51;
pub const KIND_OR: u8 = 52;
pub const KIND_ORI: u8 = 53;
pub const KIND_OUT: u8 = 54;
pub const KIND_POP: u8 = 55;
pub const KIND_PUSH: u8 = 56;
pub const KIND_RCALL: u8 = 57;
pub const KIND_RET: u8 = 58;
pub const KIND_RETI: u8 = 59;
pub const KIND_RJMP: u8 = 60;
pub const KIND_ROR: u8 = 61;
pub const KIND_SBC: u8 = 62;
pub const KIND_SBCI: u8 = 63;
pub const KIND_SBI: u8 = 64;
pub const KIND_SBIC: u8 = 65;
pub const KIND_SBIS: u8 = 66;
pub const KIND_SBIW: u8 = 67;
pub const KIND_SBRC: u8 = 68;
pub const KIND_SBRS: u8 = 69;
pub const KIND_SLEEP: u8 = 70;
pub const KIND_STX: u8 = 71;
pub const KIND_STXDEC: u8 = 72;
pub const KIND_STXINC: u8 = 73;
pub const KIND_STYDEC: u8 = 74;
pub const KIND_STYINC: u8 = 75;
pub const KIND_STZDEC: u8 = 76;
pub const KIND_STZINC: u8 = 77;
pub const KIND_STDY: u8 = 78;
pub const KIND_STDZ: u8 = 79;
pub const KIND_STS: u8 = 80;
pub const KIND_SUB: u8 = 81;
pub const KIND_SUBI: u8 = 82;
pub const KIND_SWAP: u8 = 83;
pub const KIND_WDR: u8 = 84;
pub const KIND_UNDEF: u8 = 255;

/// The register number in bits 8 to 4.
#[verifier::allow_in_spec]
pub fn field_reg(op: u16) -> u8
    returns
        ((op >> 4) & 0x1F) as u8,
{
    ((op >> 4) & 0x1F) as u8
}

/// The source register number: bit 9, then bits 3 to 0.
#[verifier::allow_in_spec]
pub fn field_reg_src(op: u16) -> u8
    returns
        (((op >> 5) & 0x10) | (op & 0x0F)) as u8,
{
    (((op >> 5) & 0x10) | (op & 0x0F)) as u8
}

/// The low register of R25:R24, X, Y or Z, selected by bits 5 and 4.
#[verifier::allow_in_spec]
pub fn field_pair(op: u16) -> u8
    returns
        (((op >> 3) & 0x06) | 0x18) as u8,
{
    (((op >> 3) & 0x06) | 0x18) as u8
}

/// The six-bit constant: bits 7 and 6, then bits 3 to 0.
#[verifier::allow_in_spec]
pub fn field_imm6(op: u16) -> u8
    returns
        (((op >> 2) & 0x30) | (op & 0x0F)) as u8,
{
    (((op >> 2) & 0x30) | (op & 0x0F)) as u8
}

/// One of R16 to R31, selected by bits 7 to 4.
#[verifier::allow_in_spec]
pub fn field_upper_d(op: u16) -> u8
    returns
        (((op >> 4) & 0x0F) | 0x10) as u8,
{
    (((op >> 4) & 0x0F) | 0x10) as u8
}

/// The eight-bit constant: bits 11 to 8, then bits 3 to 0.
#[verifier::allow_in_spec]
pub fn field_imm8(op: u16) -> u8
    returns
        (((op >> 4) & 0xF0) | (op & 0x0F)) as u8,
{
    (((op >> 4) & 0xF0) | (op & 0x0F)) as u8
}

/// The status flag position in bits 6 to 4.
#[verifier::allow_in_spec]
pub fn field_flag(op: u16) -> u8
    returns
        ((op >> 4) & 0x07) as u8,
{
    ((op >> 4) & 0x07) as u8
}

/// The bit position in bits 2 to 0.
#[verifier::allow_in_spec]
pub fn field_bit(op: u16) -> u8
    returns
        (op & 0x07) as u8,
{
    (op & 0x07) as u8
}

/// The seven-bit branch offset in bits 9 to 3, before sign extension.
#[verifier::allow_in_spec]
pub fn field_branch(op: u16) -> u8
    returns
        ((op >> 3) & 0x7F) as u8,
{
    ((op >> 3) & 0x7F) as u8
}

/// The upper six bits of an absolute address: bits 8 to 4, then bit 0.
#[verifier::allow_in_spec]
pub fn field_jump(op: u16) -> u8
    returns
        (((op >> 3) & 0x3E) | (op & 0x01)) as u8,
{
    (((op >> 3) & 0x3E) | (op & 0x01)) as u8
}

/// The five-bit I/O address in bits 7 to 3.
#[verifier::allow_in_spec]
pub fn field_io5(op: u16) -> u8
    returns
        ((op >> 3) & 0x1F) as u8,
{
    ((op >> 3) & 0x1F) as u8
}

/// One of R16 to R23, selected by bits 6 to 4.
#[verifier::allow_in_spec]
pub fn field_mul_d(op: u16) -> u8
    returns
        (((op >> 4) & 0x07) | 0x10) as u8,
{
    (((op >> 4) & 0x07) | 0x10) as u8
}

/// One of R16 to R23, selected by bits 2 to 0.
#[verifier::allow_in_spec]
pub fn field_mul_r(op: u16) -> u8
    returns
        ((op & 0x07) | 0x10) as u8,
{
    ((op & 0x07) | 0x10) as u8
}

/// The six-bit I/O address: bits 10 and 9, then bits 3 to 0.
#[verifier::allow_in_spec]
pub fn field_io6(op: u16) -> u8
    returns
        (((op >> 5) & 0x30) | (op & 0x0F)) as u8,
{
    (((op >> 5) & 0x30) | (op & 0x0F)) as u8
}

/// The six-bit displacement: bit 13, bits 11 and 10, bits 2 to 0.
#[verifier::allow_in_spec]
pub fn field_disp(op: u16) -> u8
    returns
        (((op >> 8) & 0x20) | ((op >> 7) & 0x18) | (op & 0x07)) as u8,
{
    (((op >> 8) & 0x20) | ((op >> 7) & 0x18) | (op & 0x07)) as u8
}

/// The low register of an even pair, selected by bits 7 to 4.
#[verifier::allow_in_spec]
pub fn field_word_d(op: u16) -> u8
    returns
        ((op >> 3) & 0x1E) as u8,
{
    ((op >> 3) & 0x1E) as u8
}

/// The low register of an even pair, selected by bits 3 to 0.
#[verifier::allow_in_spec]
pub fn field_word_r(op: u16) -> u8
    returns
        ((op << 1) & 0x1E) as u8,
{
    ((op << 1) & 0x1E) as u8
}

/// One of R16 to R31, selected by bits 3 to 0.
#[verifier::allow_in_spec]
pub fn field_upper_r(op: u16) -> u8
    returns
        ((op & 0x0F) | 0x10) as u8,
{
    ((op & 0x0F) | 0x10) as u8
}

/// The twelve-bit relative offset in bits 11 to 0, before sign extension.
#[verifier::allow_in_spec]
pub fn field_rel(op: u16) -> u16
    returns
        op & 0x0FFF,
{
    op & 0x0FFF
}

/// A seven-bit two's-complement number widened to eight bits: bit 6 is copied
/// into bit 7.
pub open spec fn sign_extended7(k: u8) -> i8 {
    set_bit8(k, 7, bit8(k, 6)) as i8
}

/// A twelve-bit two's-complement number widened to sixteen bits: bit 11 is
/// copied into bits 12 to 15.
pub open spec fn sign_extended12(k: u16) -> i16 {
    let sign = bit16(k, 11);
    set_bit16(set_bit16(set_bit16(set_bit16(k, 12, sign), 13, sign), 14, sign), 15, sign) as i16
}

/// Widens a seven-bit two's-complement number.
pub fn sign_extend7(k: u8) -> (r: i8)
    ensures
        r == sign_extended7(k),
{
    let sign = test_bit8(k, 6);
    write_bit8(k, 7, sign) as i8
}

/// Widens a twelve-bit two's-complement number.
pub fn sign_extend12(k: u16) -> (r: i16)
    ensures
        r == sign_extended12(k),
{
    let sign = test_bit16(k, 11);
    let k = write_bit16(k, 12, sign);
    let k = write_bit16(k, 13, sign);
    let k = write_bit16(k, 14, sign);
    write_bit16(k, 15, sign) as i16
}

/// The 22-bit address of a two-word jump: six bits from the opcode above the
/// sixteen bits of the second word.
#[verifier::allow_in_spec]
pub fn long_address(op: u16, prefetch: u16) -> u32
    returns
        ((field_jump(op) as u32) << 16) | (prefetch as u32),
{
    ((field_jump(op) as u32) << 16) | (prefetch as u32)
}

/// The row of the pattern table that `op` falls under. Each row fixes some
/// bits of the word and leaves the others to the operands; no word fits two
/// rows.
#[verifier::allow_in_spec]
pub fn pattern_of(op: u16) -> u8
    returns
        
        (if op == 0x0000 {
            KIND_NOP
        } else if op & 0xFC00 == 0x1C00 {
            KIND_ADC
        } else if op & 0xFC00 == 0x0C00 {
            KIND_ADD
        } else if op & 0xFF00 == 0x9600 {
            KIND_ADIW
        } else if op & 0xFC00 == 0x2000 {
            KIND_AND
        } else if op & 0xF000 == 0x7000 {
            KIND_ANDI
        } else if op & 0xFE0F == 0x9405 {
            KIND_ASR
        } else if op & 0xFF8F == 0x9488 {
            KIND_BCLR
        } else if op & 0xFE08 == 0xF800 {
            KIND_BLD
        } else if op & 0xFC00 == 0xF400 {
            KIND_BRBC
        } else if op & 0xFC00 == 0xF000 {
            KIND_BRBS
        } else if op == 0x9598 {
            KIND_BREAK
        } else if op & 0xFF8F == 0x9408 {
            KIND_BSET
        } else if op & 0xFE08 == 0xFA00 {
            KIND_BST
        } else if op & 0xFE0E == 0x940E {
            KIND_CALL
        } else if op & 0xFF00 == 0x9800 {
            KIND_CBI
        } else if op & 0xFE0F == 0x9400 {
            KIND_COM
        } else if op & 0xFC00 == 0x1400 {
            KIND_CP
        } else if op & 0xFC00 == 0x0400 {
            KIND_CPC
        } else if op & 0xF000 == 0x3000 {
            KIND_CPI
        } else if op & 0xFC00 == 0x1000 {
            KIND_CPSE
        } else if op & 0xFE0F == 0x940A {
            KIND_DEC
        } else if op & 0xFC00 == 0x2400 {
            KIND_EOR
        } else if op & 0xFF88 == 0x0308 {
            KIND_FMUL
        } else if op & 0xFF88 == 0x0380 {
            KIND_FMULS
        } else if op & 0xFF88 == 0x0388 {
            KIND_FMULSU
        } else if op == 0x9509 {
            KIND_ICALL
        } else if op == 0x9409 {
            KIND_IJMP
        } else if op & 0xF800 == 0xB000 {
            KIND_IN
        } else if op & 0xFE0F == 0x9403 {
            KIND_INC
        } else if op & 0xFE0E == 0x940C {
            KIND_JMP
        } else if op & 0xFE0F == 0x900C {
            KIND_LDX
        } else if op & 0xFE0F == 0x900D {
            KIND_LDXINC
        } else if op & 0xFE0F == 0x900E {
            KIND_LDXDEC
        } else if op & 0xFE0F == 0x9009 {
            KIND_LDYINC
        } else if op & 0xFE0F == 0x900A {
            KIND_LDYDEC
        } else if op & 0xFE0F == 0x9001 {
            KIND_LDZINC
        } else if op & 0xFE0F == 0x9002 {
            KIND_LDZDEC
        } else if op & 0xD208 == 0x8008 {
            KIND_LDDY
        } else if op & 0xD208 == 0x8000 {
            KIND_LDDZ
        } else if op & 0xF000 == 0xE000 {
            KIND_LDI
        } else if op & 0xFE0F == 0x9000 {
            KIND_LDS
        } else if op == 0x95C8 {
            KIND_LPM
        } else if op & 0xFE0F == 0x9004 {
            KIND_LPMZ
        } else if op & 0xFE0F == 0x9005 {
            KIND_LPMZINC
        } else if op & 0xFE0F == 0x9406 {
            KIND_LSR
        } else if op & 0xFC00 == 0x2C00 {
            KIND_MOV
        } else if op & 0xFF00 == 0x0100 {
            KIND_MOVW
        } else if op & 0xFC00 == 0x9C00 {
            KIND_MUL
        } else if op & 0xFF00 == 0x0200 {
            KIND_MULS
        } else if op & 0xFF88 == 0x0300 {
            KIND_MULSU
        } else if op & 0xFE0F == 0x9401 {
            KIND_NEG
        } else if op & 0xFC00 == 0x2800 {
            KIND_OR
        } else if op & 0xF000 == 0x6000 {
            KIND_ORI
        } else if op & 0xF800 == 0xB800 {
            KIND_OUT
        } else if op & 0xFE0F == 0x900F {
            KIND_POP
        } else if op & 0xFE0F == 0x920F {
            KIND_PUSH
        } else if op & 0xF000 == 0xD000 {
            KIND_RCALL
        } else if op == 0x9508 {
            KIND_RET
        } else if op == 0x9518 {
            KIND_RETI
        } else if op & 0xF000 == 0xC000 {
            KIND_RJMP
        } else if op & 0xFE0F == 0x9407 {
            KIND_ROR
        } else if op & 0xFC00 == 0x0800 {
            KIND_SBC
        } else if op & 0xF000 == 0x4000 {
            KIND_SBCI
        } else if op & 0xFF00 == 0x9A00 {
            KIND_SBI
        } else if op & 0xFF00 == 0x9900 {
            KIND_SBIC
        } else if op & 0xFF00 == 0x9B00 {
            KIND_SBIS
        } else if op & 0xFF00 == 0x9700 {
            KIND_SBIW
        } else if op & 0xFE08 == 0xFC00 {
            KIND_SBRC
        } else if op & 0xFE08 == 0xFE00 {
            KIND_SBRS
        } else if op == 0x9588 {
            KIND_SLEEP
        } else if op & 0xFE0F == 0x920C {
            KIND_STX
        } else if op & 0xFE0F == 0x920E {
            KIND_STXDEC
        } else if op & 0xFE0F == 0x920D {
            KIND_STXINC
        } else if op & 0xFE0F == 0x920A {
            KIND_STYDEC
        } else if op & 0xFE0F == 0x9209 {
            KIND_STYINC
        } else if op & 0xFE0F == 0x9202 {
            KIND_STZDEC
        } else if op & 0xFE0F == 0x9201 {
            KIND_STZINC
        } else if op & 0xD208 == 0x8208 {
            KIND_STDY
        } else if op & 0xD208 == 0x8200 {
            KIND_STDZ
        } else if op & 0xFE0F == 0x9200 {
            KIND_STS
        } else if op & 0xFC00 == 0x1800 {
            KIND_SUB
        } else if op & 0xF000 == 0x5000 {
            KIND_SUBI
        } else if op & 0xFE0F == 0x9402 {
            KIND_SWAP
        } else if op == 0x95A8 {
            KIND_WDR
        } else {
            KIND_UNDEF
        }),
{
    if op == 0x0000 {
        KIND_NOP
    } else if op & 0xFC00 == 0x1C00 {
        KIND_ADC
    } else if op & 0xFC00 == 0x0C00 {
        KIND_ADD
    } else if op & 0xFF00 == 0x9600 {
        KIND_ADIW
    } else if op & 0xFC00 == 0x2000 {
        KIND_AND
    } else if op & 0xF000 == 0x7000 {
        KIND_ANDI
    } else if op & 0xFE0F == 0x9405 {
        KIND_ASR
    } else if op & 0xFF8F == 0x9488 {
        KIND_BCLR
    } else if op & 0xFE08 == 0xF800 {
        KIND_BLD
    } else if op & 0xFC00 == 0xF400 {
        KIND_BRBC
    } else if op & 0xFC00 == 0xF000 {
        KIND_BRBS
    } else if op == 0x9598 {
        KIND_BREAK
    } else if op & 0xFF8F == 0x9408 {
        KIND_BSET
    } else if op & 0xFE08 == 0xFA00 {
        KIND_BST
    } else if op & 0xFE0E == 0x940E {
        KIND_CALL
    } else if op & 0xFF00 == 0x9800 {
        KIND_CBI
    } else if op & 0xFE0F == 0x9400 {
        KIND_COM
    } else if op & 0xFC00 == 0x1400 {
        KIND_CP
    } else if op & 0xFC00 == 0x0400 {
        KIND_CPC
    } else if op & 0xF000 == 0x3000 {
        KIND_CPI
    } else if op & 0xFC00 == 0x1000 {
        KIND_CPSE
    } else if op & 0xFE0F == 0x940A {
        KIND_DEC
    } else if op & 0xFC00 == 0x2400 {
        KIND_EOR
    } else if op & 0xFF88 == 0x0308 {
        KIND_FMUL
    } else if op & 0xFF88 == 0x0380 {
        KIND_FMULS
    } else if op & 0xFF88 == 0x0388 {
        KIND_FMULSU
    } else if op == 0x9509 {
        KIND_ICALL
    } else if op == 0x9409 {
        KIND_IJMP
    } else if op & 0xF800 == 0xB000 {
        KIND_IN
    } else if op & 0xFE0F == 0x9403 {
        KIND_INC
    } else if op & 0xFE0E == 0x940C {
        KIND_JMP
    } else if op & 0xFE0F == 0x900C {
        KIND_LDX
    } else if op & 0xFE0F == 0x900D {
        KIND_LDXINC
    } else if op & 0xFE0F == 0x900E {
        KIND_LDXDEC
    } else if op & 0xFE0F == 0x9009 {
        KIND_LDYINC
    } else if op & 0xFE0F == 0x900A {
        KIND_LDYDEC
    } else if op & 0xFE0F == 0x9001 {
        KIND_LDZINC
    } else if op & 0xFE0F == 0x9002 {
        KIND_LDZDEC
    } else if op & 0xD208 == 0x8008 {
        KIND_LDDY
    } else if op & 0xD208 == 0x8000 {
        KIND_LDDZ
    } else if op & 0xF000 == 0xE000 {
        KIND_LDI
    } else if op & 0xFE0F == 0x9000 {
        KIND_LDS
    } else if op == 0x95C8 {
        KIND_LPM
    } else if op & 0xFE0F == 0x9004 {
        KIND_LPMZ
    } else if op & 0xFE0F == 0x9005 {
        KIND_LPMZINC
    } else if op & 0xFE0F == 0x9406 {
        KIND_LSR
    } else if op & 0xFC00 == 0x2C00 {
        KIND_MOV
    } else if op & 0xFF00 == 0x0100 {
        KIND_MOVW
    } else if op & 0xFC00 == 0x9C00 {
        KIND_MUL
    } else if op & 0xFF00 == 0x0200 {
        KIND_MULS
    } else if op & 0xFF88 == 0x0300 {
        KIND_MULSU
    } else if op & 0xFE0F == 0x9401 {
        KIND_NEG
    } else if op & 0xFC00 == 0x2800 {
        KIND_OR
    } else if op & 0xF000 == 0x6000 {
        KIND_ORI
    } else if op & 0xF800 == 0xB800 {
        KIND_OUT
    } else if op & 0xFE0F == 0x900F {
        KIND_POP
    } else if op & 0xFE0F == 0x920F {
        KIND_PUSH
    } else if op & 0xF000 == 0xD000 {
        KIND_RCALL
    } else if op == 0x9508 {
        KIND_RET
    } else if op == 0x9518 {
        KIND_RETI
    } else if op & 0xF000 == 0xC000 {
        KIND_RJMP
    } else if op & 0xFE0F == 0x9407 {
        KIND_ROR
    } else if op & 0xFC00 == 0x0800 {
        KIND_SBC
    } else if op & 0xF000 == 0x4000 {
        KIND_SBCI
    } else if op & 0xFF00 == 0x9A00 {
        KIND_SBI
    } else if op & 0xFF00 == 0x9900 {
        KIND_SBIC
    } else if op & 0xFF00 == 0x9B00 {
        KIND_SBIS
    } else if op & 0xFF00 == 0x9700 {
        KIND_SBIW
    } else if op & 0xFE08 == 0xFC00 {
        KIND_SBRC
    } else if op & 0xFE08 == 0xFE00 {
        KIND_SBRS
    } else if op == 0x9588 {
        KIND_SLEEP
    } else if op & 0xFE0F == 0x920C {
        KIND_STX
    } else if op & 0xFE0F == 0x920E {
        KIND_STXDEC
    } else if op & 0xFE0F == 0x920D {
        KIND_STXINC
    } else if op & 0xFE0F == 0x920A {
        KIND_STYDEC
    } else if op & 0xFE0F == 0x9209 {
        KIND_STYINC
    } else if op & 0xFE0F == 0x9202 {
        KIND_STZDEC
    } else if op & 0xFE0F == 0x9201 {
        KIND_STZINC
    } else if op & 0xD208 == 0x8208 {
        KIND_STDY
    } else if op & 0xD208 == 0x8200 {
        KIND_STDZ
    } else if op & 0xFE0F == 0x9200 {
        KIND_STS
    } else if op & 0xFC00 == 0x1800 {
        KIND_SUB
    } else if op & 0xF000 == 0x5000 {
        KIND_SUBI
    } else if op & 0xFE0F == 0x9402 {
        KIND_SWAP
    } else if op == 0x95A8 {
        KIND_WDR
    } else {
        KIND_UNDEF
    }
}

/// The instruction that an opcode word and the program word after it stand
/// for. Words that fit no pattern give `UNDEF`.
pub open spec fn decode_spec(opcode: u16, prefetch: u16) -> Instruction {
    let kind = pattern_of(opcode);
    if kind == KIND_NOP {
        Instruction::NOP
    } else if kind == KIND_ADC {
        Instruction::ADC { d: field_reg(opcode), r: field_reg_src(opcode) }
    } else if kind == KIND_ADD {
        Instruction::ADD { d: field_reg(opcode), r: field_reg_src(opcode) }
    } else if kind == KIND_ADIW {
        Instruction::ADIW { d: field_pair(opcode), K: field_imm6(opcode) }
    } else if kind == KIND_AND {
        Instruction::AND { d: field_reg(opcode), r: field_reg_src(opcode) }
    } else if kind == KIND_ANDI {
        Instruction::ANDI { d: field_upper_d(opcode), K: field_imm8(opcode) }
    } else if kind == KIND_ASR {
        Instruction::ASR { d: field_reg(opcode) }
    } else if kind == KIND_BCLR {
        Instruction::BCLR { s: field_flag(opcode) }
    } else if kind == KIND_BLD {
        Instruction::BLD { d: field_reg(opcode), b: field_bit(opcode) }
    } else if kind == KIND_BRBC {
        Instruction::BRBC { s: field_bit(opcode), k: sign_extended7(field_branch(opcode)) }
    } else if kind == KIND_BRBS {
        Instruction::BRBS { s: field_bit(opcode), k: sign_extended7(field_branch(opcode)) }
    } else if kind == KIND_BREAK {
        Instruction::BREAK
    } else if kind == KIND_BSET {
        Instruction::BSET { s: field_flag(opcode) }
    } else if kind == KIND_BST {
        Instruction::BST { d: field_reg(opcode), b: field_bit(opcode) }
    } else if kind == KIND_CALL {
        Instruction::CALL { k: long_address(opcode, prefetch) }
    } else if kind == KIND_CBI {
        Instruction::CBI { A: field_io5(opcode), b: field_bit(opcode) }
    } else if kind == KIND_COM {
        Instruction::COM { d: field_reg(opcode) }
    } else if kind == KIND_CP {
        Instruction::CP { d: field_reg(opcode), r: field_reg_src(opcode) }
    } else if kind == KIND_CPC {
        Instruction::CPC { d: field_reg(opcode), r: field_reg_src(opcode) }
    } else if kind == KIND_CPI {
        Instruction::CPI { d: field_upper_d(opcode), K: field_imm8(opcode) }
    } else if kind == KIND_CPSE {
        Instruction::CPSE { d: field_reg(opcode), r: field_reg_src(opcode) }
    } else if kind == KIND_DEC {
        Instruction::DEC { d: field_reg(opcode) }
    } else if kind == KIND_EOR {
        Instruction::EOR { d: field_reg(opcode), r: field_reg_src(opcode) }
    } else if kind == KIND_FMUL {
        Instruction::FMUL { d: field_mul_d(opcode), r: field_mul_r(opcode) }
    } else if kind == KIND_FMULS {
        Instruction::FMULS { d: field_mul_d(opcode), r: field_mul_r(opcode) }
    } else if kind == KIND_FMULSU {
        Instruction::FMULSU { d: field_mul_d(opcode), r: field_mul_r(opcode) }
    } else if kind == KIND_ICALL {
        Instruction::ICALL
    } else if kind == KIND_IJMP {
        Instruction::IJMP
    } else if kind == KIND_IN {
        Instruction::IN { d: field_reg(opcode), A: field_io6(opcode) }
    } else if kind == KIND_INC {
        Instruction::INC { d: field_reg(opcode) }
    } else if kind == KIND_JMP {
        Instruction::JMP { k: long_address(opcode, prefetch) }
    } else if kind == KIND_LDX {
        Instruction::LDX { d: field_reg(opcode) }
    } else if kind == KIND_LDXINC {
        Instruction::LDXinc { d: field_reg(opcode) }
    } else if kind == KIND_LDXDEC {
        Instruction::LDXdec { d: field_reg(opcode) }
    } else if kind == KIND_LDYINC {
        Instruction::LDYinc { d: field_reg(opcode) }
    } else if kind == KIND_LDYDEC {
        Instruction::LDYdec { d: field_reg(opcode) }
    } else if kind == KIND_LDZINC {
        Instruction::LDZinc { d: field_reg(opcode) }
    } else if kind == KIND_LDZDEC {
        Instruction::LDZdec { d: field_reg(opcode) }
    } else if kind == KIND_LDDY {
        Instruction::LDDY { d: field_reg(opcode), q: field_disp(opcode) }
    } else if kind == KIND_LDDZ {
        Instruction::LDDZ { d: field_reg(opcode), q: field_disp(opcode) }
    } else if kind == KIND_LDI {
        Instruction::LDI { d: field_upper_d(opcode), K: field_imm8(opcode) }
    } else if kind == KIND_LDS {
        Instruction::LDS { d: field_reg(opcode), k: prefetch }
    } else if kind == KIND_LPM {
        Instruction::LPM
    } else if kind == KIND_LPMZ {
        Instruction::LPMZ { d: field_reg(opcode) }
    } else if kind == KIND_LPMZINC {
        Instruction::LPMZinc { d: field_reg(opcode) }
    } else if kind == KIND_LSR {
        Instruction::LSR { d: field_reg(opcode) }
    } else if kind == KIND_MOV {
        Instruction::MOV { d: field_reg(opcode), r: field_reg_src(opcode) }
    } else if kind == KIND_MOVW {
        Instruction::MOVW { d: field_word_d(opcode), r: field_word_r(opcode) }
    } else if kind == KIND_MUL {
        Instruction::MUL { d: field_reg(opcode), r: field_reg_src(opcode) }
    } else if kind == KIND_MULS {
        Instruction::MULS { d: field_upper_d(opcode), r: field_upper_r(opcode) }
    } else if kind == KIND_MULSU {
        Instruction::MULSU { d: field_mul_d(opcode), r: field_mul_r(opcode) }
    } else if kind == KIND_NEG {
        Instruction::NEG { d: field_reg(opcode) }
    } else if kind == KIND_OR {
        Instruction::OR { d: field_reg(opcode), r: field_reg_src(opcode) }
    } else if kind == KIND_ORI {
        Instruction::ORI { d: field_upper_d(opcode), K: field_imm8(opcode) }
    } else if kind == KIND_OUT {
        Instruction::OUT { A: field_io6(opcode), r: field_reg(opcode) }
    } else if kind == KIND_POP {
        Instruction::POP { d: field_reg(opcode) }
    } else if kind == KIND_PUSH {
        Instruction::PUSH { d: field_reg(opcode) }
    } else if kind == KIND_RCALL {
        Instruction::RCALL { k: sign_extended12(field_rel(opcode)) }
    } else if kind == KIND_RET {
        Instruction::RET
    } else if kind == KIND_RETI {
        Instruction::RETI
    } else if kind == KIND_RJMP {
        Instruction::RJMP { k: sign_extended12(field_rel(opcode)) }
    } else if kind == KIND_ROR {
        Instruction::ROR { d: field_reg(opcode) }
    } else if kind == KIND_SBC {
        Instruction::SBC { d: field_reg(opcode), r: field_reg_src(opcode) }
    } else if kind == KIND_SBCI {
        Instruction::SBCI { d: field_upper_d(opcode), K: field_imm8(opcode) }
    } else if kind == KIND_SBI {
        Instruction::SBI { A: field_io5(opcode), b: field_bit(opcode) }
    } else if kind == KIND_SBIC {
        Instruction::SBIC { A: field_io5(opcode), b: field_bit(opcode) }
    } else if kind == KIND_SBIS {
        Instruction::SBIS { A: field_io5(opcode), b: field_bit(opcode) }
    } else if kind == KIND_SBIW {
        Instruction::SBIW { d: field_pair(opcode), K: field_imm6(opcode) }
    } else if kind == KIND_SBRC {
        Instruction::SBRC { r: field_reg(opcode), b: field_bit(opcode) }
    } else if kind == KIND_SBRS {
        Instruction::SBRS { r: field_reg(opcode), b: field_bit(opcode) }
    } else if kind == KIND_SLEEP {
        Instruction::SLEEP
    } else if kind == KIND_STX {
        Instruction::STX { r: field_reg(opcode) }
    } else if kind == KIND_STXDEC {
        Instruction::STXdec { r: field_reg(opcode) }
    } else if kind == KIND_STXINC {
        Instruction::STXinc { r: field_reg(opcode) }
    } else if kind == KIND_STYDEC {
        Instruction::STYdec { r: field_reg(opcode) }
    } else if kind == KIND_STYINC {
        Instruction::STYinc { r: field_reg(opcode) }
    } else if kind == KIND_STZDEC {
        Instruction::STZdec { r: field_reg(opcode) }
    } else if kind == KIND_STZINC {
        Instruction::STZinc { r: field_reg(opcode) }
    } else if kind == KIND_STDY {
        Instruction::STDY { q: field_disp(opcode), r: field_reg(opcode) }
    } else if kind == KIND_STDZ {
        Instruction::STDZ { q: field_disp(opcode), r: field_reg(opcode) }
    } else if kind == KIND_STS {
        Instruction::STS { k: prefetch, r: field_reg(opcode) }
    } else if kind == KIND_SUB {
        Instruction::SUB { d: field_reg(opcode), r: field_reg_src(opcode) }
    } else if kind == KIND_SUBI {
        Instruction::SUBI { d: field_upper_d(opcode), K: field_imm8(opcode) }
    } else if kind == KIND_SWAP {
        Instruction::SWAP { d: field_reg(opcode) }
    } else if kind == KIND_WDR {
        Instruction::WDR
    } else {
        Instruction::UNDEF
    }
}

/// Decodes one instruction. Decoding has no state and accepts every word:
/// unknown patterns yield `UNDEF`. The operands of the result are in range.
#[verifier::rlimit(60)]
pub fn decode(opcode: u16, prefetch: u16) -> (op: Instruction)
    ensures
        op == decode_spec(opcode, prefetch),
        op.wf(),
        !(op is LSL),
        (op is UNDEF) == (pattern_of(opcode) == KIND_UNDEF),
{
    proof {
        lemma_field_ranges(opcode, prefetch);
    }
    let kind = pattern_of(opcode);
    if kind == KIND_NOP {
        Instruction::NOP
    } else if kind == KIND_ADC {
        Instruction::ADC { d: field_reg(opcode), r: field_reg_src(opcode) }
    } else if kind == KIND_ADD {
        Instruction::ADD { d: field_reg(opcode), r: field_reg_src(opcode) }
    } else if kind == KIND_ADIW {
        Instruction::ADIW { d: field_pair(opcode), K: field_imm6(opcode) }
    } else if kind == KIND_AND {
        Instruction::AND { d: field_reg(opcode), r: field_reg_src(opcode) }
    } else if kind == KIND_ANDI {
        Instruction::ANDI { d: field_upper_d(opcode), K: field_imm8(opcode) }
    } else if kind == KIND_ASR {
        Instruction::ASR { d: field_reg(opcode) }
    } else if kind == KIND_BCLR {
        Instruction::BCLR { s: field_flag(opcode) }
    } else if kind == KIND_BLD {
        Instruction::BLD { d: field_reg(opcode), b: field_bit(opcode) }
    } else if kind == KIND_BRBC {
        Instruction::BRBC { s: field_bit(opcode), k: sign_extend7(field_branch(opcode)) }
    } else if kind == KIND_BRBS {
        Instruction::BRBS { s: field_bit(opcode), k: sign_extend7(field_branch(opcode)) }
    } else if kind == KIND_BREAK {
        Instruction::BREAK
    } else if kind == KIND_BSET {
        Instruction::BSET { s: field_flag(opcode) }
    } else if kind == KIND_BST {
        Instruction::BST { d: field_reg(opcode), b: field_bit(opcode) }
    } else if kind == KIND_CALL {
        Instruction::CALL { k: long_address(opcode, prefetch) }
    } else if kind == KIND_CBI {
        Instruction::CBI { A: field_io5(opcode), b: field_bit(opcode) }
    } else if kind == KIND_COM {
        Instruction::COM { d: field_reg(opcode) }
    } else if kind == KIND_CP {
        Instruction::CP { d: field_reg(opcode), r: field_reg_src(opcode) }
    } else if kind == KIND_CPC {
        Instruction::CPC { d: field_reg(opcode), r: field_reg_src(opcode) }
    } else if kind == KIND_CPI {
        Instruction::CPI { d: field_upper_d(opcode), K: field_imm8(opcode) }
    } else if kind == KIND_CPSE {
        Instruction::CPSE { d: field_reg(opcode), r: field_reg_src(opcode) }
    } else if kind == KIND_DEC {
        Instruction::DEC { d: field_reg(opcode) }
    } else if kind == KIND_EOR {
        Instruction::EOR { d: field_reg(opcode), r: field_reg_src(opcode) }
    } else if kind == KIND_FMUL {
        Instruction::FMUL { d: field_mul_d(opcode), r: field_mul_r(opcode) }
    } else if kind == KIND_FMULS {
        Instruction::FMULS { d: field_mul_d(opcode), r: field_mul_r(opcode) }
    } else if kind == KIND_FMULSU {
        Instruction::FMULSU { d: field_mul_d(opcode), r: field_mul_r(opcode) }
    } else if kind == KIND_ICALL {
        Instruction::ICALL
    } else if kind == KIND_IJMP {
        Instruction::IJMP
    } else if kind == KIND_IN {
        Instruction::IN { d: field_reg(opcode), A: field_io6(opcode) }
    } else if kind == KIND_INC {
        Instruction::INC { d: field_reg(opcode) }
    } else if kind == KIND_JMP {
        Instruction::JMP { k: long_address(opcode, prefetch) }
    } else if kind == KIND_LDX {
        Instruction::LDX { d: field_reg(opcode) }
    } else if kind == KIND_LDXINC {
        Instruction::LDXinc { d: field_reg(opcode) }
    } else if kind == KIND_LDXDEC {
        Instruction::LDXdec { d: field_reg(opcode) }
    } else if kind == KIND_LDYINC {
        Instruction::LDYinc { d: field_reg(opcode) }
    } else if kind == KIND_LDYDEC {
        Instruction::LDYdec { d: field_reg(opcode) }
    } else if kind == KIND_LDZINC {
        Instruction::LDZinc { d: field_reg(opcode) }
    } else if kind == KIND_LDZDEC {
        Instruction::LDZdec { d: field_reg(opcode) }
    } else if kind == KIND_LDDY {
        Instruction::LDDY { d: field_reg(opcode), q: field_disp(opcode) }
    } else if kind == KIND_LDDZ {
        Instruction::LDDZ { d: field_reg(opcode), q: field_disp(opcode) }
    } else if kind == KIND_LDI {
        Instruction::LDI { d: field_upper_d(opcode), K: field_imm8(opcode) }
    } else if kind == KIND_LDS {
        Instruction::LDS { d: field_reg(opcode), k: prefetch }
    } else if kind == KIND_LPM {
        Instruction::LPM
    } else if kind == KIND_LPMZ {
        Instruction::LPMZ { d: field_reg(opcode) }
    } else if kind == KIND_LPMZINC {
        Instruction::LPMZinc { d: field_reg(opcode) }
    } else if kind == KIND_LSR {
        Instruction::LSR { d: field_reg(opcode) }
    } else if kind == KIND_MOV {
        Instruction::MOV { d: field_reg(opcode), r: field_reg_src(opcode) }
    } else if kind == KIND_MOVW {
        Instruction::MOVW { d: field_word_d(opcode), r: field_word_r(opcode) }
    } else if kind == KIND_MUL {
        Instruction::MUL { d: field_reg(opcode), r: field_reg_src(opcode) }
    } else if kind == KIND_MULS {
        Instruction::MULS { d: field_upper_d(opcode), r: field_upper_r(opcode) }
    } else if kind == KIND_MULSU {
        Instruction::MULSU { d: field_mul_d(opcode), r: field_mul_r(opcode) }
    } else if kind == KIND_NEG {
        Instruction::NEG { d: field_reg(opcode) }
    } else if kind == KIND_OR {
        Instruction::OR { d: field_reg(opcode), r: field_reg_src(opcode) }
    } else if kind == KIND_ORI {
        Instruction::ORI { d: field_upper_d(opcode), K: field_imm8(opcode) }
    } else if kind == KIND_OUT {
        Instruction::OUT { A: field_io6(opcode), r: field_reg(opcode) }
    } else if kind == KIND_POP {
        Instruction::POP { d: field_reg(opcode) }
    } else if kind == KIND_PUSH {
        Instruction::PUSH { d: field_reg(opcode) }
    } else if kind == KIND_RCALL {
        Instruction::RCALL { k: sign_extend12(field_rel(opcode)) }
    } else if kind == KIND_RET {
        Instruction::RET
    } else if kind == KIND_RETI {
        Instruction::RETI
    } else if kind == KIND_RJMP {
        Instruction::RJMP { k: sign_extend12(field_rel(opcode)) }
    } else if kind == KIND_ROR {
        Instruction::ROR { d: field_reg(opcode) }
    } else if kind == KIND_SBC {
        Instruction::SBC { d: field_reg(opcode), r: field_reg_src(opcode) }
    } else if kind == KIND_SBCI {
        Instruction::SBCI { d: field_upper_d(opcode), K: field_imm8(opcode) }
    } else if kind == KIND_SBI {
        Instruction::SBI { A: field_io5(opcode), b: field_bit(opcode) }
    } else if kind == KIND_SBIC {
        Instruction::SBIC { A: field_io5(opcode), b: field_bit(opcode) }
    } else if kind == KIND_SBIS {
        Instruction::SBIS { A: field_io5(opcode), b: field_bit(opcode) }
    } else if kind == KIND_SBIW {
        Instruction::SBIW { d: field_pair(opcode), K: field_imm6(opcode) }
    } else if kind == KIND_SBRC {
        Instruction::SBRC { r: field_reg(opcode), b: field_bit(opcode) }
    } else if kind == KIND_SBRS {
        Instruction::SBRS { r: field_reg(opcode), b: field_bit(opcode) }
    } else if kind == KIND_SLEEP {
        Instruction::SLEEP
    } else if kind == KIND_STX {
        Instruction::STX { r: field_reg(opcode) }
    } else if kind == KIND_STXDEC {
        Instruction::STXdec { r: field_reg(opcode) }
    } else if kind == KIND_STXINC {
        Instruction::STXinc { r: field_reg(opcode) }
    } else if kind == KIND_STYDEC {
        Instruction::STYdec { r: field_reg(opcode) }
    } else if kind == KIND_STYINC {
        Instruction::STYinc { r: field_reg(opcode) }
    } else if kind == KIND_STZDEC {
        Instruction::STZdec { r: field_reg(opcode) }
    } else if kind == KIND_STZINC {
        Instruction::STZinc { r: field_reg(opcode) }
    } else if kind == KIND_STDY {
        Instruction::STDY { q: field_disp(opcode), r: field_reg(opcode) }
    } else if kind == KIND_STDZ {
        Instruction::STDZ { q: field_disp(opcode), r: field_reg(opcode) }
    } else if kind == KIND_STS {
        Instruction::STS { k: prefetch, r: field_reg(opcode) }
    } else if kind == KIND_SUB {
        Instruction::SUB { d: field_reg(opcode), r: field_reg_src(opcode) }
    } else if kind == KIND_SUBI {
        Instruction::SUBI { d: field_upper_d(opcode), K: field_imm8(opcode) }
    } else if kind == KIND_SWAP {
        Instruction::SWAP { d: field_reg(opcode) }
    } else if kind == KIND_WDR {
        Instruction::WDR
    } else {
        Instruction::UNDEF
    }
}

/// The ranges of the operand fields, whatever the word they are cut from.
pub proof fn lemma_field_ranges(op: u16, prefetch: u16)
    by (bit_vector)
    ensures
        field_reg(op) < 32,
        field_reg_src(op) < 32,
        field_pair(op) == 24 || field_pair(op) == 26 || field_pair(op) == 28 || field_pair(op) == 30,
        field_imm6(op) < 64,
        16 <= field_upper_d(op) < 32,
        field_flag(op) < 8,
        field_bit(op) < 8,
        field_io5(op) < 32,
        16 <= field_mul_d(op) < 24,
        16 <= field_mul_r(op) < 24,
        field_io6(op) < 64,
        field_disp(op) < 64,
        field_word_d(op) < 32 && field_word_d(op) % 2 == 0,
        field_word_r(op) < 32 && field_word_r(op) % 2 == 0,
        16 <= field_upper_r(op) < 32,
        -64 <= sign_extended7(field_branch(op)) < 64,
        -2048 <= sign_extended12(field_rel(op)) < 2048,
        long_address(op, prefetch) < 0x40_0000,
{
}

/// The restricted register sets, as sums: the upper-register selectors add 16,
/// the pair selector of `ADIW` and `SBIW` doubles and adds 24, and the
/// selectors of `MOVW` double.
pub proof fn law_register_sets(op: u16)
    by (bit_vector)
    ensures
        field_upper_d(op) == ((op >> 4) & 0x0F) + 16,
        field_upper_r(op) == (op & 0x0F) + 16,
        field_mul_d(op) == ((op >> 4) & 0x07) + 16,
        field_mul_r(op) == (op & 0x07) + 16,
        field_pair(op) == 2 * ((op >> 4) & 0x03) + 24,
        field_word_d(op) == 2 * ((op >> 4) & 0x0F),
        field_word_r(op) == 2 * (op & 0x0F),
{
}

/// Sign extension gives the two's-complement value of the narrow field.
pub proof fn law_sign_extension(k7: u8, k12: u16)
    by (bit_vector)
    requires
        k7 < 128,
        k12 < 4096,
    ensures
        sign_extended7(k7) == (if k7 < 64 {
            k7 as int
        } else {
            k7 - 128
        }),
        sign_extended12(k12) == (if k12 < 2048 {
            k12 as int
        } else {
            k12 - 4096
        }),
{
}

/// The opcode word of an instruction that takes two registers out of all thirty-two.
#[verifier::allow_in_spec]
pub fn encode_two_regs(base: u16, a: u8, b: u8) -> u16
    returns
        base | ((a as u16 & 0x1F) << 4) | ((b as u16 & 0x10) << 5) | (b as u16 & 0x0F),
{
    base | ((a as u16 & 0x1F) << 4) | ((b as u16 & 0x10) << 5) | (b as u16 & 0x0F)
}

/// The opcode word of an instruction that takes a register pair and a six-bit constant.
#[verifier::allow_in_spec]
pub fn encode_pair_imm(base: u16, a: u8, b: u8) -> u16
    returns
        base | ((a as u16 & 0x06) << 3) | ((b as u16 & 0x30) << 2) | (b as u16 & 0x0F),
{
    base | ((a as u16 & 0x06) << 3) | ((b as u16 & 0x30) << 2) | (b as u16 & 0x0F)
}

/// The opcode word of an instruction that takes an upper register and an eight-bit constant.
#[verifier::allow_in_spec]
pub fn encode_reg_imm(base: u16, a: u8, b: u8) -> u16
    returns
        base | ((a as u16 & 0x0F) << 4) | ((b as u16 & 0xF0) << 4) | (b as u16 & 0x0F),
{
    base | ((a as u16 & 0x0F) << 4) | ((b as u16 & 0xF0) << 4) | (b as u16 & 0x0F)
}

/// The opcode word of an instruction that takes one register in bits 8 to 4.
#[verifier::allow_in_spec]
pub fn encode_one_reg(base: u16, a: u8) -> u16
    returns
        base | ((a as u16 & 0x1F) << 4),
{
    base | ((a as u16 & 0x1F) << 4)
}

/// The opcode word of an instruction that takes a status flag position.
#[verifier::allow_in_spec]
pub fn encode_flag(base: u16, a: u8) -> u16
    returns
        base | ((a as u16 & 0x07) << 4),
{
    base | ((a as u16 & 0x07) << 4)
}

/// The opcode word of an instruction that takes a register and a bit position.
#[verifier::allow_in_spec]
pub fn encode_reg_bit(base: u16, a: u8, b: u8) -> u16
    returns
        base | ((a as u16 & 0x1F) << 4) | (b as u16 & 0x07),
{
    base | ((a as u16 & 0x1F) << 4) | (b as u16 & 0x07)
}

/// The opcode word of an instruction that takes a status flag position and a branch offset.
#[verifier::allow_in_spec]
pub fn encode_branch(base: u16, a: i8, b: u8) -> u16
    returns
        base | (((a as u8) as u16 & 0x7F) << 3) | (b as u16 & 0x07),
{
    base | (((a as u8) as u16 & 0x7F) << 3) | (b as u16 & 0x07)
}

/// The opcode word of an instruction that takes a 22-bit absolute address.
#[verifier::allow_in_spec]
pub fn encode_long_jump(base: u16, a: u32) -> u16
    returns
        base | ((((a >> 16) as u16) & 0x3E) << 3) | (((a >> 16) as u16) & 0x01),
{
    base | ((((a >> 16) as u16) & 0x3E) << 3) | (((a >> 16) as u16) & 0x01)
}

/// The opcode word of an instruction that takes a low I/O address and a bit position.
#[verifier::allow_in_spec]
pub fn encode_io_bit(base: u16, a: u8, b: u8) -> u16
    returns
        base | ((a as u16 & 0x1F) << 3) | (b as u16 & 0x07),
{
    base | ((a as u16 & 0x1F) << 3) | (b as u16 & 0x07)
}

/// The opcode word of an instruction that takes two registers out of R16 to R23.
#[verifier::allow_in_spec]
pub fn encode_mul_regs(base: u16, a: u8, b: u8) -> u16
    returns
        base | ((a as u16 & 0x07) << 4) | (b as u16 & 0x07),
{
    base | ((a as u16 & 0x07) << 4) | (b as u16 & 0x07)
}

/// The opcode word of an instruction that takes a register and an I/O address.
#[verifier::allow_in_spec]
pub fn encode_reg_io(base: u16, a: u8, b: u8) -> u16
    returns
        base | ((a as u16 & 0x1F) << 4) | ((b as u16 & 0x30) << 5) | (b as u16 & 0x0F),
{
    base | ((a as u16 & 0x1F) << 4) | ((b as u16 & 0x30) << 5) | (b as u16 & 0x0F)
}

/// The opcode word of an instruction that takes a register and a displacement.
#[verifier::allow_in_spec]
pub fn encode_reg_disp(base: u16, a: u8, b: u8) -> u16
    returns
        base | ((a as u16 & 0x1F) << 4) | ((b as u16 & 0x20) << 8) | ((b as u16 & 0x18) << 7) | (b as u16 & 0x07),
{
    base | ((a as u16 & 0x1F) << 4) | ((b as u16 & 0x20) << 8) | ((b as u16 & 0x18) << 7) | (b as u16 & 0x07)
}

/// The opcode word of an instruction that takes two even register pairs.
#[verifier::allow_in_spec]
pub fn encode_word_regs(base: u16, a: u8, b: u8) -> u16
    returns
        base | ((a as u16 & 0x1E) << 3) | ((b as u16 & 0x1E) >> 1),
{
    base | ((a as u16 & 0x1E) << 3) | ((b as u16 & 0x1E) >> 1)
}

/// The opcode word of an instruction that takes two upper registers.
#[verifier::allow_in_spec]
pub fn encode_upper_regs(base: u16, a: u8, b: u8) -> u16
    returns
        base | ((a as u16 & 0x0F) << 4) | (b as u16 & 0x0F),
{
    base | ((a as u16 & 0x0F) << 4) | (b as u16 & 0x0F)
}

/// The opcode word of an instruction that takes a twelve-bit relative offset.
#[verifier::allow_in_spec]
pub fn encode_relative(base: u16, a: i16) -> u16
    returns
        base | ((a as u16) & 0x0FFF),
{
    base | ((a as u16) & 0x0FFF)
}

/// The program words of an instruction: the opcode word, and the second word
/// of a two-word instruction (zero for the others). `UNDEF` has no encoding
/// and is given the all-ones word, which fits no pattern.
pub open spec fn encode_spec(instruction: Instruction) -> (u16, u16) {
    match instruction {
        Instruction::NOP => (0x0000, 0),
        Instruction::ADC { d, r } => (encode_two_regs(0x1C00, d, r), 0),
        Instruction::ADD { d, r } => (encode_two_regs(0x0C00, d, r), 0),
        Instruction::ADIW { d, K } => (encode_pair_imm(0x9600, d, K), 0),
        Instruction::AND { d, r } => (encode_two_regs(0x2000, d, r), 0),
        Instruction::ANDI { d, K } => (encode_reg_imm(0x7000, d, K), 0),
        Instruction::ASR { d } => (encode_one_reg(0x9405, d), 0),
        Instruction::BCLR { s } => (encode_flag(0x9488, s), 0),
        Instruction::BLD { d, b } => (encode_reg_bit(0xF800, d, b), 0),
        Instruction::BRBC { s, k } => (encode_branch(0xF400, k, s), 0),
        Instruction::BRBS { s, k } => (encode_branch(0xF000, k, s), 0),
        Instruction::BREAK => (0x9598, 0),
        Instruction::BSET { s } => (encode_flag(0x9408, s), 0),
        Instruction::BST { d, b } => (encode_reg_bit(0xFA00, d, b), 0),
        Instruction::CALL { k } => (encode_long_jump(0x940E, k), (k & 0xFFFF) as u16),
        Instruction::CBI { A, b } => (encode_io_bit(0x9800, A, b), 0),
        Instruction::COM { d } => (encode_one_reg(0x9400, d), 0),
        Instruction::CP { d, r } => (encode_two_regs(0x1400, d, r), 0),
        Instruction::CPC { d, r } => (encode_two_regs(0x0400, d, r), 0),
        Instruction::CPI { d, K } => (encode_reg_imm(0x3000, d, K), 0),
        Instruction::CPSE { d, r } => (encode_two_regs(0x1000, d, r), 0),
        Instruction::DEC { d } => (encode_one_reg(0x940A, d), 0),
        Instruction::EOR { d, r } => (encode_two_regs(0x2400, d, r), 0),
        Instruction::FMUL { d, r } => (encode_mul_regs(0x0308, d, r), 0),
        Instruction::FMULS { d, r } => (encode_mul_regs(0x0380, d, r), 0),
        Instruction::FMULSU { d, r } => (encode_mul_regs(0x0388, d, r), 0),
        Instruction::ICALL => (0x9509, 0),
        Instruction::IJMP => (0x9409, 0),
        Instruction::IN { d, A } => (encode_reg_io(0xB000, d, A), 0),
        Instruction::INC { d } => (encode_one_reg(0x9403, d), 0),
        Instruction::JMP { k } => (encode_long_jump(0x940C, k), (k & 0xFFFF) as u16),
        Instruction::LDX { d } => (encode_one_reg(0x900C, d), 0),
        Instruction::LDXinc { d } => (encode_one_reg(0x900D, d), 0),
        Instruction::LDXdec { d } => (encode_one_reg(0x900E, d), 0),
        Instruction::LDYinc { d } => (encode_one_reg(0x9009, d), 0),
        Instruction::LDYdec { d } => (encode_one_reg(0x900A, d), 0),
        Instruction::LDZinc { d } => (encode_one_reg(0x9001, d), 0),
        Instruction::LDZdec { d } => (encode_one_reg(0x9002, d), 0),
        Instruction::LDDY { d, q } => (encode_reg_disp(0x8008, d, q), 0),
        Instruction::LDDZ { d, q } => (encode_reg_disp(0x8000, d, q), 0),
        Instruction::LDI { d, K } => (encode_reg_imm(0xE000, d, K), 0),
        Instruction::LDS { d, k } => (encode_one_reg(0x9000, d), k),
        Instruction::LPM => (0x95C8, 0),
        Instruction::LPMZ { d } => (encode_one_reg(0x9004, d), 0),
        Instruction::LPMZinc { d } => (encode_one_reg(0x9005, d), 0),
        Instruction::LSL { d } => (encode_two_regs(0x0C00, d, d), 0),
        Instruction::LSR { d } => (encode_one_reg(0x9406, d), 0),
        Instruction::MOV { d, r } => (encode_two_regs(0x2C00, d, r), 0),
        Instruction::MOVW { d, r } => (encode_word_regs(0x0100, d, r), 0),
        Instruction::MUL { d, r } => (encode_two_regs(0x9C00, d, r), 0),
        Instruction::MULS { d, r } => (encode_upper_regs(0x0200, d, r), 0),
        Instruction::MULSU { d, r } => (encode_mul_regs(0x0300, d, r), 0),
        Instruction::NEG { d } => (encode_one_reg(0x9401, d), 0),
        Instruction::OR { d, r } => (encode_two_regs(0x2800, d, r), 0),
        Instruction::ORI { d, K } => (encode_reg_imm(0x6000, d, K), 0),
        Instruction::OUT { A, r } => (encode_reg_io(0xB800, r, A), 0),
        Instruction::POP { d } => (encode_one_reg(0x900F, d), 0),
        Instruction::PUSH { d } => (encode_one_reg(0x920F, d), 0),
        Instruction::RCALL { k } => (encode_relative(0xD000, k), 0),
        Instruction::RET => (0x9508, 0),
        Instruction::RETI => (0x9518, 0),
        Instruction::RJMP { k } => (encode_relative(0xC000, k), 0),
        Instruction::ROR { d } => (encode_one_reg(0x9407, d), 0),
        Instruction::SBC { d, r } => (encode_two_regs(0x0800, d, r), 0),
        Instruction::SBCI { d, K } => (encode_reg_imm(0x4000, d, K), 0),
        Instruction::SBI { A, b } => (encode_io_bit(0x9A00, A, b), 0),
        Instruction::SBIC { A, b } => (encode_io_bit(0x9900, A, b), 0),
        Instruction::SBIS { A, b } => (encode_io_bit(0x9B00, A, b), 0),
        Instruction::SBIW { d, K } => (encode_pair_imm(0x9700, d, K), 0),
        Instruction::SBRC { r, b } => (encode_reg_bit(0xFC00, r, b), 0),
        Instruction::SBRS { r, b } => (encode_reg_bit(0xFE00, r, b), 0),
        Instruction::SLEEP => (0x9588, 0),
        Instruction::STX { r } => (encode_one_reg(0x920C, r), 0),
        Instruction::STXdec { r } => (encode_one_reg(0x920E, r), 0),
        Instruction::STXinc { r } => (encode_one_reg(0x920D, r), 0),
        Instruction::STYdec { r } => (encode_one_reg(0x920A, r), 0),
        Instruction::STYinc { r } => (encode_one_reg(0x9209, r), 0),
        Instruction::STZdec { r } => (encode_one_reg(0x9202, r), 0),
        Instruction::STZinc { r } => (encode_one_reg(0x9201, r), 0),
        Instruction::STDY { q, r } => (encode_reg_disp(0x8208, r, q), 0),
        Instruction::STDZ { q, r } => (encode_reg_disp(0x8200, r, q), 0),
        Instruction::STS { k, r } => (encode_one_reg(0x9200, r), k),
        Instruction::SUB { d, r } => (encode_two_regs(0x1800, d, r), 0),
        Instruction::SUBI { d, K } => (encode_reg_imm(0x5000, d, K), 0),
        Instruction::SWAP { d } => (encode_one_reg(0x9402, d), 0),
        Instruction::WDR => (0x95A8, 0),
        Instruction::UNDEF => (0xFFFF, 0),
    }
}

/// Encodes an instruction into its program words.
pub fn encode(instruction: Instruction) -> (words: (u16, u16))
    ensures
        words == encode_spec(instruction),
{
    match instruction {
        Instruction::NOP => (0x0000, 0),
        Instruction::ADC { d, r } => (encode_two_regs(0x1C00, d, r), 0),
        Instruction::ADD { d, r } => (encode_two_regs(0x0C00, d, r), 0),
        Instruction::ADIW { d, K } => (encode_pair_imm(0x9600, d, K), 0),
        Instruction::AND { d, r } => (encode_two_regs(0x2000, d, r), 0),
        Instruction::ANDI { d, K } => (encode_reg_imm(0x7000, d, K), 0),
        Instruction::ASR { d } => (encode_one_reg(0x9405, d), 0),
        Instruction::BCLR { s } => (encode_flag(0x9488, s), 0),
        Instruction::BLD { d, b } => (encode_reg_bit(0xF800, d, b), 0),
        Instruction::BRBC { s, k } => (encode_branch(0xF400, k, s), 0),
        Instruction::BRBS { s, k } => (encode_branch(0xF000, k, s), 0),
        Instruction::BREAK => (0x9598, 0),
        Instruction::BSET { s } => (encode_flag(0x9408, s), 0),
        Instruction::BST { d, b } => (encode_reg_bit(0xFA00, d, b), 0),
        Instruction::CALL { k } => (encode_long_jump(0x940E, k), (k & 0xFFFF) as u16),
        Instruction::CBI { A, b } => (encode_io_bit(0x9800, A, b), 0),
        Instruction::COM { d } => (encode_one_reg(0x9400, d), 0),
        Instruction::CP { d, r } => (encode_two_regs(0x1400, d, r), 0),
        Instruction::CPC { d, r } => (encode_two_regs(0x0400, d, r), 0),
        Instruction::CPI { d, K } => (encode_reg_imm(0x3000, d, K), 0),
        Instruction::CPSE { d, r } => (encode_two_regs(0x1000, d, r), 0),
        Instruction::DEC { d } => (encode_one_reg(0x940A, d), 0),
        Instruction::EOR { d, r } => (encode_two_regs(0x2400, d, r), 0),
        Instruction::FMUL { d, r } => (encode_mul_regs(0x0308, d, r), 0),
        Instruction::FMULS { d, r } => (encode_mul_regs(0x0380, d, r), 0),
        Instruction::FMULSU { d, r } => (encode_mul_regs(0x0388, d, r), 0),
        Instruction::ICALL => (0x9509, 0),
        Instruction::IJMP => (0x9409, 0),
        Instruction::IN { d, A } => (encode_reg_io(0xB000, d, A), 0),
        Instruction::INC { d } => (encode_one_reg(0x9403, d), 0),
        Instruction::JMP { k } => (encode_long_jump(0x940C, k), (k & 0xFFFF) as u16),
        Instruction::LDX { d } => (encode_one_reg(0x900C, d), 0),
        Instruction::LDXinc { d } => (encode_one_reg(0x900D, d), 0),
        Instruction::LDXdec { d } => (encode_one_reg(0x900E, d), 0),
        Instruction::LDYinc { d } => (encode_one_reg(0x9009, d), 0),
        Instruction::LDYdec { d } => (encode_one_reg(0x900A, d), 0),
        Instruction::LDZinc { d } => (encode_one_reg(0x9001, d), 0),
        Instruction::LDZdec { d } => (encode_one_reg(0x9002, d), 0),
        Instruction::LDDY { d, q } => (encode_reg_disp(0x8008, d, q), 0),
        Instruction::LDDZ { d, q } => (encode_reg_disp(0x8000, d, q), 0),
        Instruction::LDI { d, K } => (encode_reg_imm(0xE000, d, K), 0),
        Instruction::LDS { d, k } => (encode_one_reg(0x9000, d), k),
        Instruction::LPM => (0x95C8, 0),
        Instruction::LPMZ { d } => (encode_one_reg(0x9004, d), 0),
        Instruction::LPMZinc { d } => (encode_one_reg(0x9005, d), 0),
        Instruction::LSL { d } => (encode_two_regs(0x0C00, d, d), 0),
        Instruction::LSR { d } => (encode_one_reg(0x9406, d), 0),
        Instruction::MOV { d, r } => (encode_two_regs(0x2C00, d, r), 0),
        Instruction::MOVW { d, r } => (encode_word_regs(0x0100, d, r), 0),
        Instruction::MUL { d, r } => (encode_two_regs(0x9C00, d, r), 0),
        Instruction::MULS { d, r } => (encode_upper_regs(0x0200, d, r), 0),
        Instruction::MULSU { d, r } => (encode_mul_regs(0x0300, d, r), 0),
        Instruction::NEG { d } => (encode_one_reg(0x9401, d), 0),
        Instruction::OR { d, r } => (encode_two_regs(0x2800, d, r), 0),
        Instruction::ORI { d, K } => (encode_reg_imm(0x6000, d, K), 0),
        Instruction::OUT { A, r } => (encode_reg_io(0xB800, r, A), 0),
        Instruction::POP { d } => (encode_one_reg(0x900F, d), 0),
        Instruction::PUSH { d } => (encode_one_reg(0x920F, d), 0),
        Instruction::RCALL { k } => (encode_relative(0xD000, k), 0),
        Instruction::RET => (0x9508, 0),
        Instruction::RETI => (0x9518, 0),
        Instruction::RJMP { k } => (encode_relative(0xC000, k), 0),
        Instruction::ROR { d } => (encode_one_reg(0x9407, d), 0),
        Instruction::SBC { d, r } => (encode_two_regs(0x0800, d, r), 0),
        Instruction::SBCI { d, K } => (encode_reg_imm(0x4000, d, K), 0),
        Instruction::SBI { A, b } => (encode_io_bit(0x9A00, A, b), 0),
        Instruction::SBIC { A, b } => (encode_io_bit(0x9900, A, b), 0),
        Instruction::SBIS { A, b } => (encode_io_bit(0x9B00, A, b), 0),
        Instruction::SBIW { d, K } => (encode_pair_imm(0x9700, d, K), 0),
        Instruction::SBRC { r, b } => (encode_reg_bit(0xFC00, r, b), 0),
        Instruction::SBRS { r, b } => (encode_reg_bit(0xFE00, r, b), 0),
        Instruction::SLEEP => (0x9588, 0),
        Instruction::STX { r } => (encode_one_reg(0x920C, r), 0),
        Instruction::STXdec { r } => (encode_one_reg(0x920E, r), 0),
        Instruction::STXinc { r } => (encode_one_reg(0x920D, r), 0),
        Instruction::STYdec { r } => (encode_one_reg(0x920A, r), 0),
        Instruction::STYinc { r } => (encode_one_reg(0x9209, r), 0),
        Instruction::STZdec { r } => (encode_one_reg(0x9202, r), 0),
        Instruction::STZinc { r } => (encode_one_reg(0x9201, r), 0),
        Instruction::STDY { q, r } => (encode_reg_disp(0x8208, r, q), 0),
        Instruction::STDZ { q, r } => (encode_reg_disp(0x8200, r, q), 0),
        Instruction::STS { k, r } => (encode_one_reg(0x9200, r), k),
        Instruction::SUB { d, r } => (encode_two_regs(0x1800, d, r), 0),
        Instruction::SUBI { d, K } => (encode_reg_imm(0x5000, d, K), 0),
        Instruction::SWAP { d } => (encode_one_reg(0x9402, d), 0),
        Instruction::WDR => (0x95A8, 0),
        Instruction::UNDEF => (0xFFFF, 0),
    }
}

/// The instructions without operands decode from their own words.
pub proof fn lemma_round_trip_fixed()
    by (bit_vector)
    ensures
        pattern_of(0x0000) == KIND_NOP,
        pattern_of(0x9598) == KIND_BREAK,
        pattern_of(0x9509) == KIND_ICALL,
        pattern_of(0x9409) == KIND_IJMP,
        pattern_of(0x95C8) == KIND_LPM,
        pattern_of(0x9508) == KIND_RET,
        pattern_of(0x9518) == KIND_RETI,
        pattern_of(0x9588) == KIND_SLEEP,
        pattern_of(0x95A8) == KIND_WDR,
{
}

/// An instruction that takes two registers out of all thirty-two decodes from its own word.
pub proof fn lemma_round_trip_two_regs(a: u8, b: u8)
    by (bit_vector)
    requires
        a < 32,
        b < 32,
    ensures
        pattern_of(encode_two_regs(0x1C00, a, b)) == KIND_ADC,
        pattern_of(encode_two_regs(0x0C00, a, b)) == KIND_ADD,
        pattern_of(encode_two_regs(0x2000, a, b)) == KIND_AND,
        pattern_of(encode_two_regs(0x1400, a, b)) == KIND_CP,
        pattern_of(encode_two_regs(0x0400, a, b)) == KIND_CPC,
        pattern_of(encode_two_regs(0x1000, a, b)) == KIND_CPSE,
        pattern_of(encode_two_regs(0x2400, a, b)) == KIND_EOR,
        pattern_of(encode_two_regs(0x2C00, a, b)) == KIND_MOV,
        pattern_of(encode_two_regs(0x9C00, a, b)) == KIND_MUL,
        pattern_of(encode_two_regs(0x2800, a, b)) == KIND_OR,
        pattern_of(encode_two_regs(0x0800, a, b)) == KIND_SBC,
        pattern_of(encode_two_regs(0x1800, a, b)) == KIND_SUB,
        field_reg(encode_two_regs(0x1C00, a, b)) == a,
        field_reg_src(encode_two_regs(0x1C00, a, b)) == b,
        field_reg(encode_two_regs(0x0C00, a, b)) == a,
        field_reg_src(encode_two_regs(0x0C00, a, b)) == b,
        field_reg(encode_two_regs(0x2000, a, b)) == a,
        field_reg_src(encode_two_regs(0x2000, a, b)) == b,
        field_reg(encode_two_regs(0x1400, a, b)) == a,
        field_reg_src(encode_two_regs(0x1400, a, b)) == b,
        field_reg(encode_two_regs(0x0400, a, b)) == a,
        field_reg_src(encode_two_regs(0x0400, a, b)) == b,
        field_reg(encode_two_regs(0x1000, a, b)) == a,
        field_reg_src(encode_two_regs(0x1000, a, b)) == b,
        field_reg(encode_two_regs(0x2400, a, b)) == a,
        field_reg_src(encode_two_regs(0x2400, a, b)) == b,
        field_reg(encode_two_regs(0x2C00, a, b)) == a,
        field_reg_src(encode_two_regs(0x2C00, a, b)) == b,
        field_reg(encode_two_regs(0x9C00, a, b)) == a,
        field_reg_src(encode_two_regs(0x9C00, a, b)) == b,
        field_reg(encode_two_regs(0x2800, a, b)) == a,
        field_reg_src(encode_two_regs(0x2800, a, b)) == b,
        field_reg(encode_two_regs(0x0800, a, b)) == a,
        field_reg_src(encode_two_regs(0x0800, a, b)) == b,
        field_reg(encode_two_regs(0x1800, a, b)) == a,
        field_reg_src(encode_two_regs(0x1800, a, b)) == b,
{
}

/// An instruction that takes a register pair and a six-bit constant decodes from its own word.
pub proof fn lemma_round_trip_pair_imm(a: u8, b: u8)
    by (bit_vector)
    requires
        a == 24 || a == 26 || a == 28 || a == 30,
        b < 64,
    ensures
        pattern_of(encode_pair_imm(0x9600, a, b)) == KIND_ADIW,
        pattern_of(encode_pair_imm(0x9700, a, b)) == KIND_SBIW,
        field_pair(encode_pair_imm(0x9600, a, b)) == a,
        field_imm6(encode_pair_imm(0x9600, a, b)) == b,
        field_pair(encode_pair_imm(0x9700, a, b)) == a,
        field_imm6(encode_pair_imm(0x9700, a, b)) == b,
{
}

/// An instruction that takes an upper register and an eight-bit constant decodes from its own word.
pub proof fn lemma_round_trip_reg_imm(a: u8, b: u8)
    by (bit_vector)
    requires
        16 <= a < 32,
    ensures
        pattern_of(encode_reg_imm(0x7000, a, b)) == KIND_ANDI,
        pattern_of(encode_reg_imm(0x3000, a, b)) == KIND_CPI,
        pattern_of(encode_reg_imm(0xE000, a, b)) == KIND_LDI,
        pattern_of(encode_reg_imm(0x6000, a, b)) == KIND_ORI,
        pattern_of(encode_reg_imm(0x4000, a, b)) == KIND_SBCI,
        pattern_of(encode_reg_imm(0x5000, a, b)) == KIND_SUBI,
        field_upper_d(encode_reg_imm(0x7000, a, b)) == a,
        field_imm8(encode_reg_imm(0x7000, a, b)) == b,
        field_upper_d(encode_reg_imm(0x3000, a, b)) == a,
        field_imm8(encode_reg_imm(0x3000, a, b)) == b,
        field_upper_d(encode_reg_imm(0xE000, a, b)) == a,
        field_imm8(encode_reg_imm(0xE000, a, b)) == b,
        field_upper_d(encode_reg_imm(0x6000, a, b)) == a,
        field_imm8(encode_reg_imm(0x6000, a, b)) == b,
        field_upper_d(encode_reg_imm(0x4000, a, b)) == a,
        field_imm8(encode_reg_imm(0x4000, a, b)) == b,
        field_upper_d(encode_reg_imm(0x5000, a, b)) == a,
        field_imm8(encode_reg_imm(0x5000, a, b)) == b,
{
}

/// An instruction that takes one register in bits 8 to 4 decodes from its own word.
pub proof fn lemma_round_trip_one_reg(a: u8)
    by (bit_vector)
    requires
        a < 32,
    ensures
        pattern_of(encode_one_reg(0x9405, a)) == KIND_ASR,
        pattern_of(encode_one_reg(0x9400, a)) == KIND_COM,
        pattern_of(encode_one_reg(0x940A, a)) == KIND_DEC,
        pattern_of(encode_one_reg(0x9403, a)) == KIND_INC,
        pattern_of(encode_one_reg(0x900C, a)) == KIND_LDX,
        pattern_of(encode_one_reg(0x900D, a)) == KIND_LDXINC,
        pattern_of(encode_one_reg(0x900E, a)) == KIND_LDXDEC,
        pattern_of(encode_one_reg(0x9009, a)) == KIND_LDYINC,
        pattern_of(encode_one_reg(0x900A, a)) == KIND_LDYDEC,
        pattern_of(encode_one_reg(0x9001, a)) == KIND_LDZINC,
        pattern_of(encode_one_reg(0x9002, a)) == KIND_LDZDEC,
        pattern_of(encode_one_reg(0x9000, a)) == KIND_LDS,
        pattern_of(encode_one_reg(0x9004, a)) == KIND_LPMZ,
        pattern_of(encode_one_reg(0x9005, a)) == KIND_LPMZINC,
        pattern_of(encode_one_reg(0x9406, a)) == KIND_LSR,
        pattern_of(encode_one_reg(0x9401, a)) == KIND_NEG,
        pattern_of(encode_one_reg(0x900F, a)) == KIND_POP,
        pattern_of(encode_one_reg(0x920F, a)) == KIND_PUSH,
        pattern_of(encode_one_reg(0x9407, a)) == KIND_ROR,
        pattern_of(encode_one_reg(0x920C, a)) == KIND_STX,
        pattern_of(encode_one_reg(0x920E, a)) == KIND_STXDEC,
        pattern_of(encode_one_reg(0x920D, a)) == KIND_STXINC,
        pattern_of(encode_one_reg(0x920A, a)) == KIND_STYDEC,
        pattern_of(encode_one_reg(0x9209, a)) == KIND_STYINC,
        pattern_of(encode_one_reg(0x9202, a)) == KIND_STZDEC,
        pattern_of(encode_one_reg(0x9201, a)) == KIND_STZINC,
        pattern_of(encode_one_reg(0x9200, a)) == KIND_STS,
        pattern_of(encode_one_reg(0x9402, a)) == KIND_SWAP,
        field_reg(encode_one_reg(0x9405, a)) == a,
        field_reg(encode_one_reg(0x9400, a)) == a,
        field_reg(encode_one_reg(0x940A, a)) == a,
        field_reg(encode_one_reg(0x9403, a)) == a,
        field_reg(encode_one_reg(0x900C, a)) == a,
        field_reg(encode_one_reg(0x900D, a)) == a,
        field_reg(encode_one_reg(0x900E, a)) == a,
        field_reg(encode_one_reg(0x9009, a)) == a,
        field_reg(encode_one_reg(0x900A, a)) == a,
        field_reg(encode_one_reg(0x9001, a)) == a,
        field_reg(encode_one_reg(0x9002, a)) == a,
        field_reg(encode_one_reg(0x9000, a)) == a,
        field_reg(encode_one_reg(0x9004, a)) == a,
        field_reg(encode_one_reg(0x9005, a)) == a,
        field_reg(encode_one_reg(0x9406, a)) == a,
        field_reg(encode_one_reg(0x9401, a)) == a,
        field_reg(encode_one_reg(0x900F, a)) == a,
        field_reg(encode_one_reg(0x920F, a)) == a,
        field_reg(encode_one_reg(0x9407, a)) == a,
        field_reg(encode_one_reg(0x920C, a)) == a,
        field_reg(encode_one_reg(0x920E, a)) == a,
        field_reg(encode_one_reg(0x920D, a)) == a,
        field_reg(encode_one_reg(0x920A, a)) == a,
        field_reg(encode_one_reg(0x9209, a)) == a,
        field_reg(encode_one_reg(0x9202, a)) == a,
        field_reg(encode_one_reg(0x9201, a)) == a,
        field_reg(encode_one_reg(0x9200, a)) == a,
        field_reg(encode_one_reg(0x9402, a)) == a,
{
}

/// An instruction that takes a status flag position decodes from its own word.
pub proof fn lemma_round_trip_flag(a: u8)
    by (bit_vector)
    requires
        a < 8,
    ensures
        pattern_of(encode_flag(0x9488, a)) == KIND_BCLR,
        pattern_of(encode_flag(0x9408, a)) == KIND_BSET,
        field_flag(encode_flag(0x9488, a)) == a,
        field_flag(encode_flag(0x9408, a)) == a,
{
}

/// An instruction that takes a register and a bit position decodes from its own word.
pub proof fn lemma_round_trip_reg_bit(a: u8, b: u8)
    by (bit_vector)
    requires
        a < 32,
        b < 8,
    ensures
        pattern_of(encode_reg_bit(0xF800, a, b)) == KIND_BLD,
        pattern_of(encode_reg_bit(0xFA00, a, b)) == KIND_BST,
        pattern_of(encode_reg_bit(0xFC00, a, b)) == KIND_SBRC,
        pattern_of(encode_reg_bit(0xFE00, a, b)) == KIND_SBRS,
        field_reg(encode_reg_bit(0xF800, a, b)) == a,
        field_bit(encode_reg_bit(0xF800, a, b)) == b,
        field_reg(encode_reg_bit(0xFA00, a, b)) == a,
        field_bit(encode_reg_bit(0xFA00, a, b)) == b,
        field_reg(encode_reg_bit(0xFC00, a, b)) == a,
        field_bit(encode_reg_bit(0xFC00, a, b)) == b,
        field_reg(encode_reg_bit(0xFE00, a, b)) == a,
        field_bit(encode_reg_bit(0xFE00, a, b)) == b,
{
}

/// An instruction that takes a status flag position and a branch offset decodes from its own word.
pub proof fn lemma_round_trip_branch(a: i8, b: u8)
    by (bit_vector)
    requires
        -64 <= a < 64,
        b < 8,
    ensures
        pattern_of(encode_branch(0xF400, a, b)) == KIND_BRBC,
        pattern_of(encode_branch(0xF000, a, b)) == KIND_BRBS,
        sign_extended7(field_branch(encode_branch(0xF400, a, b))) == a,
        field_bit(encode_branch(0xF400, a, b)) == b,
        sign_extended7(field_branch(encode_branch(0xF000, a, b))) == a,
        field_bit(encode_branch(0xF000, a, b)) == b,
{
}

/// An instruction that takes a 22-bit absolute address decodes from its own word.
pub proof fn lemma_round_trip_long_jump(a: u32)
    by (bit_vector)
    requires
        a < 0x40_0000,
    ensures
        pattern_of(encode_long_jump(0x940E, a)) == KIND_CALL,
        pattern_of(encode_long_jump(0x940C, a)) == KIND_JMP,
        long_address(encode_long_jump(0x940E, a), (a & 0xFFFF) as u16) == a,
        long_address(encode_long_jump(0x940C, a), (a & 0xFFFF) as u16) == a,
{
}

/// An instruction that takes a low I/O address and a bit position decodes from its own word.
pub proof fn lemma_round_trip_io_bit(a: u8, b: u8)
    by (bit_vector)
    requires
        a < 32,
        b < 8,
    ensures
        pattern_of(encode_io_bit(0x9800, a, b)) == KIND_CBI,
        pattern_of(encode_io_bit(0x9A00, a, b)) == KIND_SBI,
        pattern_of(encode_io_bit(0x9900, a, b)) == KIND_SBIC,
        pattern_of(encode_io_bit(0x9B00, a, b)) == KIND_SBIS,
        field_io5(encode_io_bit(0x9800, a, b)) == a,
        field_bit(encode_io_bit(0x9800, a, b)) == b,
        field_io5(encode_io_bit(0x9A00, a, b)) == a,
        field_bit(encode_io_bit(0x9A00, a, b)) == b,
        field_io5(encode_io_bit(0x9900, a, b)) == a,
        field_bit(encode_io_bit(0x9900, a, b)) == b,
        field_io5(encode_io_bit(0x9B00, a, b)) == a,
        field_bit(encode_io_bit(0x9B00, a, b)) == b,
{
}

/// An instruction that takes two registers out of R16 to R23 decodes from its own word.
pub proof fn lemma_round_trip_mul_regs(a: u8, b: u8)
    by (bit_vector)
    requires
        16 <= a < 24,
        16 <= b < 24,
    ensures
        pattern_of(encode_mul_regs(0x0308, a, b)) == KIND_FMUL,
        pattern_of(encode_mul_regs(0x0380, a, b)) == KIND_FMULS,
        pattern_of(encode_mul_regs(0x0388, a, b)) == KIND_FMULSU,
        pattern_of(encode_mul_regs(0x0300, a, b)) == KIND_MULSU,
        field_mul_d(encode_mul_regs(0x0308, a, b)) == a,
        field_mul_r(encode_mul_regs(0x0308, a, b)) == b,
        field_mul_d(encode_mul_regs(0x0380, a, b)) == a,
        field_mul_r(encode_mul_regs(0x0380, a, b)) == b,
        field_mul_d(encode_mul_regs(0x0388, a, b)) == a,
        field_mul_r(encode_mul_regs(0x0388, a, b)) == b,
        field_mul_d(encode_mul_regs(0x0300, a, b)) == a,
        field_mul_r(encode_mul_regs(0x0300, a, b)) == b,
{
}

/// An instruction that takes a register and an I/O address decodes from its own word.
pub proof fn lemma_round_trip_reg_io(a: u8, b: u8)
    by (bit_vector)
    requires
        a < 32,
        b < 64,
    ensures
        pattern_of(encode_reg_io(0xB000, a, b)) == KIND_IN,
        pattern_of(encode_reg_io(0xB800, a, b)) == KIND_OUT,
        field_reg(encode_reg_io(0xB000, a, b)) == a,
        field_io6(encode_reg_io(0xB000, a, b)) == b,
        field_reg(encode_reg_io(0xB800, a, b)) == a,
        field_io6(encode_reg_io(0xB800, a, b)) == b,
{
}

/// An instruction that takes a register and a displacement decodes from its own word.
pub proof fn lemma_round_trip_reg_disp(a: u8, b: u8)
    by (bit_vector)
    requires
        a < 32,
        b < 64,
    ensures
        pattern_of(encode_reg_disp(0x8008, a, b)) == KIND_LDDY,
        pattern_of(encode_reg_disp(0x8000, a, b)) == KIND_LDDZ,
        pattern_of(encode_reg_disp(0x8208, a, b)) == KIND_STDY,
        pattern_of(encode_reg_disp(0x8200, a, b)) == KIND_STDZ,
        field_reg(encode_reg_disp(0x8008, a, b)) == a,
        field_disp(encode_reg_disp(0x8008, a, b)) == b,
        field_reg(encode_reg_disp(0x8000, a, b)) == a,
        field_disp(encode_reg_disp(0x8000, a, b)) == b,
        field_reg(encode_reg_disp(0x8208, a, b)) == a,
        field_disp(encode_reg_disp(0x8208, a, b)) == b,
        field_reg(encode_reg_disp(0x8200, a, b)) == a,
        field_disp(encode_reg_disp(0x8200, a, b)) == b,
{
}

/// An instruction that takes two even register pairs decodes from its own word.
pub proof fn lemma_round_trip_word_regs(a: u8, b: u8)
    by (bit_vector)
    requires
        a < 32 && a % 2 == 0,
        b < 32 && b % 2 == 0,
    ensures
        pattern_of(encode_word_regs(0x0100, a, b)) == KIND_MOVW,
        field_word_d(encode_word_regs(0x0100, a, b)) == a,
        field_word_r(encode_word_regs(0x0100, a, b)) == b,
{
}

/// An instruction that takes two upper registers decodes from its own word.
pub proof fn lemma_round_trip_upper_regs(a: u8, b: u8)
    by (bit_vector)
    requires
        16 <= a < 32,
        16 <= b < 32,
    ensures
        pattern_of(encode_upper_regs(0x0200, a, b)) == KIND_MULS,
        field_upper_d(encode_upper_regs(0x0200, a, b)) == a,
        field_upper_r(encode_upper_regs(0x0200, a, b)) == b,
{
}

/// An instruction that takes a twelve-bit relative offset decodes from its own word.
pub proof fn lemma_round_trip_relative(a: i16)
    by (bit_vector)
    requires
        -2048 <= a < 2048,
    ensures
        pattern_of(encode_relative(0xD000, a)) == KIND_RCALL,
        pattern_of(encode_relative(0xC000, a)) == KIND_RJMP,
        sign_extended12(field_rel(encode_relative(0xD000, a))) == a,
        sign_extended12(field_rel(encode_relative(0xC000, a))) == a,
{
}

/// Decoding the words of a valid instruction gives the instruction back. The
/// one instruction for which this fails is `LSL`, which shares its word with
/// `ADD` of a register to itself and decodes as that.
pub proof fn law_decode_inverts_encode(instruction: Instruction)
    requires
        instruction.wf(),
        !(instruction is UNDEF),
        !(instruction is LSL),
    ensures
        decode_spec(encode_spec(instruction).0, encode_spec(instruction).1) == instruction,
{
    match instruction {
        Instruction::NOP
        | Instruction::BREAK
        | Instruction::ICALL
        | Instruction::IJMP
        | Instruction::LPM
        | Instruction::RET
        | Instruction::RETI
        | Instruction::SLEEP
        | Instruction::WDR => {
            lemma_round_trip_fixed();
        },
        Instruction::ADC { d, r }
        | Instruction::ADD { d, r }
        | Instruction::AND { d, r }
        | Instruction::CP { d, r }
        | Instruction::CPC { d, r }
        | Instruction::CPSE { d, r }
        | Instruction::EOR { d, r }
        | Instruction::MOV { d, r }
        | Instruction::MUL { d, r }
        | Instruction::OR { d, r }
        | Instruction::SBC { d, r }
        | Instruction::SUB { d, r } => {
            lemma_round_trip_two_regs(d, r);
        },
        Instruction::ADIW { d, K }
        | Instruction::SBIW { d, K } => {
            lemma_round_trip_pair_imm(d, K);
        },
        Instruction::ANDI { d, K }
        | Instruction::CPI { d, K }
        | Instruction::LDI { d, K }
        | Instruction::ORI { d, K }
        | Instruction::SBCI { d, K }
        | Instruction::SUBI { d, K } => {
            lemma_round_trip_reg_imm(d, K);
        },
        Instruction::ASR { d }
        | Instruction::COM { d }
        | Instruction::DEC { d }
        | Instruction::INC { d }
        | Instruction::LDX { d }
        | Instruction::LDXinc { d }
        | Instruction::LDXdec { d }
        | Instruction::LDYinc { d }
        | Instruction::LDYdec { d }
        | Instruction::LDZinc { d }
        | Instruction::LDZdec { d }
        | Instruction::LPMZ { d }
        | Instruction::LPMZinc { d }
        | Instruction::LSR { d }
        | Instruction::NEG { d }
        | Instruction::POP { d }
        | Instruction::PUSH { d }
        | Instruction::ROR { d }
        | Instruction::SWAP { d } => {
            lemma_round_trip_one_reg(d);
        },
        Instruction::LDS { d, .. } => {
            lemma_round_trip_one_reg(d);
        },
        Instruction::STX { r }
        | Instruction::STXdec { r }
        | Instruction::STXinc { r }
        | Instruction::STYdec { r }
        | Instruction::STYinc { r }
        | Instruction::STZdec { r }
        | Instruction::STZinc { r } => {
            lemma_round_trip_one_reg(r);
        },
        Instruction::STS { r, .. } => {
            lemma_round_trip_one_reg(r);
        },
        Instruction::BCLR { s }
        | Instruction::BSET { s } => {
            lemma_round_trip_flag(s);
        },
        Instruction::BLD { d, b }
        | Instruction::BST { d, b } => {
            lemma_round_trip_reg_bit(d, b);
        },
        Instruction::SBRC { r, b }
        | Instruction::SBRS { r, b } => {
            lemma_round_trip_reg_bit(r, b);
        },
        Instruction::BRBC { k, s }
        | Instruction::BRBS { k, s } => {
            lemma_round_trip_branch(k, s);
        },
        Instruction::CALL { k }
        | Instruction::JMP { k } => {
            lemma_round_trip_long_jump(k);
        },
        Instruction::CBI { A, b }
        | Instruction::SBI { A, b }
        | Instruction::SBIC { A, b }
        | Instruction::SBIS { A, b } => {
            lemma_round_trip_io_bit(A, b);
        },
        Instruction::FMUL { d, r }
        | Instruction::FMULS { d, r }
        | Instruction::FMULSU { d, r }
        | Instruction::MULSU { d, r } => {
            lemma_round_trip_mul_regs(d, r);
        },
        Instruction::IN { d, A } => {
            lemma_round_trip_reg_io(d, A);
        },
        Instruction::OUT { r, A } => {
            lemma_round_trip_reg_io(r, A);
        },
        Instruction::LDDY { d, q }
        | Instruction::LDDZ { d, q } => {
            lemma_round_trip_reg_disp(d, q);
        },
        Instruction::STDY { r, q }
        | Instruction::STDZ { r, q } => {
            lemma_round_trip_reg_disp(r, q);
        },
        Instruction::MOVW { d, r } => {
            lemma_round_trip_word_regs(d, r);
        },
        Instruction::MULS { d, r } => {
            lemma_round_trip_upper_regs(d, r);
        },
        Instruction::RCALL { k }
        | Instruction::RJMP { k } => {
            lemma_round_trip_relative(k);
        },
        Instruction::LSL { .. } | Instruction::UNDEF => {},
    }
}

/// `LSL Rd` is the same word as `ADD Rd, Rd`, and the decoder reads it as the
/// latter.
pub proof fn law_lsl_decodes_as_add(d: u8)
    requires
        d < 32,
    ensures
        encode_spec(Instruction::LSL { d }) == encode_spec(Instruction::ADD { d, r: d }),
        decode_spec(encode_spec(Instruction::LSL { d }).0, 0) == (Instruction::ADD { d, r: d }),
{
    lemma_round_trip_two_regs(d, d);
}

} // verus!
