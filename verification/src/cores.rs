//! The processor core: register file, status register, program counter,
//! stack pointer and the instruction interpreter.
//!
//! Every instruction is a method whose contract gives the core after the
//! instruction as a function of the core before it (and, where the
//! instruction reaches the data space, of the bus model before it).

use crate::bits::{
    bit16, bit8, lemma_word_of_bytes, set_bit8, test_bit16, test_bit8, write_bit8,
};
use crate::instruction::{decode, decode_spec, Instruction};
use crate::memory::{set_bit, set_bit_of, Memory, MemoryMapped, MemoryModel};
use vstd::array::spec_array_update;
use vstd::prelude::*;

verus! {

/// The interrupt controller as the core sees it. Its state is part of the
/// model of the bus that it sits on.
pub trait InterruptHandler: MemoryMapped {
    /// The vector to jump to, if an interrupt is to be taken now, and the
    /// model after the controller has noted that it is being serviced.
    spec fn pending_of(m: Self::Model) -> (Option<u16>, Self::Model);

    /// The model after the controller has been told that the handler
    /// returned.
    spec fn reti_of(m: Self::Model) -> Self::Model;

    fn service_pending(&mut self) -> (vector: Option<u16>)
        requires
            old(self).inv(),
        ensures
            final(self).inv(),
            (vector, final(self).model()) == Self::pending_of(old(self).model()),
    ;

    fn reti(&mut self)
        requires
            old(self).inv(),
        ensures
            final(self).inv(),
            final(self).model() == Self::reti_of(old(self).model()),
    ;
}

/// The program memory as the core sees it: bytes that reading does not change.
pub trait ProgramMemory: MemoryMapped {
    /// The program byte at a byte address.
    spec fn program_of(m: Self::Model, address: usize) -> u8;

    fn read_program(&self, address: usize) -> (byte: u8)
        requires
            self.inv(),
        ensures
            byte == Self::program_of(self.model(), address),
    ;
}

/// The variant of the core architecture.
#[allow(non_camel_case_types)]
#[derive(Clone, Copy, Debug, PartialEq, Eq, Structural)]
pub enum CoreType {
    AVR,
    AVRe,
    AVReplus,
    AVRxm,
    AVRxt,
    AVRrc,
}

/// The flags of the status register, from bit 0 to bit 7.
#[derive(Clone, Copy, Debug, PartialEq, Eq, Structural)]
pub enum BitSREG {
    C,
    Z,
    N,
    V,
    S,
    H,
    T,
    I,
}

impl BitSREG {
    /// The flag's bit position.
    #[verifier::allow_in_spec]
    pub fn index(self) -> u8
        returns
            (match self {
                BitSREG::C => 0u8,
                BitSREG::Z => 1u8,
                BitSREG::N => 2u8,
                BitSREG::V => 3u8,
                BitSREG::S => 4u8,
                BitSREG::H => 5u8,
                BitSREG::T => 6u8,
                BitSREG::I => 7u8,
            }),
    {
        match self {
            BitSREG::C => 0u8,
            BitSREG::Z => 1u8,
            BitSREG::N => 2u8,
            BitSREG::V => 3u8,
            BitSREG::S => 4u8,
            BitSREG::H => 5u8,
            BitSREG::T => 6u8,
            BitSREG::I => 7u8,
        }
    }

    /// The flag at a bit position.
    pub fn from(bit: u8) -> (flag: BitSREG)
        requires
            bit < 8,
        ensures
            flag.index() == bit,
    {
        if bit == 0 {
            BitSREG::C
        } else if bit == 1 {
            BitSREG::Z
        } else if bit == 2 {
            BitSREG::N
        } else if bit == 3 {
            BitSREG::V
        } else if bit == 4 {
            BitSREG::S
        } else if bit == 5 {
            BitSREG::H
        } else if bit == 6 {
            BitSREG::T
        } else {
            BitSREG::I
        }
    }
}

/// The three pointer register pairs.
#[derive(Clone, Copy, Debug, PartialEq, Eq, Structural)]
pub enum PointerRegister {
    X,
    Y,
    Z,
}

impl PointerRegister {
    /// The number of the pair's low register.
    #[verifier::allow_in_spec]
    pub fn low(self) -> u8
        returns
            (match self {
                PointerRegister::X => 26u8,
                PointerRegister::Y => 28u8,
                PointerRegister::Z => 30u8,
            }),
    {
        match self {
            PointerRegister::X => 26u8,
            PointerRegister::Y => 28u8,
            PointerRegister::Z => 30u8,
        }
    }
}

/// What the core did in its last clock cycle.
#[derive(Clone, Copy, Debug, PartialEq, Eq, Structural)]
pub enum Step {
    /// Nothing yet.
    Reset,
    /// A cycle of a multi-cycle instruction went by.
    Wait,
    /// An interrupt was acknowledged.
    Interrupt { vector: u16 },
    /// The instruction at word address `at` was fetched; it was executed
    /// unless the program counter could not advance past it.
    Fetch { at: u16, opcode: u16, instruction: Instruction },
}

/// The state of the core.
pub struct Core {
    pub variant: CoreType,
    pub regs: [u8; 32],
    pub sreg: u8,
    /// The program counter, in words.
    pub pc: u16,
    /// The stack pointer, in bytes.
    pub sp: u16,
    /// The cycles that the instruction in progress still takes.
    pub busy: u8,
    /// Set by `RETI`: the next instruction runs before any interrupt.
    pub interrupt_inhibit: bool,
    pub debug: bool,
    /// What the last call of `tick` did.
    pub last: Step,
    /// The first and the last address of the SRAM, once the core has been
    /// told where it lies.
    pub sram: Option<(u16, u16)>,
}

/// The value of a status flag.
pub open spec fn flag(sreg: u8, bit: BitSREG) -> bool {
    sreg & (1u8 << bit.index()) != 0
}

/// Overflow of an addition in two's complement:
/// `Rd7 & Rr7 & !R7 | !Rd7 & !Rr7 & R7`.
pub open spec fn add_overflow(rd: u8, rr: u8, res: u8) -> bool {
    bit8(rd, 7) && bit8(rr, 7) && !bit8(res, 7) || !bit8(rd, 7) && !bit8(rr, 7) && bit8(res, 7)
}

/// Carry out of bit 3 of an addition: `Rd3 & Rr3 | Rr3 & !R3 | !R3 & Rd3`.
pub open spec fn add_half_carry(rd: u8, rr: u8, res: u8) -> bool {
    bit8(rd, 3) && bit8(rr, 3) || bit8(rr, 3) && !bit8(res, 3) || !bit8(res, 3) && bit8(rd, 3)
}

/// Overflow of a subtraction in two's complement:
/// `Rd7 & !Rr7 & !R7 | !Rd7 & Rr7 & R7`.
pub open spec fn sub_overflow(rd: u8, rr: u8, res: u8) -> bool {
    bit8(rd, 7) && !bit8(rr, 7) && !bit8(res, 7) || !bit8(rd, 7) && bit8(rr, 7) && bit8(res, 7)
}

/// Borrow into bit 3 of a subtraction: `!Rd3 & Rr3 | Rr3 & R3 | R3 & !Rd3`.
pub open spec fn sub_half_carry(rd: u8, rr: u8, res: u8) -> bool {
    !bit8(rd, 3) && bit8(rr, 3) || bit8(rr, 3) && bit8(res, 3) || bit8(res, 3) && !bit8(rd, 3)
}

/// The status register after an arithmetic instruction: C, Z, N, V and H as
/// given, S = N xor V; T and I stay.
pub open spec fn flags_arith(sreg: u8, c: bool, z: bool, n: bool, v: bool, h: bool) -> u8 {
    set_bit8(
        set_bit8(set_bit8(set_bit8(set_bit8(set_bit8(sreg, 0, c), 1, z), 2, n), 3, v), 4, n != v),
        5,
        h,
    )
}

/// The status register after an instruction that leaves H alone: C, Z, N and
/// V as given, S = N xor V.
pub open spec fn flags_word(sreg: u8, c: bool, z: bool, n: bool, v: bool) -> u8 {
    set_bit8(set_bit8(set_bit8(set_bit8(set_bit8(sreg, 0, c), 1, z), 2, n), 3, v), 4, n != v)
}

/// The status register after an instruction that leaves C and H alone: Z, N
/// and V as given, S = N xor V.
pub open spec fn flags_logic(sreg: u8, z: bool, n: bool, v: bool) -> u8 {
    set_bit8(set_bit8(set_bit8(set_bit8(sreg, 1, z), 2, n), 3, v), 4, n != v)
}

/// The status register after a multiplication: C and Z as given.
pub open spec fn flags_product(sreg: u8, c: bool, z: bool) -> u8 {
    set_bit8(set_bit8(sreg, 0, c), 1, z)
}

/// Exactly the flags that were written read back as written, and the others
/// keep their values.
pub proof fn law_flags_read_back(sreg: u8, c: bool, z: bool, n: bool, v: bool, h: bool)
    by (bit_vector)
    ensures
        flags_arith(sreg, c, z, n, v, h) & 1 != 0 <==> c,
        flags_arith(sreg, c, z, n, v, h) & 2 != 0 <==> z,
        flags_arith(sreg, c, z, n, v, h) & 4 != 0 <==> n,
        flags_arith(sreg, c, z, n, v, h) & 8 != 0 <==> v,
        flags_arith(sreg, c, z, n, v, h) & 16 != 0 <==> (n != v),
        flags_arith(sreg, c, z, n, v, h) & 32 != 0 <==> h,
        flags_arith(sreg, c, z, n, v, h) & 0xC0 == sreg & 0xC0,
        flags_word(sreg, c, z, n, v) & 1 != 0 <==> c,
        flags_word(sreg, c, z, n, v) & 2 != 0 <==> z,
        flags_word(sreg, c, z, n, v) & 4 != 0 <==> n,
        flags_word(sreg, c, z, n, v) & 8 != 0 <==> v,
        flags_word(sreg, c, z, n, v) & 16 != 0 <==> (n != v),
        flags_word(sreg, c, z, n, v) & 0xE0 == sreg & 0xE0,
        flags_logic(sreg, z, n, v) & 2 != 0 <==> z,
        flags_logic(sreg, z, n, v) & 4 != 0 <==> n,
        flags_logic(sreg, z, n, v) & 8 != 0 <==> v,
        flags_logic(sreg, z, n, v) & 16 != 0 <==> (n != v),
        flags_logic(sreg, z, n, v) & 0xE1 == sreg & 0xE1,
        flags_product(sreg, c, z) & 1 != 0 <==> c,
        flags_product(sreg, c, z) & 2 != 0 <==> z,
        flags_product(sreg, c, z) & 0xFC == sreg & 0xFC,
{
}

/// What the flag formulas of addition mean in arithmetic: with `res` the low
/// eight bits of `rd + rr + carry`, V tells that the signed sum left the range
/// of a byte, H that the low nibbles carried, and N that the result is
/// negative.
pub proof fn law_addition_flags(rd: u8, rr: u8, carry: bool)
    by (bit_vector)
    ensures
        ({
            let c = if carry { 1u8 } else { 0u8 };
            let res = (rd + rr + c) as u8;
            let sum = (rd as i8) + (rr as i8) + c;
            &&& add_overflow(rd, rr, res) == (sum < -128 || sum > 127)
            &&& add_half_carry(rd, rr, res) == ((rd & 15) + (rr & 15) + c > 15)
            &&& bit8(res, 7) == ((res as i8) < 0)
        }),
{
}

/// What the flag formulas of subtraction mean in arithmetic: with `res` the
/// low eight bits of `rd - rr - carry`, V tells that the signed difference
/// left the range of a byte, and H that the low nibble borrowed.
pub proof fn law_subtraction_flags(rd: u8, rr: u8, carry: bool)
    by (bit_vector)
    ensures
        ({
            let c = if carry { 1u8 } else { 0u8 };
            let res = (rd - rr - c) as u8;
            let difference = (rd as i8) - (rr as i8) - c;
            &&& sub_overflow(rd, rr, res) == (difference < -128 || difference > 127)
            &&& sub_half_carry(rd, rr, res) == ((rd & 15) < (rr & 15) + c)
        }),
{
}

impl Core {
    /// A core after reset: registers and flags cleared, the program counter at
    /// zero, the stack pointer at `sp`.
    pub fn new(variant: CoreType, sp: u16) -> (core: Core)
        ensures
            core.variant == variant,
            forall|i: int| 0 <= i < 32 ==> core.regs[i] == 0,
            core.sreg == 0,
            core.pc == 0,
            core.sp == sp,
            core.busy == 0,
            !core.interrupt_inhibit,
            !core.debug,
            core.last == Step::Reset,
            core.sram is None,
    {
        Core {
            variant,
            regs: [0u8; 32],
            sreg: 0,
            pc: 0,
            sp,
            busy: 0,
            interrupt_inhibit: false,
            debug: false,
            last: Step::Reset,
            sram: None,
        }
    }

    /// Tells the core where the SRAM lies in the data space.
    pub fn map_sram(&mut self, first: u16, last: u16)
        ensures
            *final(self) == (Core { sram: Some((first, last)), ..*old(self) }),
    {
        self.sram = Some((first, last));
    }

    /// Switches the per-instruction trace on or off.
    pub fn debug(&mut self, on: bool)
        ensures
            *final(self) == (Core { debug: on, ..*old(self) }),
    {
        self.debug = on;
    }

    /// The core with register `d` holding `value`.
    pub open spec fn with_register(self, d: u8, value: u8) -> Core {
        Core { regs: spec_array_update(self.regs, d as int, value), ..self }
    }

    /// The sixteen-bit value of the pair whose low register is `low`.
    pub open spec fn register_word(self, low: u8) -> u16 {
        ((self.regs[low + 1] as u16) << 8) | (self.regs[low as int] as u16)
    }

    /// The core with the pair whose low register is `low` holding `value`.
    pub open spec fn with_register_word(self, low: u8, value: u16) -> Core {
        self.with_register(low, value as u8).with_register((low + 1) as u8, (value >> 8) as u8)
    }

    pub fn get_register(&self, register: u8) -> (value: u8)
        requires
            register < 32,
        ensures
            value == self.regs[register as int],
    {
        self.regs[register as usize]
    }

    pub fn set_register(&mut self, register: u8, value: u8)
        requires
            register < 32,
        ensures
            *final(self) == old(self).with_register(register, value),
    {
        self.regs[register as usize] = value;
    }

    pub fn get_register_word(&self, register_low: u8) -> (value: u16)
        requires
            register_low < 31,
        ensures
            value == self.register_word(register_low),
    {
        let low = self.regs[register_low as usize];
        let high = self.regs[register_low as usize + 1];
        ((high as u16) << 8) | (low as u16)
    }

    pub fn set_register_word(&mut self, register_low: u8, value: u16)
        requires
            register_low < 31,
        ensures
            *final(self) == old(self).with_register_word(register_low, value),
    {
        self.regs[register_low as usize] = value as u8;
        self.regs[register_low as usize + 1] = (value >> 8) as u8;
    }

    pub fn get_sreg_bit(&self, bit: BitSREG) -> (set: bool)
        ensures
            set == flag(self.sreg, bit),
    {
        (self.sreg & (1u8 << bit.index())) != 0
    }

    pub fn set_sreg_bit(&mut self, bit: BitSREG, set: bool)
        ensures
            *final(self) == (Core { sreg: set_bit8(old(self).sreg, bit.index(), set), ..*old(self) }),
    {
        if set {
            self.sreg |= 1u8 << bit.index();
        } else {
            self.sreg &= !(1u8 << bit.index());
        }
    }

    pub fn get_stack_pointer(&self) -> (sp: u16)
        ensures
            sp == self.sp,
    {
        self.sp
    }

    fn put_arith(&mut self, c: bool, z: bool, n: bool, v: bool, h: bool)
        ensures
            *final(self) == (Core {
                sreg: flags_arith(old(self).sreg, c, z, n, v, h),
                ..*old(self)
            }),
    {
        self.set_sreg_bit(BitSREG::C, c);
        self.set_sreg_bit(BitSREG::Z, z);
        self.set_sreg_bit(BitSREG::N, n);
        self.set_sreg_bit(BitSREG::V, v);
        self.set_sreg_bit(BitSREG::S, n != v);
        self.set_sreg_bit(BitSREG::H, h);
    }

    fn put_word(&mut self, c: bool, z: bool, n: bool, v: bool)
        ensures
            *final(self) == (Core { sreg: flags_word(old(self).sreg, c, z, n, v), ..*old(self) }),
    {
        self.set_sreg_bit(BitSREG::C, c);
        self.set_sreg_bit(BitSREG::Z, z);
        self.set_sreg_bit(BitSREG::N, n);
        self.set_sreg_bit(BitSREG::V, v);
        self.set_sreg_bit(BitSREG::S, n != v);
    }

    fn put_logic(&mut self, z: bool, n: bool, v: bool)
        ensures
            *final(self) == (Core { sreg: flags_logic(old(self).sreg, z, n, v), ..*old(self) }),
    {
        self.set_sreg_bit(BitSREG::Z, z);
        self.set_sreg_bit(BitSREG::N, n);
        self.set_sreg_bit(BitSREG::V, v);
        self.set_sreg_bit(BitSREG::S, n != v);
    }

    fn put_product(&mut self, c: bool, z: bool)
        ensures
            *final(self) == (Core { sreg: flags_product(old(self).sreg, c, z), ..*old(self) }),
    {
        self.set_sreg_bit(BitSREG::C, c);
        self.set_sreg_bit(BitSREG::Z, z);
    }
}

/// The arithmetic and logic instructions.
impl Core {
    /// The core after `Rd <- Rd + operand + carry`: the sum, wrapped to a byte, in
    /// `Rd`, C the carry out of bit 7, Z, N, V, S and H by the rules of
    /// addition.
    pub open spec fn sum_spec(self, d: u8, operand: u8, carry: bool) -> Core {
        let rd = self.regs[d as int];
        let cin: u8 = if carry { 1 } else { 0 };
        let res = rd.wrapping_add(operand).wrapping_add(cin);
        Core {
            sreg: flags_arith(
                self.sreg,
                rd + operand + cin > 255,
                res == 0,
                bit8(res, 7),
                add_overflow(rd, operand, res),
                add_half_carry(rd, operand, res),
            ),
            ..self.with_register(d, res)
        }
    }

    /// The core after `Rd - operand - carry`: C the borrow, N, V, S and H by
    /// the rules of subtraction; Z tells a zero result, and with `chain` it
    /// can only stay set or be cleared. The result goes to `Rd` if `store`.
    pub open spec fn difference_spec(
        self,
        d: u8,
        operand: u8,
        carry: bool,
        chain: bool,
        store: bool,
    ) -> Core {
        let rd = self.regs[d as int];
        let cin: u8 = if carry { 1 } else { 0 };
        let res = rd.wrapping_sub(operand).wrapping_sub(cin);
        let z = if chain { flag(self.sreg, BitSREG::Z) && res == 0 } else { res == 0 };
        let sreg = flags_arith(
            self.sreg,
            rd < operand + cin,
            z,
            bit8(res, 7),
            sub_overflow(rd, operand, res),
            sub_half_carry(rd, operand, res),
        );
        if store {
            Core { sreg, ..self.with_register(d, res) }
        } else {
            Core { sreg, ..self }
        }
    }

    /// The core after `Rd <- res` for the result of a bitwise instruction:
    /// V cleared, N and Z from the result, S = N.
    pub open spec fn logic_spec(self, d: u8, res: u8) -> Core {
        Core {
            sreg: flags_logic(self.sreg, res == 0, bit8(res, 7), false),
            ..self.with_register(d, res)
        }
    }

    /// The core after a one-bit shift of `Rd` to the right: C the bit shifted
    /// out, V = N xor C.
    pub open spec fn shift_spec(self, d: u8, res: u8) -> Core {
        let c = bit8(self.regs[d as int], 0);
        let n = bit8(res, 7);
        Core { sreg: flags_word(self.sreg, c, res == 0, n, n != c), ..self.with_register(d, res) }
    }

    /// The core after a multiplication: the product in R1:R0, C and Z as
    /// given, one further cycle to go.
    pub open spec fn product_spec(self, word: u16, c: bool) -> Core {
        Core {
            sreg: flags_product(self.sreg, c, word == 0),
            busy: 1,
            ..self.with_register_word(0, word)
        }
    }

    fn sum(&mut self, d: u8, operand: u8, carry: bool)
        requires
            d < 32,
        ensures
            *final(self) == old(self).sum_spec(d, operand, carry),
    {
        let rd = self.get_register(d);
        let cin: u8 = if carry { 1 } else { 0 };
        let wide: u16 = rd as u16 + operand as u16 + cin as u16;
        let res: u8 = rd.wrapping_add(operand).wrapping_add(cin);
        self.set_register(d, res);
        let rd7 = test_bit8(rd, 7);
        let rr7 = test_bit8(operand, 7);
        let r7 = test_bit8(res, 7);
        let rd3 = test_bit8(rd, 3);
        let rr3 = test_bit8(operand, 3);
        let r3 = test_bit8(res, 3);
        let v = rd7 && rr7 && !r7 || !rd7 && !rr7 && r7;
        let h = rd3 && rr3 || rr3 && !r3 || !r3 && rd3;
        self.put_arith(wide > 255, res == 0, r7, v, h);
    }

    fn difference(&mut self, d: u8, operand: u8, carry: bool, chain: bool, store: bool)
        requires
            d < 32,
        ensures
            *final(self) == old(self).difference_spec(d, operand, carry, chain, store),
    {
        let rd = self.get_register(d);
        let cin: u8 = if carry { 1 } else { 0 };
        let res: u8 = rd.wrapping_sub(operand).wrapping_sub(cin);
        let z = if chain { self.get_sreg_bit(BitSREG::Z) && res == 0 } else { res == 0 };
        if store {
            self.set_register(d, res);
        }
        let rd7 = test_bit8(rd, 7);
        let rr7 = test_bit8(operand, 7);
        let r7 = test_bit8(res, 7);
        let rd3 = test_bit8(rd, 3);
        let rr3 = test_bit8(operand, 3);
        let r3 = test_bit8(res, 3);
        let v = rd7 && !rr7 && !r7 || !rd7 && rr7 && r7;
        let h = !rd3 && rr3 || rr3 && r3 || r3 && !rd3;
        self.put_arith((rd as u16) < operand as u16 + cin as u16, z, r7, v, h);
    }

    fn logic(&mut self, d: u8, res: u8)
        requires
            d < 32,
        ensures
            *final(self) == old(self).logic_spec(d, res),
    {
        self.set_register(d, res);
        let n = test_bit8(res, 7);
        self.put_logic(res == 0, n, false);
    }

    fn shift(&mut self, d: u8, res: u8)
        requires
            d < 32,
        ensures
            *final(self) == old(self).shift_spec(d, res),
    {
        let c = test_bit8(self.get_register(d), 0);
        self.set_register(d, res);
        let n = test_bit8(res, 7);
        self.put_word(c, res == 0, n, n != c);
    }

    fn product(&mut self, word: u16, c: bool)
        ensures
            *final(self) == old(self).product_spec(word, c),
    {
        self.busy = 1;
        self.set_register_word(0, word);
        self.put_product(c, word == 0);
    }

    /// `ADC`: the core after `Rd <- Rd + Rr + C`.
    pub open spec fn adc_spec(self, d: u8, r: u8) -> Core {
        self.sum_spec(d, self.regs[r as int], flag(self.sreg, BitSREG::C))
    }

    /// Add with carry.
    pub fn adc(&mut self, d: u8, r: u8)
        requires
            d < 32,
            r < 32,
        ensures
            *final(self) == old(self).adc_spec(d, r),
    {
        let rr = self.get_register(r);
        let c = self.get_sreg_bit(BitSREG::C);
        self.sum(d, rr, c);
    }

    /// `ADD`: the core after `Rd <- Rd + Rr`.
    pub open spec fn add_spec(self, d: u8, r: u8) -> Core {
        self.sum_spec(d, self.regs[r as int], false)
    }

    /// Add without carry.
    pub fn add(&mut self, d: u8, r: u8)
        requires
            d < 32,
            r < 32,
        ensures
            *final(self) == old(self).add_spec(d, r),
    {
        let rr = self.get_register(r);
        self.sum(d, rr, false);
    }

    /// `ADIW`: the core after `R[d+1]:Rd <- R[d+1]:Rd + K`, with the flags
    /// computed on the sixteen-bit result (V = !Rd15 & R15) and one further
    /// cycle to go.
    #[allow(non_snake_case)]
    pub open spec fn adiw_spec(self, d: u8, K: u8) -> Core {
        let rd = self.register_word(d);
        let res = ((rd + K) % 0x1_0000) as u16;
        let n = bit16(res, 15);
        Core {
            sreg: flags_word(self.sreg, rd + K > 0xFFFF, res == 0, n, !bit16(rd, 15) && n),
            busy: 1,
            ..self.with_register_word(d, res)
        }
    }

    /// Add immediate to word.
    #[allow(non_snake_case)]
    pub fn adiw(&mut self, d: u8, K: u8)
        requires
            d < 31,
        ensures
            *final(self) == old(self).adiw_spec(d, K),
    {
        self.busy = 1;
        let rd = self.get_register_word(d);
        let wide: u32 = rd as u32 + K as u32;
        let res: u16 = (wide % 0x1_0000) as u16;
        self.set_register_word(d, res);
        let n = test_bit16(res, 15);
        let v = !test_bit16(rd, 15) && n;
        self.put_word(wide > 0xFFFF, res == 0, n, v);
    }

    /// `AND`: the core after `Rd <- Rd & Rr`.
    pub open spec fn and_spec(self, d: u8, r: u8) -> Core {
        self.logic_spec(d, self.regs[d as int] & self.regs[r as int])
    }

    /// Logical and.
    pub fn and(&mut self, d: u8, r: u8)
        requires
            d < 32,
            r < 32,
        ensures
            *final(self) == old(self).and_spec(d, r),
    {
        let res = self.get_register(d) & self.get_register(r);
        self.logic(d, res);
    }

    /// `ANDI`: the core after `Rd <- Rd & K`.
    #[allow(non_snake_case)]
    pub open spec fn andi_spec(self, d: u8, K: u8) -> Core {
        self.logic_spec(d, self.regs[d as int] & K)
    }

    /// Logical and with immediate.
    #[allow(non_snake_case)]
    pub fn andi(&mut self, d: u8, K: u8)
        requires
            d < 32,
        ensures
            *final(self) == old(self).andi_spec(d, K),
    {
        let res = self.get_register(d) & K;
        self.logic(d, res);
    }

    /// `COM`: the core after `Rd <- 0xFF - Rd`; C is set and V cleared.
    pub open spec fn com_spec(self, d: u8) -> Core {
        let res = !self.regs[d as int];
        Core {
            sreg: flags_word(self.sreg, true, res == 0, bit8(res, 7), false),
            ..self.with_register(d, res)
        }
    }

    /// One's complement.
    pub fn com(&mut self, d: u8)
        requires
            d < 32,
        ensures
            *final(self) == old(self).com_spec(d),
    {
        let res = !self.get_register(d);
        self.set_register(d, res);
        let n = test_bit8(res, 7);
        self.put_word(true, res == 0, n, false);
    }

    /// `DEC`: the core after `Rd <- Rd - 1`; C is left alone, and V is set
    /// exactly on the step from 0x80 to 0x7F.
    pub open spec fn dec_spec(self, d: u8) -> Core {
        let rd = self.regs[d as int];
        let res = rd.wrapping_sub(1);
        Core {
            sreg: flags_logic(self.sreg, res == 0, bit8(res, 7), rd == 0x80),
            ..self.with_register(d, res)
        }
    }

    /// Decrement.
    pub fn dec(&mut self, d: u8)
        requires
            d < 32,
        ensures
            *final(self) == old(self).dec_spec(d),
    {
        let rd = self.get_register(d);
        let res = rd.wrapping_sub(1);
        self.set_register(d, res);
        let n = test_bit8(res, 7);
        self.put_logic(res == 0, n, rd == 0x80);
    }

    /// `EOR`: the core after `Rd <- Rd ^ Rr`.
    pub open spec fn eor_spec(self, d: u8, r: u8) -> Core {
        self.logic_spec(d, self.regs[d as int] ^ self.regs[r as int])
    }

    /// Exclusive or.
    pub fn eor(&mut self, d: u8, r: u8)
        requires
            d < 32,
            r < 32,
        ensures
            *final(self) == old(self).eor_spec(d, r),
    {
        let res = self.get_register(d) ^ self.get_register(r);
        self.logic(d, res);
    }

    /// The unsigned product of two bytes.
    pub open spec fn unsigned_product(a: u8, b: u8) -> u16 {
        (a * b) as u16
    }

    /// The signed product of two bytes, as the sixteen bits of its two's
    /// complement.
    pub open spec fn signed_product(a: u8, b: u8) -> u16 {
        (((a as i8) * (b as i8)) as i16) as u16
    }

    /// The product of a signed and an unsigned byte, as the sixteen bits of
    /// its two's complement.
    pub open spec fn mixed_product(a: u8, b: u8) -> u16 {
        (((a as i8) * b) as i16) as u16
    }

    fn multiply_unsigned(a: u8, b: u8) -> (word: u16)
        ensures
            word == Self::unsigned_product(a, b),
    {
        assert(0 <= a * b <= 255 * 255) by (nonlinear_arith)
            requires
                0 <= a <= 255,
                0 <= b <= 255,
        ;
        a as u16 * b as u16
    }

    fn multiply_signed(a: u8, b: u8) -> (word: u16)
        ensures
            word == Self::signed_product(a, b),
    {
        let x = a as i8;
        let y = b as i8;
        assert(-128 * 128 <= x * y <= 128 * 128) by (nonlinear_arith)
            requires
                -128 <= x <= 127,
                -128 <= y <= 127,
        ;
        (x as i16 * y as i16) as u16
    }

    fn multiply_mixed(a: u8, b: u8) -> (word: u16)
        ensures
            word == Self::mixed_product(a, b),
    {
        let x = a as i8;
        assert(-128 * 255 <= x * b <= 127 * 255) by (nonlinear_arith)
            requires
                -128 <= x <= 127,
                0 <= b <= 255,
        ;
        (x as i16 * b as i16) as u16
    }

    /// `FMUL`: the core after `R1:R0 <- (Rd * Rr) << 1`, unsigned; C is bit
    /// 15 of the product before the shift.
    pub open spec fn fmul_spec(self, d: u8, r: u8) -> Core {
        let word = Self::unsigned_product(self.regs[d as int], self.regs[r as int]);
        self.product_spec(word << 1, bit16(word, 15))
    }

    /// Fractional multiply, unsigned.
    pub fn fmul(&mut self, d: u8, r: u8)
        requires
            d < 32,
            r < 32,
        ensures
            *final(self) == old(self).fmul_spec(d, r),
    {
        let word = Self::multiply_unsigned(self.get_register(d), self.get_register(r));
        let c = test_bit16(word, 15);
        self.product(word << 1, c);
    }

    /// `FMULS`: the core after `R1:R0 <- (Rd * Rr) << 1`, both signed.
    pub open spec fn fmuls_spec(self, d: u8, r: u8) -> Core {
        let word = Self::signed_product(self.regs[d as int], self.regs[r as int]);
        self.product_spec(word << 1, bit16(word, 15))
    }

    /// Fractional multiply, signed.
    pub fn fmuls(&mut self, d: u8, r: u8)
        requires
            d < 32,
            r < 32,
        ensures
            *final(self) == old(self).fmuls_spec(d, r),
    {
        let word = Self::multiply_signed(self.get_register(d), self.get_register(r));
        let c = test_bit16(word, 15);
        self.product(word << 1, c);
    }

    /// `FMULSU`: the core after `R1:R0 <- (Rd * Rr) << 1`, `Rd` signed and
    /// `Rr` unsigned.
    pub open spec fn fmulsu_spec(self, d: u8, r: u8) -> Core {
        let word = Self::mixed_product(self.regs[d as int], self.regs[r as int]);
        self.product_spec(word << 1, bit16(word, 15))
    }

    /// Fractional multiply, signed with unsigned.
    pub fn fmulsu(&mut self, d: u8, r: u8)
        requires
            d < 32,
            r < 32,
        ensures
            *final(self) == old(self).fmulsu_spec(d, r),
    {
        let word = Self::multiply_mixed(self.get_register(d), self.get_register(r));
        let c = test_bit16(word, 15);
        self.product(word << 1, c);
    }

    /// `INC`: the core after `Rd <- Rd + 1`; C is left alone, and V is set
    /// exactly on the step from 0x7F to 0x80.
    pub open spec fn inc_spec(self, d: u8) -> Core {
        let rd = self.regs[d as int];
        let res = rd.wrapping_add(1);
        Core {
            sreg: flags_logic(self.sreg, res == 0, bit8(res, 7), rd == 0x7F),
            ..self.with_register(d, res)
        }
    }

    /// Increment.
    pub fn inc(&mut self, d: u8)
        requires
            d < 32,
        ensures
            *final(self) == old(self).inc_spec(d),
    {
        let rd = self.get_register(d);
        let res = rd.wrapping_add(1);
        self.set_register(d, res);
        let n = test_bit8(res, 7);
        self.put_logic(res == 0, n, rd == 0x7F);
    }

    /// `MUL`: the core after `R1:R0 <- Rd * Rr`, unsigned.
    pub open spec fn mul_spec(self, d: u8, r: u8) -> Core {
        let word = Self::unsigned_product(self.regs[d as int], self.regs[r as int]);
        self.product_spec(word, bit16(word, 15))
    }

    /// Multiply, unsigned.
    pub fn mul(&mut self, d: u8, r: u8)
        requires
            d < 32,
            r < 32,
        ensures
            *final(self) == old(self).mul_spec(d, r),
    {
        let word = Self::multiply_unsigned(self.get_register(d), self.get_register(r));
        let c = test_bit16(word, 15);
        self.product(word, c);
    }

    /// `MULS`: the core after `R1:R0 <- Rd * Rr`, both signed.
    pub open spec fn muls_spec(self, d: u8, r: u8) -> Core {
        let word = Self::signed_product(self.regs[d as int], self.regs[r as int]);
        self.product_spec(word, bit16(word, 15))
    }

    /// Multiply, signed.
    pub fn muls(&mut self, d: u8, r: u8)
        requires
            d < 32,
            r < 32,
        ensures
            *final(self) == old(self).muls_spec(d, r),
    {
        let word = Self::multiply_signed(self.get_register(d), self.get_register(r));
        let c = test_bit16(word, 15);
        self.product(word, c);
    }

    /// `MULSU`: the core after `R1:R0 <- Rd * Rr`, `Rd` signed and `Rr`
    /// unsigned.
    pub open spec fn mulsu_spec(self, d: u8, r: u8) -> Core {
        let word = Self::mixed_product(self.regs[d as int], self.regs[r as int]);
        self.product_spec(word, bit16(word, 15))
    }

    /// Multiply, signed with unsigned.
    pub fn mulsu(&mut self, d: u8, r: u8)
        requires
            d < 32,
            r < 32,
        ensures
            *final(self) == old(self).mulsu_spec(d, r),
    {
        let word = Self::multiply_mixed(self.get_register(d), self.get_register(r));
        let c = test_bit16(word, 15);
        self.product(word, c);
    }

    /// `NEG`: the core after `Rd <- 0 - Rd`; C tells a non-zero result, V the
    /// result 0x80, and H is `R3 | Rd3`.
    pub open spec fn neg_spec(self, d: u8) -> Core {
        let rd = self.regs[d as int];
        let res = (!rd).wrapping_add(1);
        Core {
            sreg: flags_arith(
                self.sreg,
                res != 0,
                res == 0,
                bit8(res, 7),
                res == 0x80,
                bit8(res, 3) || bit8(rd, 3),
            ),
            ..self.with_register(d, res)
        }
    }

    /// Two's complement.
    pub fn neg(&mut self, d: u8)
        requires
            d < 32,
        ensures
            *final(self) == old(self).neg_spec(d),
    {
        let rd = self.get_register(d);
        let res = (!rd).wrapping_add(1);
        self.set_register(d, res);
        let n = test_bit8(res, 7);
        let h = test_bit8(res, 3) || test_bit8(rd, 3);
        self.put_arith(res != 0, res == 0, n, res == 0x80, h);
    }

    /// `OR`: the core after `Rd <- Rd | Rr`.
    pub open spec fn or_spec(self, d: u8, r: u8) -> Core {
        self.logic_spec(d, self.regs[d as int] | self.regs[r as int])
    }

    /// Logical or.
    pub fn or(&mut self, d: u8, r: u8)
        requires
            d < 32,
            r < 32,
        ensures
            *final(self) == old(self).or_spec(d, r),
    {
        let res = self.get_register(d) | self.get_register(r);
        self.logic(d, res);
    }

    /// `ORI`: the core after `Rd <- Rd | K`.
    #[allow(non_snake_case)]
    pub open spec fn ori_spec(self, d: u8, K: u8) -> Core {
        self.logic_spec(d, self.regs[d as int] | K)
    }

    /// Logical or with immediate.
    #[allow(non_snake_case)]
    pub fn ori(&mut self, d: u8, K: u8)
        requires
            d < 32,
        ensures
            *final(self) == old(self).ori_spec(d, K),
    {
        let res = self.get_register(d) | K;
        self.logic(d, res);
    }

    /// `SBC`: the core after `Rd <- Rd - Rr - C`; Z can only be cleared.
    pub open spec fn sbc_spec(self, d: u8, r: u8) -> Core {
        self.difference_spec(d, self.regs[r as int], flag(self.sreg, BitSREG::C), true, true)
    }

    /// Subtract with carry.
    pub fn sbc(&mut self, d: u8, r: u8)
        requires
            d < 32,
            r < 32,
        ensures
            *final(self) == old(self).sbc_spec(d, r),
    {
        let rr = self.get_register(r);
        let c = self.get_sreg_bit(BitSREG::C);
        self.difference(d, rr, c, true, true);
    }

    /// `SBCI`: the core after `Rd <- Rd - K - C`; Z can only be cleared.
    #[allow(non_snake_case)]
    pub open spec fn sbci_spec(self, d: u8, K: u8) -> Core {
        self.difference_spec(d, K, flag(self.sreg, BitSREG::C), true, true)
    }

    /// Subtract immediate with carry.
    #[allow(non_snake_case)]
    pub fn sbci(&mut self, d: u8, K: u8)
        requires
            d < 32,
        ensures
            *final(self) == old(self).sbci_spec(d, K),
    {
        let c = self.get_sreg_bit(BitSREG::C);
        self.difference(d, K, c, true, true);
    }

    /// `SBIW`: the core after `R[d+1]:Rd <- R[d+1]:Rd - K`, with the flags
    /// computed on the sixteen-bit result (V = !R15 & Rd15) and one further
    /// cycle to go.
    #[allow(non_snake_case)]
    pub open spec fn sbiw_spec(self, d: u8, K: u8) -> Core {
        let rd = self.register_word(d);
        let res = ((rd - K) % 0x1_0000) as u16;
        let n = bit16(res, 15);
        Core {
            sreg: flags_word(self.sreg, rd < K, res == 0, n, !n && bit16(rd, 15)),
            busy: 1,
            ..self.with_register_word(d, res)
        }
    }

    /// Subtract immediate from word.
    #[allow(non_snake_case)]
    pub fn sbiw(&mut self, d: u8, K: u8)
        requires
            d < 31,
        ensures
            *final(self) == old(self).sbiw_spec(d, K),
    {
        self.busy = 1;
        let rd = self.get_register_word(d);
        let wide: u32 = 0x1_0000 + rd as u32 - K as u32;
        let res: u16 = (wide % 0x1_0000) as u16;
        self.set_register_word(d, res);
        let n = test_bit16(res, 15);
        let v = !n && test_bit16(rd, 15);
        self.put_word(rd < K as u16, res == 0, n, v);
    }

    /// `SUB`: the core after `Rd <- Rd - Rr`.
    pub open spec fn sub_spec(self, d: u8, r: u8) -> Core {
        self.difference_spec(d, self.regs[r as int], false, false, true)
    }

    /// Subtract without carry.
    pub fn sub(&mut self, d: u8, r: u8)
        requires
            d < 32,
            r < 32,
        ensures
            *final(self) == old(self).sub_spec(d, r),
    {
        let rr = self.get_register(r);
        self.difference(d, rr, false, false, true);
    }

    /// `SUBI`: the core after `Rd <- Rd - K`.
    #[allow(non_snake_case)]
    pub open spec fn subi_spec(self, d: u8, K: u8) -> Core {
        self.difference_spec(d, K, false, false, true)
    }

    /// Subtract immediate.
    #[allow(non_snake_case)]
    pub fn subi(&mut self, d: u8, K: u8)
        requires
            d < 32,
        ensures
            *final(self) == old(self).subi_spec(d, K),
    {
        self.difference(d, K, false, false, true);
    }

    /// `CP`: the core after comparing `Rd` with `Rr`: the flags of `SUB`, the
    /// registers untouched.
    pub open spec fn cp_spec(self, d: u8, r: u8) -> Core {
        self.difference_spec(d, self.regs[r as int], false, false, false)
    }

    /// Compare.
    pub fn cp(&mut self, d: u8, r: u8)
        requires
            d < 32,
            r < 32,
        ensures
            *final(self) == old(self).cp_spec(d, r),
    {
        let rr = self.get_register(r);
        self.difference(d, rr, false, false, false);
    }

    /// `CPC`: the core after comparing `Rd` with `Rr + C`: the flags of
    /// `SBC`, the registers untouched.
    pub open spec fn cpc_spec(self, d: u8, r: u8) -> Core {
        self.difference_spec(d, self.regs[r as int], flag(self.sreg, BitSREG::C), true, false)
    }

    /// Compare with carry.
    pub fn cpc(&mut self, d: u8, r: u8)
        requires
            d < 32,
            r < 32,
        ensures
            *final(self) == old(self).cpc_spec(d, r),
    {
        let rr = self.get_register(r);
        let c = self.get_sreg_bit(BitSREG::C);
        self.difference(d, rr, c, true, false);
    }

    /// `CPI`: the core after comparing `Rd` with `K`.
    #[allow(non_snake_case)]
    pub open spec fn cpi_spec(self, d: u8, K: u8) -> Core {
        self.difference_spec(d, K, false, false, false)
    }

    /// Compare with immediate.
    #[allow(non_snake_case)]
    pub fn cpi(&mut self, d: u8, K: u8)
        requires
            d < 32,
        ensures
            *final(self) == old(self).cpi_spec(d, K),
    {
        self.difference(d, K, false, false, false);
    }
}

/// The bit manipulation instructions and the register moves.
impl Core {
    /// `ASR`: the core after shifting `Rd` right by one bit, bit 7 kept.
    pub open spec fn asr_spec(self, d: u8) -> Core {
        self.shift_spec(d, ((self.regs[d as int] as i8) >> 1u8) as u8)
    }

    /// Arithmetic shift right.
    pub fn asr(&mut self, d: u8)
        requires
            d < 32,
        ensures
            *final(self) == old(self).asr_spec(d),
    {
        let res = ((self.get_register(d) as i8) >> 1u8) as u8;
        self.shift(d, res);
    }

    /// `BCLR`: the core with status flag `s` cleared.
    pub open spec fn bclr_spec(self, s: u8) -> Core {
        Core { sreg: set_bit8(self.sreg, s, false), ..self }
    }

    /// Clear a status flag.
    pub fn bclr(&mut self, s: u8)
        requires
            s < 8,
        ensures
            *final(self) == old(self).bclr_spec(s),
    {
        self.set_sreg_bit(BitSREG::from(s), false);
    }

    /// `BLD`: the core with bit `b` of `Rd` loaded from the T flag.
    pub open spec fn bld_spec(self, d: u8, b: u8) -> Core {
        self.with_register(d, set_bit8(self.regs[d as int], b, flag(self.sreg, BitSREG::T)))
    }

    /// Load a register bit from T.
    pub fn bld(&mut self, d: u8, b: u8)
        requires
            d < 32,
            b < 8,
        ensures
            *final(self) == old(self).bld_spec(d, b),
    {
        if self.get_sreg_bit(BitSREG::T) {
            self.set_register(d, self.get_register(d) | (1u8 << b));
        } else {
            self.set_register(d, self.get_register(d) & !(1u8 << b));
        }
    }

    /// `BSET`: the core with status flag `s` set.
    pub open spec fn bset_spec(self, s: u8) -> Core {
        Core { sreg: set_bit8(self.sreg, s, true), ..self }
    }

    /// Set a status flag.
    pub fn bset(&mut self, s: u8)
        requires
            s < 8,
        ensures
            *final(self) == old(self).bset_spec(s),
    {
        self.set_sreg_bit(BitSREG::from(s), true);
    }

    /// `BST`: the core with the T flag holding bit `b` of `Rd`.
    pub open spec fn bst_spec(self, d: u8, b: u8) -> Core {
        Core { sreg: set_bit8(self.sreg, 6, self.regs[d as int] & (1u8 << b) != 0), ..self }
    }

    /// Store a register bit to T.
    pub fn bst(&mut self, d: u8, b: u8)
        requires
            d < 32,
            b < 8,
        ensures
            *final(self) == old(self).bst_spec(d, b),
    {
        let set = (self.get_register(d) & (1u8 << b)) != 0;
        self.set_sreg_bit(BitSREG::T, set);
    }

    /// `LSL`: the core after shifting `Rd` left by one bit; C is the bit
    /// shifted out, H the old bit 3, V = N xor C.
    pub open spec fn lsl_spec(self, d: u8) -> Core {
        let rd = self.regs[d as int];
        let res = rd << 1u8;
        let c = bit8(rd, 7);
        let n = bit8(res, 7);
        Core {
            sreg: flags_arith(self.sreg, c, res == 0, n, n != c, bit8(rd, 3)),
            ..self.with_register(d, res)
        }
    }

    /// Logical shift left.
    pub fn lsl(&mut self, d: u8)
        requires
            d < 32,
        ensures
            *final(self) == old(self).lsl_spec(d),
    {
        let rd = self.get_register(d);
        let res = rd << 1u8;
        self.set_register(d, res);
        let c = test_bit8(rd, 7);
        let n = test_bit8(res, 7);
        let h = test_bit8(rd, 3);
        self.put_arith(c, res == 0, n, n != c, h);
    }

    /// `LSR`: the core after shifting `Rd` right by one bit; N is cleared.
    pub open spec fn lsr_spec(self, d: u8) -> Core {
        let rd = self.regs[d as int];
        let res = rd >> 1u8;
        let c = bit8(rd, 0);
        Core { sreg: flags_word(self.sreg, c, res == 0, false, c), ..self.with_register(d, res) }
    }

    /// Logical shift right.
    pub fn lsr(&mut self, d: u8)
        requires
            d < 32,
        ensures
            *final(self) == old(self).lsr_spec(d),
    {
        let rd = self.get_register(d);
        let res = rd >> 1u8;
        self.set_register(d, res);
        let c = test_bit8(rd, 0);
        self.put_word(c, res == 0, false, c);
    }

    /// `ROR`: the core after rotating `Rd` right through the carry flag.
    pub open spec fn ror_spec(self, d: u8) -> Core {
        let rd = self.regs[d as int];
        let res = if flag(self.sreg, BitSREG::C) { (rd >> 1u8) | 0x80u8 } else { rd >> 1u8 };
        self.shift_spec(d, res)
    }

    /// Rotate right through carry.
    pub fn ror(&mut self, d: u8)
        requires
            d < 32,
        ensures
            *final(self) == old(self).ror_spec(d),
    {
        let rd = self.get_register(d);
        let mut res = rd >> 1u8;
        if self.get_sreg_bit(BitSREG::C) {
            res = res | 0x80u8;
        }
        self.shift(d, res);
    }

    /// `SWAP`: the core with the nibbles of `Rd` exchanged.
    pub open spec fn swap_spec(self, d: u8) -> Core {
        self.with_register(d, (self.regs[d as int] << 4u8) | (self.regs[d as int] >> 4u8))
    }

    /// Swap nibbles.
    pub fn swap(&mut self, d: u8)
        requires
            d < 32,
        ensures
            *final(self) == old(self).swap_spec(d),
    {
        let rd = self.get_register(d);
        self.set_register(d, (rd << 4u8) | (rd >> 4u8));
    }

    /// `LDI`: the core with `Rd` holding `K`.
    #[allow(non_snake_case)]
    pub fn ldi(&mut self, d: u8, K: u8)
        requires
            d < 32,
        ensures
            *final(self) == old(self).with_register(d, K),
    {
        self.set_register(d, K);
    }

    /// `MOV`: the core with `Rd` holding a copy of `Rr`.
    pub fn mov(&mut self, d: u8, r: u8)
        requires
            d < 32,
            r < 32,
        ensures
            *final(self) == old(self).with_register(d, old(self).regs[r as int]),
    {
        self.set_register(d, self.get_register(r));
    }

    /// `MOVW`: the core with the pair at `d` holding a copy of the pair at `r`.
    pub fn movw(&mut self, d: u8, r: u8)
        requires
            d < 31,
            r < 31,
        ensures
            *final(self) == old(self).with_register_word(d, old(self).register_word(r)),
    {
        self.set_register_word(d, self.get_register_word(r));
    }
}

/// The instructions that reach the data space, the program memory or the
/// interrupt controller. The first thirty-two data addresses are the working
/// registers R0 to R31, and the core serves the addresses of SREG (0x3F), SPH
/// (0x3E) and SPL (0x3D) itself; every other address goes to the bus.
impl Core {
    /// The byte that the core reads at a data address, and the bus model
    /// after the read.
    pub open spec fn load_of<B: MemoryMapped>(self, m: B::Model, address: usize) -> (u8, B::Model) {
        if address < 32 {
            (self.regs[address as int], m)
        } else if address == 0x3F {
            (self.sreg, m)
        } else if address == 0x3E {
            ((self.sp >> 8) as u8, m)
        } else if address == 0x3D {
            ((self.sp & 0xFF) as u8, m)
        } else {
            let got = B::read_of(m, address);
            (got.0, got.2)
        }
    }

    /// The core and the bus model after the core has written `value` at a
    /// data address.
    pub open spec fn store_of<B: MemoryMapped>(self, m: B::Model, address: usize, value: u8) -> (
        Core,
        B::Model,
    ) {
        if address < 32 {
            (self.with_register(address as u8, value), m)
        } else if address == 0x3F {
            (Core { sreg: value, ..self }, m)
        } else if address == 0x3E {
            (Core { sp: (self.sp & 0x00FF) | ((value as u16) << 8), ..self }, m)
        } else if address == 0x3D {
            (Core { sp: (self.sp & 0xFF00) | (value as u16), ..self }, m)
        } else {
            (self, B::write_of(m, address, value).1)
        }
    }

    /// The core and the bus model after one bit of the byte at an I/O address
    /// has been set or cleared.
    #[allow(non_snake_case)]
    pub open spec fn io_bit_of<B: MemoryMapped>(self, m: B::Model, A: u8, b: u8, state: bool) -> (
        Core,
        B::Model,
    ) {
        if A < 32 {
            (self.with_register(A, set_bit8(self.regs[A as int], b, state)), m)
        } else if A == 0x3F {
            (Core { sreg: set_bit8(self.sreg, b, state), ..self }, m)
        } else if A == 0x3D {
            (Core { sp: crate::bits::set_bit16(self.sp, b as u16, state), ..self }, m)
        } else if A == 0x3E {
            (Core { sp: crate::bits::set_bit16(self.sp, (b + 8) as u16, state), ..self }, m)
        } else {
            (self, set_bit_of::<B>(m, A as usize, b, state))
        }
    }

    /// The program word at a word address: two program bytes, low byte first.
    pub open spec fn fetch_of<B: ProgramMemory>(m: B::Model, pc: u32) -> u16 {
        ((B::program_of(m, ((pc << 1) | 1) as usize) as u16) << 8) | (B::program_of(
            m,
            (pc << 1) as usize,
        ) as u16)
    }

    /// The core and the bus model after a word has been pushed: the low byte
    /// at the stack pointer, the high byte below it, the stack pointer two
    /// lower.
    pub open spec fn push_word_of<B: MemoryMapped>(self, m: B::Model, word: u16) -> (
        Core,
        B::Model,
    ) {
        let low = B::write_of(m, self.sp as usize, word as u8);
        let below = self.sp.wrapping_sub(1);
        let high = B::write_of(low.1, below as usize, (word >> 8) as u8);
        (Core { sp: below.wrapping_sub(1), ..self }, high.1)
    }

    /// The word popped, and the core and the bus model after the pop: the
    /// high byte is read first, from one above the stack pointer, the low
    /// byte from two above, and the stack pointer ends two higher.
    pub open spec fn pop_word_of<B: MemoryMapped>(self, m: B::Model) -> (u16, Core, B::Model) {
        let first = self.sp.wrapping_add(1);
        let high = B::read_of(m, first as usize);
        let second = first.wrapping_add(1);
        let low = B::read_of(high.2, second as usize);
        (((high.0 as u16) << 8) | (low.0 as u16), Core { sp: second, ..self }, low.2)
    }

    /// The core after skipping the instruction at the program counter: two
    /// words and two further cycles for a two-word instruction, one and one
    /// otherwise.
    pub open spec fn skip_of<B: ProgramMemory>(self, m: B::Model) -> Core {
        let next = decode_spec(
            Self::fetch_of::<B>(m, self.pc as u32),
            Self::fetch_of::<B>(m, (self.pc + 1) as u32),
        );
        if next.is_two_words() {
            Core { pc: self.pc.wrapping_add(2), busy: 2, ..self }
        } else {
            Core { pc: self.pc.wrapping_add(1), busy: 1, ..self }
        }
    }

    pub fn get_io_register<B: MemoryMapped>(&self, ds: &mut B, register: u8) -> (value: u8)
        requires
            old(ds).inv(),
        ensures
            final(ds).inv(),
            (value, final(ds).model()) == self.load_of::<B>(old(ds).model(), register as usize),
    {
        if register < 32 {
            self.regs[register as usize]
        } else if register == 0x3F {
            self.sreg
        } else if register == 0x3E {
            (self.sp >> 8) as u8
        } else if register == 0x3D {
            (self.sp & 0xFF) as u8
        } else {
            ds.read(register as usize).0
        }
    }

    pub fn set_io_register<B: MemoryMapped>(&mut self, ds: &mut B, register: u8, value: u8)
        requires
            old(ds).inv(),
        ensures
            final(ds).inv(),
            (*final(self), final(ds).model()) == old(self).store_of::<B>(
                old(ds).model(),
                register as usize,
                value,
            ),
    {
        if register < 32 {
            self.set_register(register, value);
        } else if register == 0x3F {
            self.sreg = value;
        } else if register == 0x3E {
            self.sp = (self.sp & 0x00FF) | ((value as u16) << 8);
        } else if register == 0x3D {
            self.sp = (self.sp & 0xFF00) | (value as u16);
        } else {
            ds.write(register as usize, value);
        }
    }

    pub fn get_data_space<B: MemoryMapped>(&self, ds: &mut B, address: u32) -> (value: u8)
        requires
            old(ds).inv(),
        ensures
            final(ds).inv(),
            (value, final(ds).model()) == self.load_of::<B>(old(ds).model(), address as usize),
    {
        if address < 32 {
            self.regs[address as usize]
        } else if address == 0x3F {
            self.sreg
        } else if address == 0x3E {
            (self.sp >> 8) as u8
        } else if address == 0x3D {
            (self.sp & 0xFF) as u8
        } else {
            ds.read(address as usize).0
        }
    }

    pub fn set_data_space<B: MemoryMapped>(&mut self, ds: &mut B, address: u32, value: u8)
        requires
            old(ds).inv(),
        ensures
            final(ds).inv(),
            (*final(self), final(ds).model()) == old(self).store_of::<B>(
                old(ds).model(),
                address as usize,
                value,
            ),
    {
        if address < 32 {
            self.set_register(address as u8, value);
        } else if address == 0x3F {
            self.sreg = value;
        } else if address == 0x3E {
            self.sp = (self.sp & 0x00FF) | ((value as u16) << 8);
        } else if address == 0x3D {
            self.sp = (self.sp & 0xFF00) | (value as u16);
        } else {
            ds.write(address as usize, value);
        }
    }

    /// The program byte at a byte address.
    pub fn get_ps<B: ProgramMemory>(&self, progmem: &B, address: u32) -> (value: u8)
        requires
            progmem.inv(),
        ensures
            value == B::program_of(progmem.model(), address as usize),
    {
        progmem.read_program(address as usize)
    }

    /// The program word at a word address.
    pub fn get_progmem<B: ProgramMemory>(&self, progmem: &B, pc: u32) -> (word: u16)
        requires
            progmem.inv(),
            pc <= 0x1_0000,
        ensures
            word == Self::fetch_of::<B>(progmem.model(), pc),
    {
        let low = progmem.read_program((pc << 1) as usize);
        let high = progmem.read_program(((pc << 1) | 1) as usize);
        ((high as u16) << 8) | (low as u16)
    }

    fn push_word<B: MemoryMapped>(&mut self, ds: &mut B, word: u16)
        requires
            old(ds).inv(),
        ensures
            final(ds).inv(),
            (*final(self), final(ds).model()) == old(self).push_word_of::<B>(old(ds).model(), word),
    {
        ds.write(self.sp as usize, word as u8);
        self.sp = self.sp.wrapping_sub(1);
        ds.write(self.sp as usize, (word >> 8) as u8);
        self.sp = self.sp.wrapping_sub(1);
    }

    fn pop_word<B: MemoryMapped>(&mut self, ds: &mut B) -> (word: u16)
        requires
            old(ds).inv(),
        ensures
            final(ds).inv(),
            (word, *final(self), final(ds).model()) == old(self).pop_word_of::<B>(old(ds).model()),
    {
        self.sp = self.sp.wrapping_add(1);
        let (bh, _) = ds.read(self.sp as usize);
        self.sp = self.sp.wrapping_add(1);
        let (bl, _) = ds.read(self.sp as usize);
        ((bh as u16) << 8) | (bl as u16)
    }

    fn skip<B: ProgramMemory>(&mut self, progmem: &B)
        requires
            progmem.inv(),
        ensures
            *final(self) == old(self).skip_of::<B>(progmem.model()),
    {
        let opcode = self.get_progmem(progmem, self.pc as u32);
        let prefetch = self.get_progmem(progmem, self.pc as u32 + 1);
        let op = decode(opcode, prefetch);
        if op.two_words() {
            self.pc = self.pc.wrapping_add(2);
            self.busy = 2;
        } else {
            self.pc = self.pc.wrapping_add(1);
            self.busy = 1;
        }
    }

    /// `BRBC` and `BRBS`: the core after a conditional branch on status flag
    /// `s`: taken, at the cost of one further cycle, exactly when the flag
    /// equals `set`.
    pub open spec fn brbx_spec(self, s: u8, k: i8, set: bool) -> Core {
        if (self.sreg & (1u8 << s) != 0) == set {
            Core { pc: ((self.pc as i32 + k as i32) as u16), busy: 1, ..self }
        } else {
            self
        }
    }

    /// Branch if a status flag is set or cleared.
    pub fn brbx(&mut self, s: u8, k: i8, set: bool)
        requires
            s < 8,
        ensures
            *final(self) == old(self).brbx_spec(s, k, set),
    {
        if self.get_sreg_bit(BitSREG::from(s)) == set {
            let pc: i32 = self.pc as i32 + k as i32;
            self.pc = #[verifier::truncate] (pc as u16);
            self.busy = 1;
        }
    }

    /// `CALL`: the address of the instruction after the two-word call is
    /// pushed, and execution continues at `k`.
    pub open spec fn call_of<B: MemoryMapped>(self, m: B::Model, k: u32) -> (Core, B::Model) {
        let pushed = self.push_word_of::<B>(m, self.pc.wrapping_add(1));
        (Core { pc: k as u16, busy: 2, ..pushed.0 }, pushed.1)
    }

    /// Long call to a subroutine.
    pub fn call<B: MemoryMapped>(&mut self, ds: &mut B, k: u32)
        requires
            old(ds).inv(),
        ensures
            final(ds).inv(),
            (*final(self), final(ds).model()) == old(self).call_of::<B>(old(ds).model(), k),
    {
        self.busy = 2;
        self.push_word(ds, self.pc.wrapping_add(1));
        self.pc = #[verifier::truncate] (k as u16);
    }

    /// `CPSE`: the next instruction is skipped when `Rd` equals `Rr`.
    pub open spec fn cpse_of<B: ProgramMemory>(self, m: B::Model, d: u8, r: u8) -> Core {
        if self.regs[d as int] == self.regs[r as int] {
            self.skip_of::<B>(m)
        } else {
            self
        }
    }

    /// Compare, skip if equal.
    pub fn cpse<B: ProgramMemory>(&mut self, progmem: &B, d: u8, r: u8)
        requires
            progmem.inv(),
            d < 32,
            r < 32,
        ensures
            *final(self) == old(self).cpse_of::<B>(progmem.model(), d, r),
    {
        if self.get_register(d) == self.get_register(r) {
            self.skip(progmem);
        }
    }

    /// `ICALL`: the address of the next instruction is pushed, and execution
    /// continues at the address in Z.
    pub open spec fn icall_of<B: MemoryMapped>(self, m: B::Model) -> (Core, B::Model) {
        let pushed = self.push_word_of::<B>(m, self.pc);
        (Core { pc: self.register_word(30), busy: 1, ..pushed.0 }, pushed.1)
    }

    /// Indirect call to a subroutine.
    pub fn icall<B: MemoryMapped>(&mut self, ds: &mut B)
        requires
            old(ds).inv(),
        ensures
            final(ds).inv(),
            (*final(self), final(ds).model()) == old(self).icall_of::<B>(old(ds).model()),
    {
        self.busy = 1;
        self.push_word(ds, self.pc);
        self.pc = self.get_register_word(30);
    }

    /// `IJMP`: execution continues at the address in Z.
    pub open spec fn ijmp_spec(self) -> Core {
        Core { pc: self.register_word(30), busy: 1, ..self }
    }

    /// Indirect jump.
    pub fn ijmp(&mut self)
        ensures
            *final(self) == old(self).ijmp_spec(),
    {
        self.busy = 1;
        self.pc = self.get_register_word(30);
    }

    /// `JMP`: execution continues at `k`.
    pub open spec fn jmp_spec(self, k: u32) -> Core {
        Core { pc: k as u16, busy: 2, ..self }
    }

    /// Long jump.
    pub fn jmp(&mut self, k: u32)
        ensures
            *final(self) == old(self).jmp_spec(k),
    {
        self.busy = 2;
        self.pc = #[verifier::truncate] (k as u16);
    }

    /// `RCALL`: the address of the next instruction is pushed, and execution
    /// continues `k` words from it.
    pub open spec fn rcall_of<B: MemoryMapped>(self, m: B::Model, k: i16) -> (Core, B::Model) {
        let pushed = self.push_word_of::<B>(m, self.pc);
        (Core { pc: self.pc.wrapping_add(k as u16), busy: 1, ..pushed.0 }, pushed.1)
    }

    /// Relative call to a subroutine.
    pub fn rcall<B: MemoryMapped>(&mut self, ds: &mut B, k: i16)
        requires
            old(ds).inv(),
        ensures
            final(ds).inv(),
            (*final(self), final(ds).model()) == old(self).rcall_of::<B>(old(ds).model(), k),
    {
        self.busy = 1;
        let target = self.pc.wrapping_add(#[verifier::truncate] (k as u16));
        self.push_word(ds, self.pc);
        self.pc = target;
    }

    /// `RET`: execution continues at the address popped from the stack.
    pub open spec fn ret_of<B: MemoryMapped>(self, m: B::Model) -> (Core, B::Model) {
        let popped = self.pop_word_of::<B>(m);
        (Core { pc: popped.0, busy: 3, ..popped.1 }, popped.2)
    }

    /// Return from a subroutine.
    pub fn ret<B: MemoryMapped>(&mut self, ds: &mut B)
        requires
            old(ds).inv(),
        ensures
            final(ds).inv(),
            (*final(self), final(ds).model()) == old(self).ret_of::<B>(old(ds).model()),
    {
        self.busy = 3;
        let target = self.pop_word(ds);
        self.pc = target;
    }

    /// `RETI`: as `RET`; in addition the interrupt controller is told that
    /// the handler is done, and the next instruction is shielded from
    /// interrupts.
    pub open spec fn reti_of<B: InterruptHandler>(self, m: B::Model) -> (Core, B::Model) {
        let popped = self.pop_word_of::<B>(m);
        (
            Core { pc: popped.0, busy: 3, interrupt_inhibit: true, ..popped.1 },
            B::reti_of(popped.2),
        )
    }

    /// Return from an interrupt handler.
    pub fn reti<B: InterruptHandler>(&mut self, bus: &mut B)
        requires
            old(bus).inv(),
        ensures
            final(bus).inv(),
            (*final(self), final(bus).model()) == old(self).reti_of::<B>(old(bus).model()),
    {
        self.busy = 3;
        let target = self.pop_word(bus);
        self.pc = target;
        bus.reti();
        self.interrupt_inhibit = true;
    }

    /// `RJMP`: execution continues `k` words from the next instruction.
    pub open spec fn rjmp_spec(self, k: i16) -> Core {
        Core { pc: self.pc.wrapping_add(k as u16), busy: 1, ..self }
    }

    /// Relative jump.
    pub fn rjmp(&mut self, k: i16)
        ensures
            *final(self) == old(self).rjmp_spec(k),
    {
        self.busy = 1;
        self.pc = self.pc.wrapping_add(#[verifier::truncate] (k as u16));
    }

    /// `SBIC` and `SBIS`: the byte at I/O address `A` is read, and the next
    /// instruction is skipped exactly when its bit `b` equals `set`.
    #[allow(non_snake_case)]
    pub open spec fn sbix_of<B: ProgramMemory>(self, m: B::Model, A: u8, b: u8, set: bool) -> (
        Core,
        B::Model,
    ) {
        let got = self.load_of::<B>(m, A as usize);
        if (got.0 & (1u8 << b) != 0) == set {
            (self.skip_of::<B>(got.1), got.1)
        } else {
            (self, got.1)
        }
    }

    /// Skip if a bit in an I/O register is set or cleared.
    #[allow(non_snake_case)]
    pub fn sbix<B: ProgramMemory>(&mut self, bus: &mut B, A: u8, b: u8, set: bool)
        requires
            old(bus).inv(),
            b < 8,
        ensures
            final(bus).inv(),
            (*final(self), final(bus).model()) == old(self).sbix_of::<B>(
                old(bus).model(),
                A,
                b,
                set,
            ),
    {
        let value = self.get_io_register(bus, A);
        if ((value & (1u8 << b)) != 0) == set {
            self.skip(bus);
        }
    }

    /// `SBRC` and `SBRS`: the next instruction is skipped exactly when bit `b`
    /// of `Rr` equals `set`.
    pub open spec fn sbrx_of<B: ProgramMemory>(self, m: B::Model, r: u8, b: u8, set: bool) -> Core {
        if (self.regs[r as int] & (1u8 << b) != 0) == set {
            self.skip_of::<B>(m)
        } else {
            self
        }
    }

    /// Skip if a bit in a register is set or cleared.
    pub fn sbrx<B: ProgramMemory>(&mut self, progmem: &B, r: u8, b: u8, set: bool)
        requires
            progmem.inv(),
            r < 32,
            b < 8,
        ensures
            *final(self) == old(self).sbrx_of::<B>(progmem.model(), r, b, set),
    {
        if ((self.get_register(r) & (1u8 << b)) != 0) == set {
            self.skip(progmem);
        }
    }

    /// `CBI`: bit `b` of the byte at I/O address `A` is cleared.
    #[allow(non_snake_case)]
    pub fn cbi<B: MemoryMapped>(&mut self, ds: &mut B, A: u8, b: u8)
        requires
            old(ds).inv(),
            b < 8,
        ensures
            final(ds).inv(),
            (*final(self), final(ds).model()) == old(self).io_bit_of::<B>(
                old(ds).model(),
                A,
                b,
                false,
            ),
    {
        if A < 32 {
            let value = write_bit8(self.regs[A as usize], b as usize, false);
            self.set_register(A, value);
        } else if A == 0x3F {
            self.sreg &= !(1u8 << b);
        } else if A == 0x3D {
            self.sp &= !(1u16 << (b as u16));
        } else if A == 0x3E {
            self.sp &= !(1u16 << ((b + 8) as u16));
        } else {
            set_bit(ds, A as usize, b, false);
        }
    }

    /// `SBI`: bit `b` of the byte at I/O address `A` is set.
    #[allow(non_snake_case)]
    pub fn sbi<B: MemoryMapped>(&mut self, ds: &mut B, A: u8, b: u8)
        requires
            old(ds).inv(),
            b < 8,
        ensures
            final(ds).inv(),
            (*final(self), final(ds).model()) == old(self).io_bit_of::<B>(
                old(ds).model(),
                A,
                b,
                true,
            ),
    {
        if A < 32 {
            let value = write_bit8(self.regs[A as usize], b as usize, true);
            self.set_register(A, value);
        } else if A == 0x3F {
            self.sreg |= 1u8 << b;
        } else if A == 0x3D {
            self.sp |= 1u16 << (b as u16);
        } else if A == 0x3E {
            self.sp |= 1u16 << ((b + 8) as u16);
        } else {
            set_bit(ds, A as usize, b, true);
        }
    }

    /// `IN`: `Rd` receives the byte at I/O address `A`.
    #[allow(non_snake_case)]
    pub open spec fn in_of<B: MemoryMapped>(self, m: B::Model, d: u8, A: u8) -> (Core, B::Model) {
        let got = self.load_of::<B>(m, A as usize);
        (self.with_register(d, got.0), got.1)
    }

    /// Load an I/O location to a register.
    #[allow(non_snake_case)]
    pub fn in_<B: MemoryMapped>(&mut self, ds: &mut B, d: u8, A: u8)
        requires
            old(ds).inv(),
            d < 32,
        ensures
            final(ds).inv(),
            (*final(self), final(ds).model()) == old(self).in_of::<B>(old(ds).model(), d, A),
    {
        let value = self.get_io_register(ds, A);
        self.set_register(d, value);
    }

    /// The cycles that a load or store still takes after its first: two in
    /// the SRAM, one anywhere else.
    pub open spec fn transfer_cost(self, address: int) -> u8 {
        match self.sram {
            Some(range) => if range.0 <= address <= range.1 {
                2
            } else {
                1
            },
            None => 1,
        }
    }

    fn cost(&self, address: u32) -> (busy: u8)
        ensures
            busy == self.transfer_cost(address as int),
    {
        match self.sram {
            Some(range) => if range.0 as u32 <= address && address <= range.1 as u32 {
                2
            } else {
                1
            },
            None => 1,
        }
    }

    /// `LD` and `LDD`: `Rd` receives the byte that the pointer, moved down by
    /// one first if `dec`, plus the displacement `q` points at; afterwards the
    /// pointer moves up by one if `inc`.
    pub open spec fn ld_of<B: MemoryMapped>(
        self,
        m: B::Model,
        d: u8,
        pointer: PointerRegister,
        q: u8,
        dec: bool,
        inc: bool,
    ) -> (Core, B::Model) {
        let before = self.register_word(pointer.low());
        let address = if dec { before.wrapping_sub(1) } else { before };
        let moved = if dec { self.with_register_word(pointer.low(), address) } else { self };
        let got = moved.load_of::<B>(m, (address + q) as usize);
        let loaded = Core { busy: self.transfer_cost(address + q), ..moved.with_register(d, got.0) };
        if inc {
            (loaded.with_register_word(pointer.low(), address.wrapping_add(1)), got.1)
        } else {
            (loaded, got.1)
        }
    }

    /// Load indirect, with displacement, pre-decrement or post-increment.
    pub fn ld<B: MemoryMapped>(
        &mut self,
        ds: &mut B,
        d: u8,
        pointer: PointerRegister,
        q: u8,
        dec: bool,
        inc: bool,
    )
        requires
            old(ds).inv(),
            d < 32,
        ensures
            final(ds).inv(),
            (*final(self), final(ds).model()) == old(self).ld_of::<B>(
                old(ds).model(),
                d,
                pointer,
                q,
                dec,
                inc,
            ),
    {
        let mut address = self.get_register_word(pointer.low());
        if dec {
            address = address.wrapping_sub(1);
            self.set_register_word(pointer.low(), address);
        }
        let effective: u32 = address as u32 + q as u32;
        self.busy = self.cost(effective);
        if effective < 64 {
            let value = self.get_io_register(ds, effective as u8);
            self.set_register(d, value);
        } else {
            let value = self.get_data_space(ds, effective);
            self.set_register(d, value);
        }
        if inc {
            address = address.wrapping_add(1);
            self.set_register_word(pointer.low(), address);
        }
    }

    /// `ST` and `STD`: the byte in `Rr` is written where the pointer, moved
    /// down by one first if `dec`, plus the displacement `q` points;
    /// afterwards the pointer moves up by one if `inc`.
    pub open spec fn st_of<B: MemoryMapped>(
        self,
        m: B::Model,
        r: u8,
        pointer: PointerRegister,
        q: u8,
        dec: bool,
        inc: bool,
    ) -> (Core, B::Model) {
        let before = self.register_word(pointer.low());
        let address = if dec { before.wrapping_sub(1) } else { before };
        let moved = if dec { self.with_register_word(pointer.low(), address) } else { self };
        let costed = Core { busy: self.transfer_cost(address + q), ..moved };
        let put = costed.store_of::<B>(m, (address + q) as usize, costed.regs[r as int]);
        if inc {
            (put.0.with_register_word(pointer.low(), address.wrapping_add(1)), put.1)
        } else {
            put
        }
    }

    /// Store indirect, with displacement, pre-decrement or post-increment.
    pub fn st<B: MemoryMapped>(
        &mut self,
        ds: &mut B,
        r: u8,
        pointer: PointerRegister,
        q: u8,
        dec: bool,
        inc: bool,
    )
        requires
            old(ds).inv(),
            r < 32,
        ensures
            final(ds).inv(),
            (*final(self), final(ds).model()) == old(self).st_of::<B>(
                old(ds).model(),
                r,
                pointer,
                q,
                dec,
                inc,
            ),
    {
        let mut address = self.get_register_word(pointer.low());
        if dec {
            address = address.wrapping_sub(1);
            self.set_register_word(pointer.low(), address);
        }
        let effective: u32 = address as u32 + q as u32;
        self.busy = self.cost(effective);
        let value = self.get_register(r);
        if effective < 64 {
            self.set_io_register(ds, effective as u8, value);
        } else {
            self.set_data_space(ds, effective, value);
        }
        if inc {
            address = address.wrapping_add(1);
            self.set_register_word(pointer.low(), address);
        }
    }

    /// `LDS`: `Rd` receives the byte at data address `k`.
    pub open spec fn lds_of<B: MemoryMapped>(self, m: B::Model, d: u8, k: u16) -> (Core, B::Model) {
        let got = self.load_of::<B>(m, k as usize);
        (Core { busy: 2, ..self.with_register(d, got.0) }, got.1)
    }

    /// Load direct from the data space.
    pub fn lds<B: MemoryMapped>(&mut self, ds: &mut B, d: u8, k: u16)
        requires
            old(ds).inv(),
            d < 32,
        ensures
            final(ds).inv(),
            (*final(self), final(ds).model()) == old(self).lds_of::<B>(old(ds).model(), d, k),
    {
        self.busy = 2;
        let value = self.get_data_space(ds, k as u32);
        self.set_register(d, value);
    }

    /// `LPM`: `Rd` receives the program byte that Z points at; afterwards Z
    /// moves up by one if `inc`.
    pub open spec fn lpm_of<B: ProgramMemory>(self, m: B::Model, d: u8, inc: bool) -> Core {
        let address = self.register_word(30);
        let loaded = Core {
            busy: 2,
            ..self.with_register(d, B::program_of(m, address as usize))
        };
        if inc {
            loaded.with_register_word(30, address.wrapping_add(1))
        } else {
            loaded
        }
    }

    /// Load from program memory.
    pub fn lpm<B: ProgramMemory>(&mut self, progmem: &B, d: u8, inc: bool)
        requires
            progmem.inv(),
            d < 32,
        ensures
            *final(self) == old(self).lpm_of::<B>(progmem.model(), d, inc),
    {
        self.busy = 2;
        let mut address = self.get_register_word(30);
        let value = self.get_ps(progmem, address as u32);
        self.set_register(d, value);
        if inc {
            address = address.wrapping_add(1);
            self.set_register_word(30, address);
        }
    }

    /// `OUT`: the byte in `Rr` is written at I/O address `A`.
    #[allow(non_snake_case)]
    pub open spec fn out_of<B: MemoryMapped>(self, m: B::Model, A: u8, r: u8) -> (Core, B::Model) {
        self.store_of::<B>(m, A as usize, self.regs[r as int])
    }

    /// Store a register to an I/O location.
    #[allow(non_snake_case)]
    pub fn out<B: MemoryMapped>(&mut self, ds: &mut B, A: u8, r: u8)
        requires
            old(ds).inv(),
            r < 32,
        ensures
            final(ds).inv(),
            (*final(self), final(ds).model()) == old(self).out_of::<B>(old(ds).model(), A, r),
    {
        let value = self.get_register(r);
        self.set_io_register(ds, A, value);
    }

    /// `POP`: the stack pointer moves up by one, and `Rd` receives the byte
    /// it then points at.
    pub open spec fn pop_of<B: MemoryMapped>(self, m: B::Model, d: u8) -> (Core, B::Model) {
        let raised = Core { busy: 1, sp: self.sp.wrapping_add(1), ..self };
        let got = raised.load_of::<B>(m, raised.sp as usize);
        (raised.with_register(d, got.0), got.1)
    }

    /// Pop a register from the stack.
    pub fn pop<B: MemoryMapped>(&mut self, ds: &mut B, d: u8)
        requires
            old(ds).inv(),
            d < 32,
        ensures
            final(ds).inv(),
            (*final(self), final(ds).model()) == old(self).pop_of::<B>(old(ds).model(), d),
    {
        self.busy = 1;
        self.sp = self.sp.wrapping_add(1);
        let value = self.get_data_space(ds, self.sp as u32);
        self.set_register(d, value);
    }

    /// `PUSH`: the byte in `Rr` is written where the stack pointer points,
    /// and the stack pointer moves down by one.
    pub open spec fn push_of<B: MemoryMapped>(self, m: B::Model, r: u8) -> (Core, B::Model) {
        let put = self.store_of::<B>(m, self.sp as usize, self.regs[r as int]);
        (Core { sp: put.0.sp.wrapping_sub(1), ..put.0 }, put.1)
    }

    /// Push a register on the stack.
    pub fn push<B: MemoryMapped>(&mut self, ds: &mut B, r: u8)
        requires
            old(ds).inv(),
            r < 32,
        ensures
            final(ds).inv(),
            (*final(self), final(ds).model()) == old(self).push_of::<B>(old(ds).model(), r),
    {
        let value = self.get_register(r);
        self.set_data_space(ds, self.sp as u32, value);
        self.sp = self.sp.wrapping_sub(1);
    }

    /// `STS`: the byte in `Rr` is written at data address `k`.
    pub open spec fn sts_of<B: MemoryMapped>(self, m: B::Model, r: u8, k: u16) -> (Core, B::Model) {
        let costed = Core { busy: 2, ..self };
        costed.store_of::<B>(m, k as usize, costed.regs[r as int])
    }

    /// Store direct to the data space.
    pub fn sts<B: MemoryMapped>(&mut self, ds: &mut B, r: u8, k: u16)
        requires
            old(ds).inv(),
            r < 32,
        ensures
            final(ds).inv(),
            (*final(self), final(ds).model()) == old(self).sts_of::<B>(old(ds).model(), r, k),
    {
        self.busy = 2;
        let value = self.get_register(r);
        self.set_data_space(ds, k as u32, value);
    }
}

/// The fetch-execute cycle.
impl Core {
    /// The core, the bus model and the running flag after an instruction that
    /// has been fetched and decoded is executed. The program counter already
    /// points behind the instruction's first word. Only `BREAK` stops the
    /// core.
    pub open spec fn execute_of<B: InterruptHandler + ProgramMemory>(
        self,
        m: B::Model,
        op: Instruction,
    ) -> (Core, B::Model, bool) {
        match op {
            Instruction::ADC { d, r } => (self.adc_spec(d, r), m, true),
            Instruction::ADD { d, r } => (self.add_spec(d, r), m, true),
            Instruction::ADIW { d, K } => (self.adiw_spec(d, K), m, true),
            Instruction::AND { d, r } => (self.and_spec(d, r), m, true),
            Instruction::ANDI { d, K } => (self.andi_spec(d, K), m, true),
            Instruction::COM { d } => (self.com_spec(d), m, true),
            Instruction::DEC { d } => (self.dec_spec(d), m, true),
            Instruction::EOR { d, r } => (self.eor_spec(d, r), m, true),
            Instruction::FMUL { d, r } => (self.fmul_spec(d, r), m, true),
            Instruction::FMULS { d, r } => (self.fmuls_spec(d, r), m, true),
            Instruction::FMULSU { d, r } => (self.fmulsu_spec(d, r), m, true),
            Instruction::INC { d } => (self.inc_spec(d), m, true),
            Instruction::MUL { d, r } => (self.mul_spec(d, r), m, true),
            Instruction::MULS { d, r } => (self.muls_spec(d, r), m, true),
            Instruction::MULSU { d, r } => (self.mulsu_spec(d, r), m, true),
            Instruction::NEG { d } => (self.neg_spec(d), m, true),
            Instruction::OR { d, r } => (self.or_spec(d, r), m, true),
            Instruction::ORI { d, K } => (self.ori_spec(d, K), m, true),
            Instruction::SBC { d, r } => (self.sbc_spec(d, r), m, true),
            Instruction::SBCI { d, K } => (self.sbci_spec(d, K), m, true),
            Instruction::SBIW { d, K } => (self.sbiw_spec(d, K), m, true),
            Instruction::SUB { d, r } => (self.sub_spec(d, r), m, true),
            Instruction::SUBI { d, K } => (self.subi_spec(d, K), m, true),
            Instruction::BRBC { s, k } => (self.brbx_spec(s, k, false), m, true),
            Instruction::BRBS { s, k } => (self.brbx_spec(s, k, true), m, true),
            Instruction::CALL { k } => {
                let done = self.call_of::<B>(m, k);
                (done.0, done.1, true)
            },
            Instruction::CP { d, r } => (self.cp_spec(d, r), m, true),
            Instruction::CPC { d, r } => (self.cpc_spec(d, r), m, true),
            Instruction::CPI { d, K } => (self.cpi_spec(d, K), m, true),
            Instruction::CPSE { d, r } => (self.cpse_of::<B>(m, d, r), m, true),
            Instruction::ICALL => {
                let done = self.icall_of::<B>(m);
                (done.0, done.1, true)
            },
            Instruction::IJMP => (self.ijmp_spec(), m, true),
            Instruction::JMP { k } => (self.jmp_spec(k), m, true),
            Instruction::RCALL { k } => {
                let done = self.rcall_of::<B>(m, k);
                (done.0, done.1, true)
            },
            Instruction::RET => {
                let done = self.ret_of::<B>(m);
                (done.0, done.1, true)
            },
            Instruction::RETI => {
                let done = self.reti_of::<B>(m);
                (done.0, done.1, true)
            },
            Instruction::RJMP { k } => (self.rjmp_spec(k), m, true),
            Instruction::SBIC { A, b } => {
                let done = self.sbix_of::<B>(m, A, b, false);
                (done.0, done.1, true)
            },
            Instruction::SBIS { A, b } => {
                let done = self.sbix_of::<B>(m, A, b, true);
                (done.0, done.1, true)
            },
            Instruction::SBRC { r, b } => (self.sbrx_of::<B>(m, r, b, false), m, true),
            Instruction::SBRS { r, b } => (self.sbrx_of::<B>(m, r, b, true), m, true),
            Instruction::IN { d, A } => {
                let done = self.in_of::<B>(m, d, A);
                (done.0, done.1, true)
            },
            Instruction::LDX { d } => {
                let done = self.ld_of::<B>(m, d, PointerRegister::X, 0, false, false);
                (done.0, done.1, true)
            },
            Instruction::LDXinc { d } => {
                let done = self.ld_of::<B>(m, d, PointerRegister::X, 0, false, true);
                (done.0, done.1, true)
            },
            Instruction::LDXdec { d } => {
                let done = self.ld_of::<B>(m, d, PointerRegister::X, 0, true, false);
                (done.0, done.1, true)
            },
            Instruction::LDYinc { d } => {
                let done = self.ld_of::<B>(m, d, PointerRegister::Y, 0, false, true);
                (done.0, done.1, true)
            },
            Instruction::LDYdec { d } => {
                let done = self.ld_of::<B>(m, d, PointerRegister::Y, 0, true, false);
                (done.0, done.1, true)
            },
            Instruction::LDZinc { d } => {
                let done = self.ld_of::<B>(m, d, PointerRegister::Z, 0, false, true);
                (done.0, done.1, true)
            },
            Instruction::LDZdec { d } => {
                let done = self.ld_of::<B>(m, d, PointerRegister::Z, 0, true, false);
                (done.0, done.1, true)
            },
            Instruction::LDDY { d, q } => {
                let done = self.ld_of::<B>(m, d, PointerRegister::Y, q, false, false);
                (done.0, done.1, true)
            },
            Instruction::LDDZ { d, q } => {
                let done = self.ld_of::<B>(m, d, PointerRegister::Z, q, false, false);
                (done.0, done.1, true)
            },
            Instruction::LDI { d, K } => (self.with_register(d, K), m, true),
            Instruction::LDS { d, k } => {
                let done = self.lds_of::<B>(m, d, k);
                (Core { pc: done.0.pc.wrapping_add(1), ..done.0 }, done.1, true)
            },
            Instruction::LPM => (self.lpm_of::<B>(m, 0, false), m, true),
            Instruction::LPMZ { d } => (self.lpm_of::<B>(m, d, false), m, true),
            Instruction::LPMZinc { d } => (self.lpm_of::<B>(m, d, true), m, true),
            Instruction::MOV { d, r } => (self.with_register(d, self.regs[r as int]), m, true),
            Instruction::MOVW { d, r } => (
                self.with_register_word(d, self.register_word(r)),
                m,
                true,
            ),
            Instruction::OUT { A, r } => {
                let done = self.out_of::<B>(m, A, r);
                (done.0, done.1, true)
            },
            Instruction::POP { d } => {
                let done = self.pop_of::<B>(m, d);
                (done.0, done.1, true)
            },
            Instruction::PUSH { d } => {
                let done = self.push_of::<B>(m, d);
                (done.0, done.1, true)
            },
            Instruction::STX { r } => {
                let done = self.st_of::<B>(m, r, PointerRegister::X, 0, false, false);
                (done.0, done.1, true)
            },
            Instruction::STXdec { r } => {
                let done = self.st_of::<B>(m, r, PointerRegister::X, 0, true, false);
                (done.0, done.1, true)
            },
            Instruction::STXinc { r } => {
                let done = self.st_of::<B>(m, r, PointerRegister::X, 0, false, true);
                (done.0, done.1, true)
            },
            Instruction::STYdec { r } => {
                let done = self.st_of::<B>(m, r, PointerRegister::Y, 0, true, false);
                (done.0, done.1, true)
            },
            Instruction::STYinc { r } => {
                let done = self.st_of::<B>(m, r, PointerRegister::Y, 0, false, true);
                (done.0, done.1, true)
            },
            Instruction::STZdec { r } => {
                let done = self.st_of::<B>(m, r, PointerRegister::Z, 0, true, false);
                (done.0, done.1, true)
            },
            Instruction::STZinc { r } => {
                let done = self.st_of::<B>(m, r, PointerRegister::Z, 0, false, true);
                (done.0, done.1, true)
            },
            Instruction::STDY { q, r } => {
                let done = self.st_of::<B>(m, r, PointerRegister::Y, q, false, false);
                (done.0, done.1, true)
            },
            Instruction::STDZ { q, r } => {
                let done = self.st_of::<B>(m, r, PointerRegister::Z, q, false, false);
                (done.0, done.1, true)
            },
            Instruction::STS { k, r } => {
                let done = self.sts_of::<B>(m, r, k);
                (Core { pc: done.0.pc.wrapping_add(1), ..done.0 }, done.1, true)
            },
            Instruction::ASR { d } => (self.asr_spec(d), m, true),
            Instruction::BCLR { s } => (self.bclr_spec(s), m, true),
            Instruction::BLD { d, b } => (self.bld_spec(d, b), m, true),
            Instruction::BSET { s } => (self.bset_spec(s), m, true),
            Instruction::BST { d, b } => (self.bst_spec(d, b), m, true),
            Instruction::CBI { A, b } => {
                let done = self.io_bit_of::<B>(m, A, b, false);
                (done.0, done.1, true)
            },
            Instruction::LSL { d } => (self.lsl_spec(d), m, true),
            Instruction::LSR { d } => (self.lsr_spec(d), m, true),
            Instruction::ROR { d } => (self.ror_spec(d), m, true),
            Instruction::SBI { A, b } => {
                let done = self.io_bit_of::<B>(m, A, b, true);
                (done.0, done.1, true)
            },
            Instruction::SWAP { d } => (self.swap_spec(d), m, true),
            Instruction::BREAK => (self, m, false),
            Instruction::NOP | Instruction::SLEEP | Instruction::WDR | Instruction::UNDEF => (
                self,
                m,
                true,
            ),
        }
    }

    /// The core and the bus model after an interrupt has been acknowledged:
    /// the program counter is pushed, low byte first, execution continues at
    /// the vector, and four further cycles go by.
    pub open spec fn acknowledge_of<B: MemoryMapped>(self, m: B::Model, vector: u16) -> (
        Core,
        B::Model,
    ) {
        let pushed = self.push_word_of::<B>(m, self.pc);
        (
            Core { pc: vector, busy: 4, last: Step::Interrupt { vector }, ..pushed.0 },
            pushed.1,
        )
    }

    /// The core, the bus model and the running flag after the instruction at
    /// the program counter has been fetched and executed. Where the program
    /// counter cannot advance, nothing is executed and the core stops.
    pub open spec fn run_of<B: InterruptHandler + ProgramMemory>(self, m: B::Model) -> (
        Core,
        B::Model,
        bool,
    ) {
        let opcode = Self::fetch_of::<B>(m, self.pc as u32);
        let prefetch = Self::fetch_of::<B>(m, (self.pc + 1) as u32);
        let op = decode_spec(opcode, prefetch);
        let fetched = Core { last: Step::Fetch { at: self.pc, opcode, instruction: op }, ..self };
        if self.pc == 0xFFFF {
            (fetched, m, false)
        } else {
            (Core { pc: (self.pc + 1) as u16, ..fetched }).execute_of::<B>(m, op)
        }
    }

    /// One clock cycle of the core.
    ///
    /// While an instruction is in progress, a cycle only counts `busy` down.
    /// Otherwise the shield that `RETI` raised is lowered again, or, with the I
    /// flag set, the interrupt controller is asked and a pending interrupt
    /// acknowledged; and if no interrupt was taken, the next instruction is
    /// fetched and executed.
    #[verifier::opaque]
    pub open spec fn tick_of<B: InterruptHandler + ProgramMemory>(self, m: B::Model) -> (
        Core,
        B::Model,
        bool,
    ) {
        if self.busy > 0 {
            (Core { busy: (self.busy - 1) as u8, last: Step::Wait, ..self }, m, true)
        } else if self.interrupt_inhibit {
            (Core { interrupt_inhibit: false, ..self }).run_of::<B>(m)
        } else if flag(self.sreg, BitSREG::I) {
            let asked = B::pending_of(m);
            match asked.0 {
                Some(vector) => {
                    let taken = self.acknowledge_of::<B>(asked.1, vector);
                    (taken.0, taken.1, true)
                },
                None => self.run_of::<B>(asked.1),
            }
        } else {
            self.run_of::<B>(m)
        }
    }

    #[verifier::rlimit(80)]
    fn execute<B: InterruptHandler + ProgramMemory>(
        &mut self,
        bus: &mut B,
        op: Instruction,
    ) -> (running: bool)
        requires
            old(bus).inv(),
            op.wf(),
        ensures
            final(bus).inv(),
            (*final(self), final(bus).model(), running) == old(self).execute_of::<B>(
                old(bus).model(),
                op,
            ),
    {
        match op {
            Instruction::ADC { d, r } => self.adc(d, r),
            Instruction::ADD { d, r } => self.add(d, r),
            Instruction::ADIW { d, K } => self.adiw(d, K),
            Instruction::AND { d, r } => self.and(d, r),
            Instruction::ANDI { d, K } => self.andi(d, K),
            Instruction::COM { d } => self.com(d),
            Instruction::DEC { d } => self.dec(d),
            Instruction::EOR { d, r } => self.eor(d, r),
            Instruction::FMUL { d, r } => self.fmul(d, r),
            Instruction::FMULS { d, r } => self.fmuls(d, r),
            Instruction::FMULSU { d, r } => self.fmulsu(d, r),
            Instruction::INC { d } => self.inc(d),
            Instruction::MUL { d, r } => self.mul(d, r),
            Instruction::MULS { d, r } => self.muls(d, r),
            Instruction::MULSU { d, r } => self.mulsu(d, r),
            Instruction::NEG { d } => self.neg(d),
            Instruction::OR { d, r } => self.or(d, r),
            Instruction::ORI { d, K } => self.ori(d, K),
            Instruction::SBC { d, r } => self.sbc(d, r),
            Instruction::SBCI { d, K } => self.sbci(d, K),
            Instruction::SBIW { d, K } => self.sbiw(d, K),
            Instruction::SUB { d, r } => self.sub(d, r),
            Instruction::SUBI { d, K } => self.subi(d, K),
            Instruction::BRBC { s, k } => self.brbx(s, k, false),
            Instruction::BRBS { s, k } => self.brbx(s, k, true),
            Instruction::CALL { k } => self.call(bus, k),
            Instruction::CP { d, r } => self.cp(d, r),
            Instruction::CPC { d, r } => self.cpc(d, r),
            Instruction::CPI { d, K } => self.cpi(d, K),
            Instruction::CPSE { d, r } => self.cpse(bus, d, r),
            Instruction::ICALL => self.icall(bus),
            Instruction::IJMP => self.ijmp(),
            Instruction::JMP { k } => self.jmp(k),
            Instruction::RCALL { k } => self.rcall(bus, k),
            Instruction::RET => self.ret(bus),
            Instruction::RETI => self.reti(bus),
            Instruction::RJMP { k } => self.rjmp(k),
            Instruction::SBIC { A, b } => self.sbix(bus, A, b, false),
            Instruction::SBIS { A, b } => self.sbix(bus, A, b, true),
            Instruction::SBRC { r, b } => self.sbrx(bus, r, b, false),
            Instruction::SBRS { r, b } => self.sbrx(bus, r, b, true),
            Instruction::IN { d, A } => self.in_(bus, d, A),
            Instruction::LDX { d } => self.ld(bus, d, PointerRegister::X, 0, false, false),
            Instruction::LDXinc { d } => self.ld(bus, d, PointerRegister::X, 0, false, true),
            Instruction::LDXdec { d } => self.ld(bus, d, PointerRegister::X, 0, true, false),
            Instruction::LDYinc { d } => self.ld(bus, d, PointerRegister::Y, 0, false, true),
            Instruction::LDYdec { d } => self.ld(bus, d, PointerRegister::Y, 0, true, false),
            Instruction::LDZinc { d } => self.ld(bus, d, PointerRegister::Z, 0, false, true),
            Instruction::LDZdec { d } => self.ld(bus, d, PointerRegister::Z, 0, true, false),
            Instruction::LDDY { d, q } => self.ld(bus, d, PointerRegister::Y, q, false, false),
            Instruction::LDDZ { d, q } => self.ld(bus, d, PointerRegister::Z, q, false, false),
            Instruction::LDI { d, K } => self.ldi(d, K),
            Instruction::LDS { d, k } => {
                self.lds(bus, d, k);
                self.pc = self.pc.wrapping_add(1);
            },
            Instruction::LPM => self.lpm(bus, 0, false),
            Instruction::LPMZ { d } => self.lpm(bus, d, false),
            Instruction::LPMZinc { d } => self.lpm(bus, d, true),
            Instruction::MOV { d, r } => self.mov(d, r),
            Instruction::MOVW { d, r } => self.movw(d, r),
            Instruction::OUT { A, r } => self.out(bus, A, r),
            Instruction::POP { d } => self.pop(bus, d),
            Instruction::PUSH { d } => self.push(bus, d),
            Instruction::STX { r } => self.st(bus, r, PointerRegister::X, 0, false, false),
            Instruction::STXdec { r } => self.st(bus, r, PointerRegister::X, 0, true, false),
            Instruction::STXinc { r } => self.st(bus, r, PointerRegister::X, 0, false, true),
            Instruction::STYdec { r } => self.st(bus, r, PointerRegister::Y, 0, true, false),
            Instruction::STYinc { r } => self.st(bus, r, PointerRegister::Y, 0, false, true),
            Instruction::STZdec { r } => self.st(bus, r, PointerRegister::Z, 0, true, false),
            Instruction::STZinc { r } => self.st(bus, r, PointerRegister::Z, 0, false, true),
            Instruction::STDY { q, r } => self.st(bus, r, PointerRegister::Y, q, false, false),
            Instruction::STDZ { q, r } => self.st(bus, r, PointerRegister::Z, q, false, false),
            Instruction::STS { k, r } => {
                self.sts(bus, r, k);
                self.pc = self.pc.wrapping_add(1);
            },
            Instruction::ASR { d } => self.asr(d),
            Instruction::BCLR { s } => self.bclr(s),
            Instruction::BLD { d, b } => self.bld(d, b),
            Instruction::BSET { s } => self.bset(s),
            Instruction::BST { d, b } => self.bst(d, b),
            Instruction::CBI { A, b } => self.cbi(bus, A, b),
            Instruction::LSL { d } => self.lsl(d),
            Instruction::LSR { d } => self.lsr(d),
            Instruction::ROR { d } => self.ror(d),
            Instruction::SBI { A, b } => self.sbi(bus, A, b),
            Instruction::SWAP { d } => self.swap(d),
            Instruction::BREAK => {
                return false;
            },
            Instruction::NOP | Instruction::SLEEP | Instruction::WDR | Instruction::UNDEF => {},
        }
        true
    }

    fn run<B: InterruptHandler + ProgramMemory>(&mut self, bus: &mut B) -> (running: bool)
        requires
            old(bus).inv(),
        ensures
            final(bus).inv(),
            (*final(self), final(bus).model(), running) == old(self).run_of::<B>(old(bus).model()),
    {
        let opcode = self.get_progmem(bus, self.pc as u32);
        let prefetch = self.get_progmem(bus, self.pc as u32 + 1);
        let op = decode(opcode, prefetch);
        self.last = Step::Fetch { at: self.pc, opcode, instruction: op };
        if self.pc == 0xFFFF {
            return false;
        }
        self.pc = self.pc + 1;
        self.execute(bus, op)
    }

    /// Advances the core by one clock cycle and tells whether it is still
    /// running: `false` only after `BREAK` or when the program counter cannot
    /// advance. What was done is left in `last`.
    pub fn tick<B: InterruptHandler + ProgramMemory>(&mut self, bus: &mut B) -> (running: bool)
        requires
            old(bus).inv(),
        ensures
            final(bus).inv(),
            (*final(self), final(bus).model(), running) == old(self).tick_of::<B>(old(bus).model()),
    {
        reveal(Core::tick_of);
        if self.busy > 0 {
            self.busy -= 1;
            self.last = Step::Wait;
            return true;
        }
        if self.interrupt_inhibit {
            self.interrupt_inhibit = false;
        } else if self.get_sreg_bit(BitSREG::I) {
            let vector = bus.service_pending();
            if let Some(address) = vector {
                self.push_word(bus, self.pc);
                self.pc = address;
                self.busy = 4;
                self.last = Step::Interrupt { vector: address };
                return true;
            }
        }
        self.run(bus)
    }
}

/// The bus keeps a word on the stack: after the word's low byte has been
/// written at `sp` and its high byte one below, reading the two bytes back,
/// high byte first, returns them.
pub open spec fn keeps_word<B: MemoryMapped>(m: B::Model, sp: u16, word: u16) -> bool {
    let low = B::write_of(m, sp as usize, word as u8);
    let high = B::write_of(low.1, sp.wrapping_sub(1) as usize, (word >> 8) as u8);
    let first = B::read_of(high.1, sp.wrapping_sub(1) as usize);
    let second = B::read_of(first.2, sp as usize);
    first.0 == (word >> 8) as u8 && second.0 == word as u8
}

/// The bus keeps a byte: reading an address after writing it returns what was
/// written.
pub open spec fn keeps_byte<B: MemoryMapped>(m: B::Model, address: u16, value: u8) -> bool {
    B::read_of(B::write_of(m, address as usize, value).1, address as usize).0 == value
}

/// Writable memory keeps every word whose two bytes lie inside it.
pub proof fn law_ram_keeps_word(ram: MemoryModel, sp: u16, word: u16)
    requires
        !ram.read_only,
        1 <= sp < ram.bytes.len(),
    ensures
        keeps_word::<Memory>(ram, sp, word),
{
}

/// Writable memory keeps every byte inside it.
pub proof fn law_ram_keeps_byte(ram: MemoryModel, address: u16, value: u8)
    requires
        !ram.read_only,
        address < ram.bytes.len(),
    ensures
        keeps_byte::<Memory>(ram, address, value),
{
}

/// `CALL k` followed at once by `RET` continues behind the call with the
/// stack pointer where it was, on every bus that keeps the return address.
/// (At the time `CALL` executes, the program counter points at the call's
/// second word.)
pub proof fn law_call_then_ret<B: MemoryMapped>(core: Core, m: B::Model, k: u32)
    requires
        keeps_word::<B>(m, core.sp, core.pc.wrapping_add(1)),
    ensures
        ({
            let called = core.call_of::<B>(m, k);
            let returned = called.0.ret_of::<B>(called.1);
            &&& called.0.pc == k as u16
            &&& returned.0.pc == core.pc.wrapping_add(1)
            &&& returned.0.sp == core.sp
        }),
{
    lemma_word_of_bytes(core.pc.wrapping_add(1));
}

/// `RCALL` and `ICALL` followed at once by `RET` continue behind the call
/// with the stack pointer where it was.
pub proof fn law_short_call_then_ret<B: MemoryMapped>(core: Core, m: B::Model, k: i16)
    requires
        keeps_word::<B>(m, core.sp, core.pc),
    ensures
        ({
            let called = core.rcall_of::<B>(m, k);
            let returned = called.0.ret_of::<B>(called.1);
            returned.0.pc == core.pc && returned.0.sp == core.sp
        }),
        ({
            let called = core.icall_of::<B>(m);
            let returned = called.0.ret_of::<B>(called.1);
            returned.0.pc == core.pc && returned.0.sp == core.sp
        }),
{
    lemma_word_of_bytes(core.pc);
}

/// An interrupt acknowledged and followed at once by `RETI` continues where
/// the program was interrupted, with the stack pointer where it was and the
/// shield against a further interrupt raised.
pub proof fn law_interrupt_then_reti<B: InterruptHandler>(core: Core, m: B::Model, vector: u16)
    requires
        keeps_word::<B>(m, core.sp, core.pc),
    ensures
        ({
            let taken = core.acknowledge_of::<B>(m, vector);
            let returned = taken.0.reti_of::<B>(taken.1);
            &&& taken.0.pc == vector
            &&& taken.0.busy == 4
            &&& returned.0.pc == core.pc
            &&& returned.0.sp == core.sp
            &&& returned.0.interrupt_inhibit
        }),
{
    lemma_word_of_bytes(core.pc);
}

/// With the shield raised, the next cycle in which the core is free lowers
/// the shield and runs an instruction on the bus as it stands, without asking the
/// interrupt controller, whatever is pending: exactly one instruction is
/// shielded.
pub proof fn law_one_instruction_shielded<B: InterruptHandler + ProgramMemory>(
    core: Core,
    m: B::Model,
)
    requires
        core.busy == 0,
        core.interrupt_inhibit,
    ensures
        core.tick_of::<B>(m) == (Core { interrupt_inhibit: false, ..core }).run_of::<B>(m),
{
    reveal(Core::tick_of);
}

/// While an instruction is in progress no new instruction is fetched: the
/// cycle changes nothing but the count of cycles left and the record of what
/// was done.
pub proof fn law_busy_core_waits<B: InterruptHandler + ProgramMemory>(core: Core, m: B::Model)
    requires
        core.busy > 0,
    ensures
        core.tick_of::<B>(m) == (
            Core { busy: (core.busy - 1) as u8, last: Step::Wait, ..core },
            m,
            true,
        ),
{
    reveal(Core::tick_of);
}

/// `PUSH Rr` followed by `POP Rd` leaves in `Rd` what was in `Rr`, with the
/// stack pointer where it was, on every bus that keeps the byte. The stack
/// pointer must not point at its own two bytes in the I/O space.
pub proof fn law_push_then_pop<B: MemoryMapped>(core: Core, m: B::Model, r: u8, d: u8)
    requires
        r < 32,
        d < 32,
        core.sp != 0x3D,
        core.sp != 0x3E,
        keeps_byte::<B>(m, core.sp, core.regs[r as int]),
    ensures
        ({
            let pushed = core.push_of::<B>(m, r);
            let popped = pushed.0.pop_of::<B>(pushed.1, d);
            &&& popped.0.regs[d as int] == core.regs[r as int]
            &&& popped.0.sp == core.sp
        }),
{
}

/// The first thirty-two data addresses are the working registers: a read at
/// such an address gives the register of that number and a write replaces it,
/// and neither reaches the bus, whatever the bus holds there.
pub proof fn law_low_addresses_are_registers<B: MemoryMapped>(
    core: Core,
    m: B::Model,
    address: usize,
    value: u8,
)
    requires
        address < 32,
    ensures
        core.load_of::<B>(m, address) == (core.regs[address as int], m),
        core.store_of::<B>(m, address, value) == (core.with_register(address as u8, value), m),
        core.store_of::<B>(m, address, value).0.load_of::<B>(m, address).0 == value,
{
}

/// A load through a pointer whose effective address lies below thirty-two
/// copies the register of that number, and a store there replaces it; the
/// bus stays as it was.
pub proof fn law_loads_and_stores_alias_registers<B: MemoryMapped>(
    core: Core,
    m: B::Model,
    d: u8,
    pointer: PointerRegister,
    q: u8,
)
    requires
        d < 32,
        core.register_word(pointer.low()) + q < 32,
    ensures
        ({
            let a = core.register_word(pointer.low()) + q;
            let loaded = core.ld_of::<B>(m, d, pointer, q, false, false);
            let stored = core.st_of::<B>(m, d, pointer, q, false, false);
            &&& loaded.0.regs[d as int] == core.regs[a]
            &&& loaded.1 == m
            &&& stored.0.regs[a] == core.regs[d as int]
            &&& stored.1 == m
        }),
{
}

} // verus!
