use qutyemu::cores::{BitSREG, Core, CoreType, PointerRegister, Step};
use qutyemu::devices::{Device, DeviceType};
use qutyemu::instruction::{encode, Instruction};
use qutyemu::memory::{Memory, MemoryMapped};

const C: u8 = 0x01;
const Z: u8 = 0x02;
const N: u8 = 0x04;
const V: u8 = 0x08;
const S: u8 = 0x10;
const H: u8 = 0x20;
const T: u8 = 0x40;
const I: u8 = 0x80;

fn fresh() -> Core {
    Core::new(CoreType::AVRxt, 0x3FFF)
}

fn flags(c: bool, z: bool, n: bool, v: bool, h: bool) -> u8 {
    let mut sreg = 0;
    if c {
        sreg |= C;
    }
    if z {
        sreg |= Z;
    }
    if n {
        sreg |= N;
    }
    if v {
        sreg |= V;
    }
    if n != v {
        sreg |= S;
    }
    if h {
        sreg |= H;
    }
    sreg
}

fn programmed(program: &[Instruction]) -> Device {
    let mut device = Device::new(DeviceType::ATtiny1626);
    let mut address = 0usize;
    for instruction in program {
        let (first, second) = encode(*instruction);
        device.mm.flash.write(address, first as u8);
        device.mm.flash.write(address + 1, (first >> 8) as u8);
        address += 2;
        if instruction.two_words() {
            device.mm.flash.write(address, second as u8);
            device.mm.flash.write(address + 1, (second >> 8) as u8);
            address += 2;
        }
    }
    device
}

fn run_instruction(device: &mut Device) -> u64 {
    let mut cycles = 0;
    loop {
        let step = device.tick(0);
        cycles += 1;
        if step == 0 || device.core.busy == 0 {
            return cycles;
        }
    }
}

#[test]
fn core_starts_cleared() {
    let core = fresh();
    for r in 0..32u8 {
        assert_eq!(core.get_register(r), 0);
    }
    assert_eq!(core.sreg, 0);
    assert_eq!(core.pc, 0);
    assert_eq!(core.get_stack_pointer(), 0x3FFF);
    assert_eq!(core.busy, 0);
    assert!(!core.interrupt_inhibit);
    assert_eq!(core.last, Step::Reset);
    assert_eq!(core.variant, CoreType::AVRxt);
}

#[test]
fn status_flags_sit_at_their_bits() {
    let order = [
        BitSREG::C,
        BitSREG::Z,
        BitSREG::N,
        BitSREG::V,
        BitSREG::S,
        BitSREG::H,
        BitSREG::T,
        BitSREG::I,
    ];
    for (bit, flag) in order.iter().enumerate() {
        assert_eq!(flag.index(), bit as u8);
        assert_eq!(BitSREG::from(bit as u8), *flag);
        let mut core = fresh();
        core.set_sreg_bit(*flag, true);
        assert_eq!(core.sreg, 1 << bit);
        assert!(core.get_sreg_bit(*flag));
        core.sreg = 0xFF;
        core.set_sreg_bit(*flag, false);
        assert_eq!(core.sreg, !(1u8 << bit));
        assert!(!core.get_sreg_bit(*flag));
    }
    assert_eq!(PointerRegister::X.low(), 26);
    assert_eq!(PointerRegister::Y.low(), 28);
    assert_eq!(PointerRegister::Z.low(), 30);
}

#[test]
fn adiw_carries_into_the_high_byte() {
    let mut core = fresh();
    core.set_register(24, 0xFF);
    core.set_register(25, 0x01);
    core.sreg = C | Z;
    core.adiw(24, 0x01);
    assert_eq!(core.get_register(24), 0x00);
    assert_eq!(core.get_register(25), 0x02);
    assert_eq!(core.get_register_word(24), 0x0200);
    assert_eq!(core.sreg & C, 0);
    assert_eq!(core.sreg & Z, 0);
    assert_eq!(core.sreg, 0);
    assert_eq!(core.busy, 1);
}

#[test]
fn adiw_and_sbiw_flags_at_the_edges() {
    let mut core = fresh();
    core.set_register_word(26, 0xFFFF);
    core.adiw(26, 1);
    assert_eq!(core.get_register_word(26), 0x0000);
    assert_eq!(core.sreg, C | Z);
    core.set_register_word(26, 0x7FFF);
    core.adiw(26, 1);
    assert_eq!(core.get_register_word(26), 0x8000);
    assert_eq!(core.sreg, N | V);
    core.set_register_word(28, 0x0000);
    core.sbiw(28, 1);
    assert_eq!(core.get_register_word(28), 0xFFFF);
    assert_eq!(core.sreg, C | N | S);
    core.set_register_word(28, 0x8000);
    core.sbiw(28, 1);
    assert_eq!(core.get_register_word(28), 0x7FFF);
    assert_eq!(core.sreg, V | S);
    core.set_register_word(30, 0x0001);
    core.sbiw(30, 1);
    assert_eq!(core.sreg, Z);
}

#[test]
fn neg_of_the_most_negative_byte() {
    let mut core = fresh();
    core.set_register(5, 0x80);
    core.neg(5);
    assert_eq!(core.get_register(5), 0x80);
    assert_ne!(core.sreg & V, 0);
    assert_ne!(core.sreg & C, 0);
    assert_eq!(core.sreg, C | N | V);
    core.set_register(5, 0x00);
    core.neg(5);
    assert_eq!(core.get_register(5), 0x00);
    assert_eq!(core.sreg, Z);
    core.set_register(5, 0x01);
    core.neg(5);
    assert_eq!(core.get_register(5), 0xFF);
    assert_eq!(core.sreg, C | N | S | H);
}

#[test]
fn dec_of_zero() {
    let mut core = fresh();
    core.sreg = C;
    core.dec(0);
    assert_eq!(core.get_register(0), 0xFF);
    assert_eq!(core.sreg & V, 0);
    assert_eq!(core.sreg, C | N | S);
    core.set_register(0, 0x80);
    core.dec(0);
    assert_eq!(core.get_register(0), 0x7F);
    assert_eq!(core.sreg, C | V | S);
    core.set_register(0, 0x01);
    core.dec(0);
    assert_eq!(core.sreg, C | Z);
}

#[test]
fn inc_of_the_most_positive_byte() {
    let mut core = fresh();
    core.set_register(31, 0x7F);
    core.inc(31);
    assert_eq!(core.get_register(31), 0x80);
    assert_ne!(core.sreg & V, 0);
    assert_ne!(core.sreg & N, 0);
    assert_eq!(core.sreg, N | V);
    core.set_register(31, 0xFF);
    core.sreg = 0;
    core.inc(31);
    assert_eq!(core.get_register(31), 0x00);
    assert_eq!(core.sreg, Z);
}

#[test]
fn addition_flags_match_arithmetic_for_all_operands() {
    for carry in [false, true] {
        for rd in 0..=255u8 {
            for rr in 0..=255u8 {
                let cin = carry as u16;
                let wide = rd as u16 + rr as u16 + cin;
                let res = wide as u8;
                let signed = rd as i8 as i16 + rr as i8 as i16 + cin as i16;
                let expected = flags(
                    wide > 0xFF,
                    res == 0,
                    res & 0x80 != 0,
                    !(-128..=127).contains(&signed),
                    (rd & 15) + (rr & 15) + cin as u8 > 15,
                ) | T;
                let mut core = fresh();
                core.set_register(1, rd);
                core.set_register(2, rr);
                core.sreg = T | if carry { C } else { 0 };
                core.adc(1, 2);
                assert_eq!(core.get_register(1), res);
                assert_eq!(core.sreg, expected);
                if !carry {
                    let mut core = fresh();
                    core.set_register(1, rd);
                    core.set_register(2, rr);
                    core.sreg = T | C;
                    core.add(1, 2);
                    assert_eq!(core.get_register(1), res);
                    assert_eq!(core.sreg, expected);
                }
            }
        }
    }
}

#[test]
fn subtraction_flags_match_arithmetic_for_all_operands() {
    for carry in [false, true] {
        for rd in 0..=255u8 {
            for rr in 0..=255u8 {
                let cin = carry as i16;
                let res = (rd as i16 - rr as i16 - cin) as u8;
                let signed = rd as i8 as i16 - rr as i8 as i16 - cin;
                let c = (rd as i16) < rr as i16 + cin;
                let n = res & 0x80 != 0;
                let v = !(-128..=127).contains(&signed);
                let h = ((rd & 15) as i16) < (rr & 15) as i16 + cin;
                for z_before in [false, true] {
                    let before = I | if carry { C } else { 0 } | if z_before { Z } else { 0 };
                    let chained = flags(c, z_before && res == 0, n, v, h) | I;
                    let plain = flags(c, res == 0, n, v, h) | I;
                    let mut core = fresh();
                    core.set_register(16, rd);
                    core.set_register(17, rr);
                    core.sreg = before;
                    core.sbc(16, 17);
                    assert_eq!(core.get_register(16), res);
                    assert_eq!(core.sreg, chained);
                    core.set_register(16, rd);
                    core.sreg = before;
                    core.sbci(16, rr);
                    assert_eq!(core.get_register(16), res);
                    assert_eq!(core.sreg, chained);
                    core.set_register(16, rd);
                    core.sreg = before;
                    core.cpc(16, 17);
                    assert_eq!(core.get_register(16), rd);
                    assert_eq!(core.sreg, chained);
                    if !carry {
                        core.sreg = before;
                        core.sub(16, 17);
                        assert_eq!(core.get_register(16), res);
                        assert_eq!(core.sreg, plain);
                        core.set_register(16, rd);
                        core.sreg = before;
                        core.subi(16, rr);
                        assert_eq!(core.get_register(16), res);
                        assert_eq!(core.sreg, plain);
                        core.set_register(16, rd);
                        core.sreg = before;
                        core.cp(16, 17);
                        assert_eq!(core.get_register(16), rd);
                        assert_eq!(core.sreg, plain);
                        core.sreg = before;
                        core.cpi(16, rr);
                        assert_eq!(core.get_register(16), rd);
                        assert_eq!(core.sreg, plain);
                    }
                }
            }
        }
    }
}

#[test]
fn logic_instructions_clear_v_and_keep_c() {
    let mut core = fresh();
    core.sreg = C | V | H;
    core.set_register(1, 0xF0);
    core.set_register(2, 0x8F);
    core.and(1, 2);
    assert_eq!(core.get_register(1), 0x80);
    assert_eq!(core.sreg, C | H | N | S);
    core.andi(1, 0x7F);
    assert_eq!(core.get_register(1), 0x00);
    assert_eq!(core.sreg, C | H | Z);
    core.ori(1, 0x01);
    assert_eq!(core.get_register(1), 0x01);
    assert_eq!(core.sreg, C | H);
    core.or(1, 2);
    assert_eq!(core.get_register(1), 0x8F);
    assert_eq!(core.sreg, C | H | N | S);
    core.eor(1, 1);
    assert_eq!(core.get_register(1), 0x00);
    assert_eq!(core.sreg, C | H | Z);
    core.sreg = 0;
    core.com(2);
    assert_eq!(core.get_register(2), 0x70);
    assert_eq!(core.sreg, C);
}

#[test]
fn shifts_move_a_bit_into_carry() {
    let mut core = fresh();
    core.set_register(3, 0x81);
    core.lsr(3);
    assert_eq!(core.get_register(3), 0x40);
    assert_eq!(core.sreg, C | V | S);
    core.set_register(3, 0x81);
    core.sreg = 0;
    core.asr(3);
    assert_eq!(core.get_register(3), 0xC0);
    assert_eq!(core.sreg, C | N | S);
    core.set_register(3, 0x02);
    core.sreg = C;
    core.ror(3);
    assert_eq!(core.get_register(3), 0x81);
    assert_eq!(core.sreg, N | V);
    core.set_register(3, 0x88);
    core.sreg = 0;
    core.lsl(3);
    assert_eq!(core.get_register(3), 0x10);
    assert_eq!(core.sreg, C | V | S | H);
    core.set_register(3, 0xA5);
    core.swap(3);
    assert_eq!(core.get_register(3), 0x5A);
}

#[test]
fn multiplications_fill_r1_r0() {
    let mut core = fresh();
    core.set_register(16, 0xFF);
    core.set_register(17, 0xFF);
    core.mul(16, 17);
    assert_eq!(core.get_register_word(0), 0xFE01);
    assert_eq!(core.sreg, C);
    assert_eq!(core.busy, 1);
    core.muls(16, 17);
    assert_eq!(core.get_register_word(0), 0x0001);
    assert_eq!(core.sreg, 0);
    core.mulsu(16, 17);
    assert_eq!(core.get_register_word(0), 0xFF01);
    assert_eq!(core.sreg, C);
    core.set_register(16, 0x80);
    core.set_register(17, 0x80);
    core.muls(16, 17);
    assert_eq!(core.get_register_word(0), 0x4000);
    core.fmuls(16, 17);
    assert_eq!(core.get_register_word(0), 0x8000);
    assert_eq!(core.sreg, 0);
    core.fmul(16, 17);
    assert_eq!(core.get_register_word(0), 0x8000);
    core.set_register(16, 0xFF);
    core.set_register(17, 0xFF);
    core.fmul(16, 17);
    assert_eq!(core.get_register_word(0), 0xFC02);
    assert_eq!(core.sreg, C);
    core.fmulsu(16, 17);
    assert_eq!(core.get_register_word(0), 0xFE02);
    assert_eq!(core.sreg, C);
    core.set_register(17, 0);
    core.mul(16, 17);
    assert_eq!(core.get_register_word(0), 0);
    assert_eq!(core.sreg, Z);
}

#[test]
fn bit_transfers_through_t() {
    let mut core = fresh();
    core.set_register(4, 0x10);
    core.bst(4, 4);
    assert_eq!(core.sreg, T);
    core.bld(5, 0);
    assert_eq!(core.get_register(5), 0x01);
    core.bst(4, 3);
    assert_eq!(core.sreg, 0);
    core.set_register(5, 0xFF);
    core.bld(5, 7);
    assert_eq!(core.get_register(5), 0x7F);
    core.bset(7);
    assert_eq!(core.sreg, I);
    core.bset(0);
    core.bclr(7);
    assert_eq!(core.sreg, C);
}

#[test]
fn moves_copy_registers() {
    let mut core = fresh();
    core.ldi(16, 0x12);
    core.ldi(17, 0x34);
    core.mov(0, 16);
    assert_eq!(core.get_register(0), 0x12);
    core.movw(30, 16);
    assert_eq!(core.get_register_word(30), 0x3412);
    assert_eq!(core.sreg, 0);
}

#[test]
fn branches_are_taken_on_their_flag() {
    let mut core = fresh();
    core.pc = 0x0100;
    core.sreg = Z;
    core.brbx(1, -2, true);
    assert_eq!(core.pc, 0x00FE);
    assert_eq!(core.busy, 1);
    core.busy = 0;
    core.brbx(1, 5, false);
    assert_eq!(core.pc, 0x00FE);
    assert_eq!(core.busy, 0);
    core.brbx(0, 5, false);
    assert_eq!(core.pc, 0x0103);
    assert_eq!(core.busy, 1);
    core.pc = 0;
    core.rjmp(-1);
    assert_eq!(core.pc, 0xFFFF);
    core.jmp(0x1_2345);
    assert_eq!(core.pc, 0x2345);
    assert_eq!(core.busy, 2);
    core.set_register_word(30, 0x0040);
    core.ijmp();
    assert_eq!(core.pc, 0x0040);
    assert_eq!(core.busy, 1);
}

#[test]
fn call_then_ret_returns_behind_the_call() {
    let mut device = programmed(&[
        Instruction::NOP,
        Instruction::CALL { k: 0x0010 },
        Instruction::NOP,
    ]);
    assert_eq!(run_instruction(&mut device), 1);
    assert_eq!(device.core.pc, 1);
    assert_eq!(run_instruction(&mut device), 3);
    assert_eq!(device.core.pc, 0x0010);
    assert_eq!(device.core.sp, 0x3FFD);
    assert_eq!(device.mm.read(0x3FFF), (0x03, 0));
    assert_eq!(device.mm.read(0x3FFE), (0x00, 0));
    let (first, _) = encode(Instruction::RET);
    device.mm.flash.write(0x20, first as u8);
    device.mm.flash.write(0x21, (first >> 8) as u8);
    assert_eq!(run_instruction(&mut device), 4);
    assert_eq!(device.core.pc, 3);
    assert_eq!(device.core.sp, 0x3FFF);
}

#[test]
fn short_calls_return_behind_themselves() {
    let mut device = programmed(&[Instruction::RCALL { k: 3 }]);
    assert_eq!(run_instruction(&mut device), 2);
    assert_eq!(device.core.pc, 4);
    assert_eq!(device.core.sp, 0x3FFD);
    device.core.ret(&mut device.mm);
    assert_eq!(device.core.pc, 1);
    assert_eq!(device.core.sp, 0x3FFF);
    assert_eq!(device.core.busy, 3);
    device.core.set_register_word(30, 0x0123);
    device.core.icall(&mut device.mm);
    assert_eq!(device.core.pc, 0x0123);
    assert_eq!(device.core.busy, 1);
    device.core.ret(&mut device.mm);
    assert_eq!(device.core.pc, 1);
}

#[test]
fn push_then_pop_restores_the_byte() {
    let mut device = Device::new(DeviceType::ATtiny1626);
    device.core.set_register(7, 0xA7);
    device.core.push(&mut device.mm, 7);
    assert_eq!(device.core.sp, 0x3FFE);
    assert_eq!(device.core.busy, 0);
    assert_eq!(device.mm.read(0x3FFF), (0xA7, 0));
    device.core.pop(&mut device.mm, 9);
    assert_eq!(device.core.get_register(9), 0xA7);
    assert_eq!(device.core.sp, 0x3FFF);
    assert_eq!(device.core.busy, 1);
}

#[test]
fn ram_reads_back_through_loads_and_stores() {
    let mut device = Device::new(DeviceType::ATtiny1626);
    for (i, address) in [0x3800u16, 0x3801, 0x3ABC, 0x3FFF].iter().enumerate() {
        device.core.set_register(1, 0x40 + i as u8);
        device.core.sts(&mut device.mm, 1, *address);
        assert_eq!(device.core.busy, 2);
        device.core.lds(&mut device.mm, 2, *address);
        assert_eq!(device.core.get_register(2), 0x40 + i as u8);
        assert_eq!(device.core.busy, 2);
    }
    device.core.set_register_word(26, 0x3900);
    device.core.set_register(3, 0x5A);
    device.core.st(&mut device.mm, 3, PointerRegister::X, 0, false, true);
    assert_eq!(device.core.get_register_word(26), 0x3901);
    assert_eq!(device.core.busy, 2);
    device.core.ld(&mut device.mm, 4, PointerRegister::X, 0, true, false);
    assert_eq!(device.core.get_register(4), 0x5A);
    assert_eq!(device.core.get_register_word(26), 0x3900);
}

#[test]
fn displacement_reaches_past_the_pointer() {
    let mut device = Device::new(DeviceType::ATtiny1626);
    device.core.set_register_word(28, 0x3900);
    device.core.set_register(5, 0x77);
    device.core.st(&mut device.mm, 5, PointerRegister::Y, 63, false, false);
    assert_eq!(device.mm.read(0x393F), (0x77, 0));
    device.core.ld(&mut device.mm, 6, PointerRegister::Y, 63, false, false);
    assert_eq!(device.core.get_register(6), 0x77);
    assert_eq!(device.core.get_register_word(28), 0x3900);
}

#[test]
fn core_serves_its_own_io_registers() {
    let mut device = Device::new(DeviceType::ATtiny1626);
    device.core.sreg = 0x81;
    device.core.in_(&mut device.mm, 0, 0x3F);
    assert_eq!(device.core.get_register(0), 0x81);
    device.core.in_(&mut device.mm, 1, 0x3D);
    device.core.in_(&mut device.mm, 2, 0x3E);
    assert_eq!(device.core.get_register(1), 0xFF);
    assert_eq!(device.core.get_register(2), 0x3F);
    device.core.set_register(3, 0x12);
    device.core.out(&mut device.mm, 0x3D, 3);
    assert_eq!(device.core.sp, 0x3F12);
    device.core.out(&mut device.mm, 0x3E, 3);
    assert_eq!(device.core.sp, 0x1212);
    device.core.out(&mut device.mm, 0x3F, 3);
    assert_eq!(device.core.sreg, 0x12);
    device.core.sbi(&mut device.mm, 0x3F, 7);
    assert_eq!(device.core.sreg, 0x92);
    device.core.cbi(&mut device.mm, 0x3F, 1);
    assert_eq!(device.core.sreg, 0x90);
    device.core.sbi(&mut device.mm, 0x3E, 7);
    assert_eq!(device.core.sp, 0x9212);
    device.core.cbi(&mut device.mm, 0x3D, 1);
    assert_eq!(device.core.sp, 0x9210);
    device.core.lds(&mut device.mm, 4, 0x003F);
    assert_eq!(device.core.get_register(4), 0x90);
    assert_eq!(device.core.get_data_space(&mut device.mm, 0x3E), 0x92);
    assert_eq!(device.core.get_io_register(&mut device.mm, 0x3D), 0x10);
}

#[test]
fn low_data_addresses_are_the_working_registers() {
    let mut device = Device::new(DeviceType::ATtiny1626);
    device.core.set_register(16, 0x5C);
    // OUT, IN, SBI and CBI on an address below 32 reach the register of
    // that number and leave the bus alone
    device.core.out(&mut device.mm, 0x1C, 16);
    assert_eq!(device.core.get_register(0x1C), 0x5C);
    assert_eq!(device.mm.read(0x1C), (0x00, 0));
    device.core.in_(&mut device.mm, 17, 0x1C);
    assert_eq!(device.core.get_register(17), 0x5C);
    device.core.sbi(&mut device.mm, 0x1C, 0);
    device.core.cbi(&mut device.mm, 0x1C, 2);
    assert_eq!(device.core.get_register(0x1C), 0x59);
    assert_eq!(device.mm.read(0x1C), (0x00, 0));
    // what the bus holds at such an address is not what a load returns
    device.mm.write(0x1D, 0xEE);
    device.core.set_register(0x1D, 0x11);
    device.core.set_register_word(30, 0x001D);
    device.core.ld(&mut device.mm, 18, PointerRegister::Z, 0, false, false);
    assert_eq!(device.core.get_register(18), 0x11);
    assert_eq!(device.core.busy, 1);
    device.core.lds(&mut device.mm, 19, 0x001D);
    assert_eq!(device.core.get_register(19), 0x11);
    // a store writes the register
    device.core.set_register(20, 0xA7);
    device.core.set_register_word(26, 0x0005);
    device.core.st(&mut device.mm, 20, PointerRegister::X, 0, false, true);
    assert_eq!(device.core.get_register(5), 0xA7);
    assert_eq!(device.core.get_register_word(26), 0x0006);
    assert_eq!(device.mm.read(0x05), (0x00, 0));
    device.core.sts(&mut device.mm, 20, 0x001F);
    assert_eq!(device.core.get_register(31), 0xA7);
    assert_eq!(device.core.get_data_space(&mut device.mm, 31), 0xA7);
    device.core.set_data_space(&mut device.mm, 0, 0x42);
    assert_eq!(device.core.get_register(0), 0x42);
    // from 32 on the bus answers
    device.mm.write(0x3800, 0x77);
    assert_eq!(device.core.get_data_space(&mut device.mm, 0x3800), 0x77);
}

#[test]
fn loads_and_stores_take_a_cycle_more_in_the_sram() {
    let mut device = Device::new(DeviceType::ATtiny1626);
    device.core.set_register_word(30, 0x3800);
    device.core.ld(&mut device.mm, 18, PointerRegister::Z, 0, false, false);
    assert_eq!(device.core.busy, 2);
    device.core.set_register_word(30, 0x3FFF);
    device.core.st(&mut device.mm, 18, PointerRegister::Z, 0, false, false);
    assert_eq!(device.core.busy, 2);
    // a peripheral register, the I/O space, the flash
    device.core.set_register_word(30, 0x0420);
    device.core.ld(&mut device.mm, 18, PointerRegister::Z, 0, false, false);
    assert_eq!(device.core.busy, 1);
    device.core.set_register_word(30, 0x37FF);
    device.core.st(&mut device.mm, 18, PointerRegister::Z, 0, false, false);
    assert_eq!(device.core.busy, 1);
    device.core.set_register_word(30, 0x8000);
    device.core.ld(&mut device.mm, 18, PointerRegister::Z, 0, false, false);
    assert_eq!(device.core.busy, 1);
    device.core.set_register_word(30, 0x37FF);
    device.core.ld(&mut device.mm, 18, PointerRegister::Z, 1, false, false);
    assert_eq!(device.core.busy, 2);
    // a core that was not told where the SRAM lies
    let mut core = Core::new(CoreType::AVRxt, 0x0F);
    let mut ram = Memory::new(0x4000, 0, 0);
    core.set_register_word(30, 0x3800);
    core.ld(&mut ram, 18, PointerRegister::Z, 0, false, false);
    assert_eq!(core.busy, 1);
    core.map_sram(0x3800, 0x3FFF);
    core.ld(&mut ram, 18, PointerRegister::Z, 0, false, false);
    assert_eq!(core.busy, 2);
}

#[test]
fn skips_step_over_one_instruction() {
    let mut device = programmed(&[
        Instruction::CPSE { d: 0, r: 1 },
        Instruction::CALL { k: 0x100 },
        Instruction::SBRS { r: 0, b: 0 },
        Instruction::NOP,
        Instruction::SBRC { r: 0, b: 0 },
        Instruction::INC { d: 0 },
        Instruction::SBIS { A: 0x3F, b: 1 },
        Instruction::NOP,
    ]);
    assert_eq!(run_instruction(&mut device), 3);
    assert_eq!(device.core.pc, 3);
    assert_eq!(run_instruction(&mut device), 1);
    assert_eq!(device.core.pc, 4);
    assert_eq!(run_instruction(&mut device), 1);
    assert_eq!(device.core.pc, 5);
    assert_eq!(run_instruction(&mut device), 2);
    assert_eq!(device.core.pc, 7);
    assert_eq!(device.core.get_register(0), 0);
    assert_eq!(run_instruction(&mut device), 1);
    assert_eq!(device.core.pc, 8);
}

#[test]
fn program_memory_is_read_bytewise() {
    let mut device = Device::new(DeviceType::ATtiny1626);
    device.mm.flash.write(0x0100, 0xAB);
    device.mm.flash.write(0x0101, 0xCD);
    device.core.set_register_word(30, 0x0100);
    device.core.lpm(&device.mm, 0, true);
    assert_eq!(device.core.get_register(0), 0xAB);
    assert_eq!(device.core.get_register_word(30), 0x0101);
    assert_eq!(device.core.busy, 2);
    device.core.lpm(&device.mm, 1, false);
    assert_eq!(device.core.get_register(1), 0xCD);
    assert_eq!(device.core.get_progmem(&device.mm, 0x80), 0xCDAB);
    assert_eq!(device.core.get_ps(&device.mm, 0x0101), 0xCD);
}

#[test]
fn busy_core_fetches_nothing() {
    let mut device = programmed(&[Instruction::ADIW { d: 24, K: 1 }, Instruction::INC { d: 0 }]);
    assert_eq!(device.tick(0), 300);
    assert_eq!(device.core.busy, 1);
    assert_eq!(device.core.pc, 1);
    assert_eq!(device.tick(0), 300);
    assert_eq!(device.core.busy, 0);
    assert_eq!(device.core.pc, 1);
    assert_eq!(device.core.last, Step::Wait);
    assert_eq!(device.core.get_register(0), 0);
    assert_eq!(device.tick(0), 300);
    assert_eq!(device.core.get_register(0), 1);
    assert_eq!(
        device.core.last,
        Step::Fetch { at: 1, opcode: 0x9403, instruction: Instruction::INC { d: 0 } }
    );
}

#[test]
fn break_and_overflow_stop_the_core() {
    let mut device = programmed(&[Instruction::NOP, Instruction::BREAK]);
    assert_eq!(device.tick(0), 300);
    assert_eq!(device.tick(0), 0);
    assert_eq!(device.core.pc, 2);
    let mut device = Device::new(DeviceType::ATtiny1626);
    device.core.pc = 0xFFFF;
    assert_eq!(device.tick(0), 0);
    assert_eq!(device.core.pc, 0xFFFF);
}

#[test]
fn undefined_words_are_passed_over() {
    let mut device = Device::new(DeviceType::ATtiny1626);
    assert_eq!(device.tick(0), 300);
    assert_eq!(device.core.pc, 1);
    assert_eq!(
        device.core.last,
        Step::Fetch { at: 0, opcode: 0xFFFF, instruction: Instruction::UNDEF }
    );
}

#[test]
fn interrupt_is_taken_and_returned_from() {
    let mut device = programmed(&[Instruction::BSET { s: 7 }, Instruction::NOP, Instruction::NOP]);
    let (reti, _) = encode(Instruction::RETI);
    device.mm.flash.write(2 * 26, reti as u8);
    device.mm.flash.write(2 * 26 + 1, (reti >> 8) as u8);
    device.mm.write(0x0A80 + 0x05, 0x01);
    device.mm.write(0x0A80 + 0x0C, 0x03);
    device.mm.write(0x0A80 + 0x0D, 0x00);
    device.mm.write(0x0A80 + 0x00, 0x01);
    assert_eq!(device.tick(0), 300);
    assert_ne!(device.core.sreg & I, 0);
    assert_eq!(device.tick(0), 300);
    assert_eq!(device.core.pc, 2);
    assert_eq!(device.mm.read(0x0A80 + 0x06), (0x00, 0));
    assert_eq!(device.tick(0), 300);
    assert_eq!(device.core.pc, 3);
    assert_eq!(device.mm.read(0x0A80 + 0x06), (0x01, 0));
    assert_eq!(device.tick(0), 300);
    assert_eq!(device.core.last, Step::Interrupt { vector: 26 });
    assert_eq!(device.core.pc, 26);
    assert_eq!(device.core.busy, 4);
    assert_eq!(device.core.sp, 0x3FFD);
    assert_eq!(device.mm.read(0x3FFF), (0x03, 0));
    assert_eq!(device.mm.read(0x3FFE), (0x00, 0));
    assert_eq!(device.mm.read(0x0110 + 0x01), (0x01, 0));
    for _ in 0..4 {
        assert_eq!(device.tick(0), 300);
        assert_eq!(device.core.last, Step::Wait);
    }
    assert_eq!(device.tick(0), 300);
    assert_eq!(device.core.pc, 3);
    assert_eq!(device.core.sp, 0x3FFF);
    assert!(device.core.interrupt_inhibit);
    assert_eq!(device.core.busy, 3);
    assert_eq!(device.mm.read(0x0110 + 0x01), (0x00, 0));
    for _ in 0..3 {
        device.tick(0);
    }
    assert_eq!(device.tick(0), 300);
    assert_eq!(device.core.pc, 4);
    assert!(!device.core.interrupt_inhibit);
    assert!(matches!(device.core.last, Step::Fetch { at: 3, .. }));
    assert_eq!(device.tick(0), 300);
    assert_eq!(device.core.last, Step::Interrupt { vector: 26 });
    assert_eq!(device.mm.read(0x3FFF), (0x04, 0));
}

#[test]
fn interrupts_wait_for_the_i_flag() {
    let mut device = programmed(&[Instruction::NOP, Instruction::NOP, Instruction::NOP]);
    device.mm.write(0x0A80 + 0x05, 0x01);
    device.mm.write(0x0A80 + 0x0C, 0x01);
    device.mm.write(0x0A80 + 0x0D, 0x00);
    device.mm.write(0x0A80 + 0x00, 0x01);
    for _ in 0..3 {
        assert_eq!(device.tick(0), 300);
        assert!(matches!(device.core.last, Step::Fetch { .. }));
    }
    assert_eq!(device.mm.read(0x0A80 + 0x06), (0x01, 0));
    assert_eq!(device.core.sp, 0x3FFF);
}

#[test]
fn debug_switch_is_kept() {
    let mut core = fresh();
    core.debug(true);
    assert!(core.debug);
    core.debug(false);
    assert!(!core.debug);
}
