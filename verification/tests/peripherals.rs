use qutyemu::memory::MemoryMapped;
use qutyemu::nets::{NetState, PinState};
use qutyemu::peripherals::adc::{conversion, periods_skipped, Adc};
use qutyemu::peripherals::clkctrl::{prescaler_division, source_period, Clkctrl};
use qutyemu::peripherals::cpu::Cpu;
use qutyemu::peripherals::cpuint::{Binding, Cpuint};
use qutyemu::peripherals::fifo::Fifo;
use qutyemu::peripherals::port::Port;
use qutyemu::peripherals::portmux::Portmux;
use qutyemu::peripherals::spi::Spi;
use qutyemu::peripherals::stdio::Stdio;
use qutyemu::peripherals::tca::Tca;
use qutyemu::peripherals::tcb::Tcb;
use qutyemu::peripherals::usart::{UsartState, Usart};
use qutyemu::peripherals::{Ccp, ClockSource, Clocked, InterruptSource};

fn port() -> Port {
    Port::new(String::from("P"))
}

#[test]
fn clock_starts_at_three_hundred_nanoseconds() {
    let clk = Clkctrl::new();
    assert_eq!(clk.clock_period(), 300);
    assert!(!clk.is_locked());
    assert_eq!(source_period(0), Some(50));
    assert_eq!(source_period(1), Some(30518));
    assert_eq!(source_period(2), None);
    assert_eq!(source_period(3), None);
}

#[test]
fn prescaler_table() {
    let divisions = [
        (0, 2),
        (1, 4),
        (2, 8),
        (3, 16),
        (4, 32),
        (5, 64),
        (8, 6),
        (9, 10),
        (10, 12),
        (11, 24),
        (12, 48),
    ];
    for (field, division) in divisions {
        assert_eq!(prescaler_division(field), Some(division));
        let mut clk = Clkctrl::new();
        clk.ccp(true);
        clk.write(0x01, (field << 1) | 1);
        assert_eq!(clk.clock_period(), 50 * division);
    }
    for field in [6u8, 7, 13, 14, 15] {
        assert_eq!(prescaler_division(field), None);
        let mut clk = Clkctrl::new();
        clk.ccp(true);
        clk.write(0x01, (field << 1) | 1);
        assert_eq!(clk.clock_period(), 300);
        assert_eq!(clk.read(0x01), ((field << 1) | 1, 0));
    }
}

#[test]
fn clock_registers_are_protected() {
    let mut clk = Clkctrl::new();
    clk.write(0x01, 0x00);
    assert_eq!(clk.clock_period(), 300);
    assert_eq!(clk.read(0x01), (0, 0));
    clk.write(0x00, 0x01);
    assert_eq!(clk.read(0x00), (0, 0));
    clk.ccp(true);
    clk.write(0x01, 0x00);
    assert_eq!(clk.clock_period(), 50);
    clk.write(0x00, 0x01);
    assert_eq!(clk.clock_period(), 30518);
    clk.write(0x00, 0x02);
    assert_eq!(clk.read(0x00), (2, 0));
    assert_eq!(clk.clock_period(), 30518);
    clk.write(0x00, 0x83);
    assert_eq!(clk.read(0x00), (3, 0));
    assert_eq!(clk.clock_period(), 30518);
    clk.write(0x00, 0x00);
    clk.write(0x10, 0xFF);
    assert_eq!(clk.read(0x10), (0, 0));
    clk.write(0x02, 0xFF);
    assert!(clk.is_locked());
    assert_eq!(clk.read(0x02), (1, 0));
    clk.write(0x01, 0x03);
    assert_eq!(clk.clock_period(), 50);
    clk.write(0x02, 0x00);
    assert!(clk.is_locked());
    assert_eq!(clk.get_size(), 0x1D);
    assert_eq!(clk.read(0x1D), (0, 0));
}

#[test]
fn key_opens_a_window_of_four_cycles() {
    let mut cpu = Cpu::new();
    let mut clk = Clkctrl::new();
    assert_eq!(cpu.get_size(), 0x10);
    assert_eq!(cpu.read(0x04), (0, 0));
    cpu.write(&mut clk, 0x04, 0x9D);
    assert!(!clk.ccp);
    cpu.write(&mut clk, 0x05, 0xD8);
    assert!(!clk.ccp);
    cpu.write(&mut clk, 0x04, 0xD8);
    assert!(clk.ccp);
    assert_eq!(cpu.read(0x04), (1, 0));
    for _ in 0..3 {
        cpu.tick(&mut clk, 0);
        assert!(clk.ccp);
        assert_eq!(cpu.read(0x04), (1, 0));
    }
    cpu.tick(&mut clk, 0);
    assert!(!clk.ccp);
    assert_eq!(cpu.read(0x04), (0, 0));
    cpu.tick(&mut clk, 0);
    assert!(!clk.ccp);
    assert_eq!(cpu.read(0x00), (0, 0));
    assert_eq!(cpu.read(0x10), (0, 0));
}

#[test]
fn interrupt_controller_polls_in_order() {
    let mut cpuint = Cpuint::new();
    assert_eq!(cpuint.get_size(), 4);
    for i in 0..30usize {
        assert_eq!(cpuint.vectors[i], 2 * i as u16);
    }
    cpuint.add_source(8, 20, 0x01);
    cpuint.add_source(13, 21, 0x03);
    cpuint.add_source(6, 10, 0xFF);
    assert_eq!(cpuint.source_count(), 3);
    assert_eq!(cpuint.source(1), Binding { vector_index: 13, source: 21, flag_mask: 0x03 });
    assert_eq!(cpuint.service_pending(&vec![false, false, false]), None);
    assert_eq!(cpuint.read(0x01), (0, 0));
    assert_eq!(cpuint.service_pending(&vec![false, true, true]), Some(26));
    assert_eq!(cpuint.read(0x01), (1, 0));
    assert_eq!(cpuint.service_pending(&vec![true, true, true]), None);
    cpuint.reti();
    assert_eq!(cpuint.read(0x01), (0, 0));
    assert_eq!(cpuint.service_pending(&vec![true, true, true]), Some(16));
    cpuint.reti();
    assert_eq!(cpuint.service_pending(&vec![false, false, true]), Some(12));
    cpuint.write(0x01, 0x00);
    assert_eq!(cpuint.read(0x01), (1, 0));
    assert_eq!(cpuint.read(0x04), (0, 0));
    cpuint.ccp_enable();
    assert!(cpuint.ccp);
    cpuint.ccp_disable();
    assert!(!cpuint.ccp);
}

#[test]
fn port_multiplexer_keeps_what_is_written() {
    let mut mux = Portmux::new(String::from("PORTMUX"));
    assert_eq!(mux.get_size(), 6);
    for address in 0..6usize {
        assert_eq!(mux.write(address, 0x10 + address as u8), 0);
    }
    for address in 0..6usize {
        assert_eq!(mux.read(address), (0x10 + address as u8, 0));
    }
    mux.write(6, 0xFF);
    assert_eq!(mux.read(6), (0, 0));
}

#[test]
fn stdio_logs_output_and_queues_input() {
    let mut stdio = Stdio::new(String::from("STDIO"), String::from("stdout.txt"));
    assert_eq!(stdio.get_size(), 3);
    assert_eq!(stdio.read(0x02), (0, 0));
    assert_eq!(stdio.read(0x01), (0, 0));
    stdio.write(0x00, b'H');
    stdio.write(0x00, b'i');
    stdio.write(0x01, b'!');
    stdio.write(0x02, b'!');
    assert_eq!(stdio.output(), &vec![b'H', b'i']);
    assert_eq!(stdio.read(0x00), (0, 0));
    stdio.feed(0x31);
    stdio.feed(0x32);
    assert_eq!(stdio.read(0x02), (2, 0));
    assert_eq!(stdio.read(0x01), (0x31, 0));
    assert_eq!(stdio.read(0x02), (1, 0));
    assert_eq!(stdio.read(0x01), (0x32, 0));
    assert_eq!(stdio.read(0x01), (0, 0));
    for _ in 0..300 {
        stdio.feed(7);
    }
    assert_eq!(stdio.read(0x02), (255, 0));
    assert_eq!(stdio.outfile, "stdout.txt");
    stdio.out(b'x');
    assert_eq!(stdio.output().len(), 3);
}

#[test]
fn fifo_is_first_in_first_out() {
    let mut fifo = Fifo::new();
    assert!(fifo.is_empty());
    assert_eq!(fifo.front(), None);
    assert_eq!(fifo.pop_front(), None);
    fifo.push_back(1);
    fifo.push_back(2);
    fifo.push_back(3);
    fifo.push_back(4);
    fifo.push_back(5);
    assert_eq!(fifo.len(), 4);
    assert_eq!(fifo.front(), Some(1));
    assert_eq!(fifo.pop_front(), Some(1));
    assert_eq!(fifo.pop_front(), Some(2));
    fifo.push_back(6);
    assert_eq!(fifo.pop_front(), Some(3));
    assert_eq!(fifo.pop_front(), Some(4));
    assert_eq!(fifo.pop_front(), Some(6));
    assert_eq!(fifo.pop_front(), None);
    assert!(fifo.is_empty());
}

#[test]
fn timer_b_counts_to_the_compare_value() {
    let mut tcb = Tcb::new(String::from("TCB0"));
    assert_eq!(tcb.get_size(), 0x0E);
    tcb.tick(0);
    assert_eq!(tcb.read(0x0A), (0, 0));
    tcb.write(0x0C, 0x03);
    tcb.write(0x0D, 0x00);
    assert_eq!(tcb.read(0x0C), (3, 0));
    assert_eq!(tcb.read(0x0D), (0, 0));
    tcb.write(0x05, 0x01);
    tcb.write(0x00, 0x01);
    assert_eq!(tcb.read(0x07), (1, 0));
    assert!(!tcb.interrupt(0x03));
    tcb.tick(0);
    tcb.tick(0);
    assert_eq!(tcb.read(0x0A), (2, 0));
    assert_eq!(tcb.read(0x06), (0, 0));
    tcb.tick(0);
    assert_eq!(tcb.read(0x0A), (0, 0));
    assert_eq!(tcb.read(0x06), (1, 0));
    assert!(tcb.interrupt(0x03));
    assert!(!tcb.interrupt(0x02));
    tcb.write(0x06, 0x01);
    assert_eq!(tcb.read(0x06), (0, 0));
    assert!(!tcb.interrupt(0x03));
    tcb.write(0x05, 0x00);
    tcb.tick(0);
    tcb.tick(0);
    tcb.tick(0);
    assert_eq!(tcb.read(0x06), (1, 0));
    assert!(!tcb.interrupt(0x03));
}

#[test]
fn timer_b_overflows_at_the_top() {
    let mut tcb = Tcb::new(String::from("TCB0"));
    tcb.write(0x0C, 0x34);
    tcb.write(0x0D, 0x12);
    tcb.write(0x0A, 0xFE);
    tcb.write(0x0B, 0xFF);
    assert_eq!(tcb.read(0x0A), (0xFE, 0));
    assert_eq!(tcb.read(0x0B), (0xFF, 0));
    tcb.write(0x00, 0x01);
    tcb.tick(0);
    assert_eq!(tcb.read(0x0A), (0xFF, 0));
    assert_eq!(tcb.read(0x06), (0, 0));
    tcb.tick(0);
    assert_eq!(tcb.read(0x0A), (0x00, 0));
    assert_eq!(tcb.read(0x0B), (0x00, 0));
    assert_eq!(tcb.read(0x06), (0x02, 0));
    tcb.write(0x0A, 0xFF);
    tcb.write(0x0B, 0x00);
    tcb.tick(0);
    assert_eq!(tcb.read(0x0A), (0x00, 0));
    assert_eq!(tcb.read(0x0B), (0x01, 0));
}

#[test]
fn timer_b_clock_selection() {
    let mut tcb = Tcb::new(String::from("TCB0"));
    tcb.write(0x00, 0x03);
    for _ in 0..6 {
        tcb.tick(0);
    }
    assert_eq!(tcb.read(0x0A), (3, 0));
    tcb.write(0x00, 0x05);
    tcb.tick(0);
    assert_eq!(tcb.read(0x0A), (3, 0));
    tcb.write(0x00, 0x01);
    tcb.write(0x01, 0x07);
    tcb.tick(0);
    assert_eq!(tcb.read(0x0A), (3, 0));
    tcb.write(0x01, 0x00);
    tcb.write(0x00, 0x00);
    tcb.tick(0);
    assert_eq!(tcb.read(0x0A), (3, 0));
    assert_eq!(tcb.read(0x07), (0, 0));
    tcb.write(0x04, 0xAA);
    tcb.write(0x08, 0x55);
    assert_eq!(tcb.read(0x04), (0xAA, 0));
    assert_eq!(tcb.read(0x08), (0x55, 0));
    assert_eq!(tcb.read(0x0E), (0, 0));
}

#[test]
fn timer_a_makes_a_single_slope_waveform() {
    let mut p = port();
    p.write(0x00, 0x01);
    let mut tca = Tca::new(String::from("TCA0"), 1, [0, 1, 3], [3, 4, 5]);
    assert_eq!(tca.get_size(), 0x3E);
    assert_eq!(tca.port_index(), 1);
    tca.write(&mut p, 0x26, 0x03);
    tca.write(&mut p, 0x27, 0x00);
    tca.write(&mut p, 0x28, 0x02);
    tca.write(&mut p, 0x29, 0x00);
    tca.write(&mut p, 0x01, 0x13);
    assert_eq!(p.pin(0), PinState::DriveL);
    tca.write(&mut p, 0x0A, 0x11);
    tca.write(&mut p, 0x00, 0x01);
    let mut levels = Vec::new();
    for _ in 0..8 {
        tca.tick(&mut p, 0);
        levels.push(p.pin(0));
    }
    assert_eq!(
        levels,
        vec![
            PinState::DriveL,
            PinState::DriveL,
            PinState::DriveL,
            PinState::DriveH,
            PinState::DriveH,
            PinState::DriveL,
            PinState::DriveL,
            PinState::DriveH,
        ]
    );
    assert_eq!(tca.read(0x0B), (0x71, 0));
    assert!(tca.interrupt(0x01));
    assert!(tca.interrupt(0x10));
    assert!(!tca.interrupt(0x20));
    tca.write(&mut p, 0x0B, 0x01);
    assert_eq!(tca.read(0x0B), (0x70, 0));
    assert_eq!(tca.read(0x20), (0, 0));
}

#[test]
fn timer_a_promotes_buffers_at_the_bottom() {
    let mut p = port();
    let mut tca = Tca::new(String::from("TCA0"), 1, [0, 1, 3], [3, 4, 5]);
    tca.write(&mut p, 0x26, 0x01);
    tca.write(&mut p, 0x27, 0x00);
    tca.write(&mut p, 0x36, 0x05);
    tca.write(&mut p, 0x37, 0x00);
    tca.write(&mut p, 0x3A, 0x34);
    tca.write(&mut p, 0x3B, 0x12);
    assert_eq!(tca.read(0x06), (0x05, 0));
    assert_eq!(tca.read(0x07), (0x05, 0));
    tca.write(&mut p, 0x01, 0x03);
    tca.write(&mut p, 0x00, 0x01);
    tca.tick(&mut p, 0);
    assert_eq!(tca.read(0x26), (0x01, 0));
    tca.tick(&mut p, 0);
    assert_eq!(tca.read(0x20), (0x00, 0));
    assert_eq!(tca.read(0x26), (0x05, 0));
    assert_eq!(tca.read(0x2A), (0x34, 0));
    assert_eq!(tca.read(0x2B), (0x12, 0));
    assert_eq!(tca.read(0x06), (0x00, 0));
    assert_eq!(tca.read(0x02), (0x02, 0));
}

#[test]
fn timer_a_divides_its_clock() {
    let mut p = port();
    let mut tca = Tca::new(String::from("TCA0"), 1, [0, 1, 3], [3, 4, 5]);
    tca.write(&mut p, 0x26, 0xFF);
    tca.write(&mut p, 0x27, 0xFF);
    tca.write(&mut p, 0x01, 0x03);
    tca.write(&mut p, 0x00, 0x05);
    for _ in 0..8 {
        tca.tick(&mut p, 0);
    }
    assert_eq!(tca.read(0x20), (2, 0));
    tca.write(&mut p, 0x00, 0x00);
    tca.tick(&mut p, 0);
    assert_eq!(tca.read(0x20), (2, 0));
    tca.write(&mut p, 0x05, 0xFF);
    assert_eq!(tca.read(0x04), (0x03, 0));
    tca.write(&mut p, 0x04, 0x01);
    assert_eq!(tca.read(0x05), (0x02, 0));
    tca.write(&mut p, 0x07, 0x0F);
    tca.write(&mut p, 0x06, 0x05);
    assert_eq!(tca.read(0x07), (0x0A, 0));
    assert_eq!(tca.read(0x08), (0, 0));
}

#[test]
fn timer_a_routes_outputs_to_alternative_pins() {
    let mut p = port();
    p.write(0x00, 0xFF);
    let mut tca = Tca::new(String::from("TCA0"), 1, [0, 1, 3], [3, 4, 5]);
    tca.mux_alt = [false, true, false];
    tca.write(&mut p, 0x02, 0x02);
    tca.write(&mut p, 0x01, 0x20);
    assert_eq!(p.pin(4), PinState::DriveH);
    assert_eq!(p.pin(1), PinState::DriveL);
    assert!(p.pio[4].po_out);
    assert!(!p.pio[1].po_out);
    tca.write(&mut p, 0x01, 0x00);
    assert!(!p.pio[4].po_out);
    assert_eq!(p.pin(4), PinState::DriveL);
}

#[test]
fn baud_increment_formula() {
    let mut p = port();
    let mut usart = Usart::new(String::from("USART0"), 1, [3, 2, 1, 0], 0, [2, 1, 3, 4]);
    assert_eq!(usart.baud_inc(), 0);
    usart.write(&mut p, 0x08, 0x6D);
    usart.write(&mut p, 0x09, 0x05);
    assert_eq!(usart.baud_inc(), 12368516);
    usart.write(&mut p, 0x06, 0x02);
    assert_eq!(usart.baud_inc(), 24737032);
    usart.write(&mut p, 0x06, 0x00);
    usart.write(&mut p, 0x08, 0x40);
    usart.write(&mut p, 0x09, 0x00);
    assert_eq!(usart.baud_inc(), 0x1000_0000);
}

#[test]
fn baud_accumulator_rolls_over_at_the_baud_rate() {
    let mut p = port();
    let mut usart = Usart::new(String::from("USART0"), 1, [3, 2, 1, 0], 0, [2, 1, 3, 4]);
    usart.write(&mut p, 0x08, 0x6D);
    usart.write(&mut p, 0x09, 0x05);
    let inc = usart.baud_inc();
    let mut accumulator = 0u32;
    let mut rollovers = 0u32;
    for _ in 0..3_333_333u32 {
        let next = accumulator.wrapping_add(inc);
        if next < accumulator {
            rollovers += 1;
        }
        accumulator = next;
    }
    assert!((9599..=9601).contains(&rollovers));
    assert_eq!(rollovers, 9599);
    assert_eq!(rollovers as u64, (3_333_333u64 * inc as u64) >> 32);
}

fn line_level(frame: u16, tick: u32, ticks_per_bit: f64, start: u32) -> bool {
    if tick < start {
        return true;
    }
    let bit = ((tick - start) as f64 / ticks_per_bit) as u32;
    if bit >= 10 {
        true
    } else {
        (frame >> bit) & 1 == 1
    }
}

fn receive(byte: u8, stop: bool) -> Usart {
    let mut p = port();
    let mut usart = Usart::new(String::from("USART0"), 1, [3, 2, 1, 0], 0, [2, 1, 3, 4]);
    usart.write(&mut p, 0x08, 0x6D);
    usart.write(&mut p, 0x09, 0x05);
    usart.write(&mut p, 0x06, 0x80);
    let frame: u16 = ((byte as u16) << 1) | if stop { 0x200 } else { 0 };
    let ticks_per_bit = 4294967296.0 / 12368516.0;
    for tick in 0..4500u32 {
        p.regs[8] = if line_level(frame, tick, ticks_per_bit, 50) { 0x08 } else { 0x00 };
        usart.tick(&mut p, tick as u64 * 300);
    }
    usart
}

#[test]
fn usart_receives_a_frame() {
    let mut usart = receive(0x41, true);
    assert_eq!(usart.rx_state, UsartState::Idle);
    assert_eq!(usart.read(0x04).0 & 0x80, 0x80);
    assert!(!usart.interrupt(0x80));
    assert_eq!(usart.read(0x01), (0x80, 0));
    assert_eq!(usart.read(0x00), (0x41, 0));
    assert_eq!(usart.read(0x04).0 & 0x80, 0x00);
    assert_eq!(usart.read(0x01), (0x00, 0));
    assert_eq!(usart.read(0x00), (0x41, 0));
}

#[test]
fn usart_flags_a_low_stop_bit() {
    let mut usart = receive(0xA6, false);
    assert_eq!(usart.read(0x01), (0x84, 0));
    assert_eq!(usart.read(0x00), (0xA6, 0));
    assert_eq!(usart.read(0x01), (0x04, 0));
}

#[test]
fn usart_receiver_needs_enabling() {
    let mut p = port();
    let mut usart = Usart::new(String::from("USART0"), 1, [3, 2, 1, 0], 0, [2, 1, 3, 4]);
    usart.write(&mut p, 0x08, 0x6D);
    usart.write(&mut p, 0x09, 0x05);
    let ticks_per_bit = 4294967296.0 / 12368516.0;
    for tick in 0..4500u32 {
        p.regs[8] = if line_level(0x2AA, tick, ticks_per_bit, 50) { 0x08 } else { 0x00 };
        usart.tick(&mut p, 0);
    }
    assert_eq!(usart.read(0x04), (0x20, 0));
    assert_eq!(usart.read(0x00), (0x00, 0));
}

#[test]
fn usart_sends_a_frame() {
    let mut p = port();
    p.write(0x00, 0x04);
    let mut usart = Usart::new(String::from("USART0"), 1, [3, 2, 1, 0], 0, [2, 1, 3, 4]);
    assert_eq!(usart.get_size(), 0x0F);
    assert_eq!(usart.port_index(), 1);
    assert!(usart.dre());
    assert!(!usart.txen());
    assert!(!usart.rxen());
    usart.tick(&mut p, 0);
    usart.write(&mut p, 0x08, 0x6D);
    usart.write(&mut p, 0x09, 0x05);
    usart.write(&mut p, 0x06, 0x40);
    assert!(usart.txen());
    assert_eq!(p.pin(2), PinState::DriveH);
    usart.write(&mut p, 0x02, 0x53);
    assert_eq!(p.pin(2), PinState::DriveL);
    assert_eq!(usart.tx_state, UsartState::Shift);
    let mut samples = Vec::new();
    let ticks_per_bit = 4294967296.0 / 12368516.0;
    let mut next_sample = ticks_per_bit / 2.0;
    for tick in 0..3700u32 {
        if tick as f64 >= next_sample {
            samples.push(p.pin(2) == PinState::DriveH);
            next_sample += ticks_per_bit;
        }
        usart.tick(&mut p, 0);
    }
    let mut byte = 0u8;
    assert!(!samples[0]);
    for bit in 0..8 {
        if samples[1 + bit] {
            byte |= 1 << bit;
        }
    }
    assert_eq!(byte, 0x53);
    assert!(samples[9]);
    assert_eq!(usart.tx_state, UsartState::Idle);
    assert_eq!(usart.read(0x04).0 & 0x60, 0x60);
    assert!(!usart.interrupt(0x40));
    usart.write(&mut p, 0x05, 0x40);
    assert!(usart.interrupt(0x40));
    usart.write(&mut p, 0x04, 0x40);
    assert_eq!(usart.read(0x04).0 & 0x40, 0x00);
    usart.write(&mut p, 0x06, 0x00);
    assert!(!p.pio[2].po_out);
}

#[test]
fn usart_buffers_two_bytes_behind_the_shifter() {
    let mut p = port();
    let mut usart = Usart::new(String::from("USART0"), 1, [3, 2, 1, 0], 0, [2, 1, 3, 4]);
    usart.tick(&mut p, 0);
    usart.write(&mut p, 0x08, 0x6D);
    usart.write(&mut p, 0x09, 0x05);
    usart.write(&mut p, 0x06, 0x40);
    usart.write(&mut p, 0x02, 0x01);
    assert!(usart.dre());
    usart.write(&mut p, 0x02, 0x02);
    assert!(usart.dre());
    usart.write(&mut p, 0x02, 0x03);
    assert!(!usart.dre());
    usart.write(&mut p, 0x02, 0x04);
    assert_eq!(usart.tx_buf.len(), 2);
    assert_eq!(usart.tx_buf.front(), Some(0x02));
    for _ in 0..3700 {
        usart.tick(&mut p, 0);
    }
    assert!(usart.dre());
    assert_eq!(usart.tx_buf.len(), 1);
    assert_eq!(usart.tx_buf.front(), Some(0x03));
}

#[test]
fn usart_uses_the_alternative_pins() {
    let mut main = port();
    let mut alt = port();
    alt.write(0x00, 0xFF);
    let mut usart = Usart::new(String::from("USART0"), 1, [3, 2, 1, 0], 0, [2, 1, 3, 4]);
    usart.mux_alt = true;
    assert_eq!(usart.port_index(), 0);
    usart.write(&mut alt, 0x06, 0x40);
    assert_eq!(alt.pin(1), PinState::DriveH);
    assert!(alt.pio[1].po_out);
    assert!(!main.pio[2].po_out);
    main.write(0x00, 0x00);
}

fn spi_transfer(byte: u8, ctrla: u8, miso: bool) -> (Vec<bool>, Spi, Port) {
    let mut p = port();
    p.write(0x00, 0x05);
    let mut spi = Spi::new(String::from("SPI0"), 0, [1, 2, 3, 4], 2, [2, 1, 0, 3]);
    spi.mux_alt = true;
    if miso {
        p.regs[8] = 0x02;
    }
    spi.write(0x00, ctrla);
    spi.write(0x01, 0x04);
    for _ in 0..4 {
        spi.tick(&mut p, 0);
    }
    assert_eq!(p.pin(0), PinState::DriveL);
    spi.write(0x04, byte);
    let mut bits = Vec::new();
    let mut clock = false;
    for _ in 0..80 {
        spi.tick(&mut p, 0);
        let now = p.pin(0) == PinState::DriveH;
        if now && !clock {
            bits.push(p.pin(2) == PinState::DriveH);
        }
        clock = now;
    }
    (bits, spi, p)
}

#[test]
fn spi_shifts_most_significant_bit_first() {
    let (bits, mut spi, p) = spi_transfer(0xB2, 0x21, false);
    assert_eq!(bits, vec![true, false, true, true, false, false, true, false]);
    assert_eq!(spi.read(0x03), (0x80, 0));
    assert_eq!(spi.read(0x04), (0x00, 0));
    assert_eq!(p.pin(0), PinState::DriveL);
    assert_eq!(spi.sr_state, 0);
    assert_eq!(spi.subinterval, 0);
    assert!(!spi.interrupt(0x80));
    spi.write(0x02, 0x80);
    assert!(spi.interrupt(0xF1));
}

#[test]
fn spi_shifts_least_significant_bit_first() {
    let (bits, mut spi, _) = spi_transfer(0xB2, 0x61, true);
    assert_eq!(bits, vec![false, true, false, false, true, true, false, true]);
    assert_eq!(spi.read(0x04), (0xFF, 0));
}

#[test]
fn spi_receives_what_miso_carries() {
    let (_, mut spi, _) = spi_transfer(0x00, 0x21, true);
    assert_eq!(spi.read(0x04), (0xFF, 0));
}

#[test]
fn spi_clock_division() {
    let mut spi = Spi::new(String::from("SPI0"), 0, [1, 2, 3, 4], 2, [2, 1, 0, 3]);
    assert_eq!(spi.get_size(), 5);
    assert_eq!(spi.port_index(), 0);
    for (field, division) in [(0u8, 4u8), (1, 16), (2, 64), (3, 128)] {
        spi.write(0x00, field << 1);
        assert_eq!(spi.prescaler(), division);
        spi.write(0x00, (field << 1) | 0x10);
        assert_eq!(spi.prescaler(), division / 2);
    }
    spi.write(0x00, 0x61);
    assert!(spi.is_enabled());
    assert!(spi.is_master());
    assert!(spi.is_lsb_first());
    spi.write(0x01, 0xC7);
    assert_eq!(spi.mode(), 3);
    assert!(spi.is_ssd());
    assert!(spi.is_bufen());
    assert!(spi.is_bufwr());
    assert_eq!(spi.read(0x05), (0, 0));
}

#[test]
fn spi_releases_its_pins_when_disabled() {
    let mut p = port();
    p.po_out(1, true);
    p.po_dir(2, true);
    let mut spi = Spi::new(String::from("SPI0"), 0, [1, 2, 3, 4], 2, [2, 1, 0, 3]);
    spi.tick(&mut p, 0);
    assert!(!p.pio[1].po_out);
    assert!(!p.pio[2].po_dir);
    spi.write(0x00, 0x01);
    for _ in 0..3 {
        spi.tick(&mut p, 0);
    }
    assert!(p.pio[1].po_dir);
    assert!(p.pio[3].po_dir);
    assert!(p.pio[4].po_dir);
    assert!(p.pio[2].po_out);
    assert!(!p.pio[2].po_out_val);
}

#[test]
fn spi_buffered_mode_queues_bytes() {
    let mut p = port();
    let mut spi = Spi::new(String::from("SPI0"), 0, [1, 2, 3, 4], 2, [2, 1, 0, 3]);
    spi.write(0x00, 0x21);
    spi.write(0x01, 0x84);
    spi.write(0x04, 0x11);
    spi.write(0x04, 0x22);
    assert!(spi.has_data_tx);
    for _ in 0..100 {
        spi.tick(&mut p, 0);
    }
    assert!(!spi.has_data_tx);
    assert_eq!(spi.buf_rx.len(), 2);
    assert_eq!(spi.read(0x03).0 & 0xE0, 0xE0);
    spi.write(0x04, 0x33);
    for _ in 0..50 {
        spi.tick(&mut p, 0);
    }
    assert_eq!(spi.buf_rx.len(), 2);
    assert_eq!(spi.read(0x03).0 & 0x01, 0x01);
    spi.read(0x04);
    assert_eq!(spi.read(0x03).0 & 0x80, 0x80);
    spi.read(0x04);
    assert_eq!(spi.read(0x03).0 & 0x80, 0x00);
}

#[test]
fn spi_unbuffered_write_during_transfer_collides() {
    let mut p = port();
    let mut spi = Spi::new(String::from("SPI0"), 0, [1, 2, 3, 4], 2, [2, 1, 0, 3]);
    spi.write(0x00, 0x21);
    spi.write(0x04, 0x11);
    spi.tick(&mut p, 0);
    spi.write(0x04, 0x22);
    assert_eq!(spi.read(0x03).0 & 0x40, 0x40);
    spi.write(0x03, 0xFF);
    assert_eq!(spi.read(0x03).0 & 0x40, 0x40);
}

fn ain() -> [(usize, u8); 15] {
    [
        (0, 1),
        (0, 2),
        (0, 3),
        (0, 4),
        (0, 5),
        (0, 6),
        (0, 7),
        (1, 5),
        (1, 4),
        (1, 1),
        (1, 0),
        (2, 0),
        (2, 1),
        (2, 2),
        (2, 3),
    ]
}

#[test]
fn conversion_formula() {
    assert_eq!(conversion(NetState::Low, 3_300_000), 0);
    assert_eq!(conversion(NetState::Undefined, 3_300_000), 0);
    assert_eq!(conversion(NetState::High, 3_300_000), 0x0FFF);
    assert_eq!(conversion(NetState::Analog(0), 3_300_000), 0);
    assert_eq!(conversion(NetState::Analog(1_650_000), 3_300_000), 2048);
    assert_eq!(conversion(NetState::Analog(3_300_000), 3_300_000), 4095);
    assert_eq!(conversion(NetState::Analog(1_000), 3_300_000), 1);
    assert_eq!(conversion(NetState::Analog(2_000), 3_300_000), 2);
    assert_eq!(conversion(NetState::Analog(402), 3_300_000), 0);
    assert_eq!(conversion(NetState::Analog(403), 3_300_000), 1);
    // the wiper at 0.5004 of the travel
    assert_eq!(conversion(NetState::Analog(1_651_320), 3_300_000), 2050);
    assert_eq!(conversion(NetState::Analog(1_000_000), 2_048_000), 2000);
    assert_eq!(conversion(NetState::Analog(1_000_000), 1_024_000), 4000);
    assert_eq!(conversion(NetState::Analog(1_024_000), 1_024_000), 4095);
    assert_eq!(conversion(NetState::Analog(u32::MAX), 1_024_000), 4095);
    assert_eq!(conversion(NetState::Analog(100_000), 1_000), 4095);
    assert_eq!(conversion(NetState::Analog(100_000), 0), 4095);
}

#[test]
fn converter_prescaler_table() {
    let divisions = [2, 4, 6, 8, 10, 12, 14, 16, 20, 24, 28, 32, 40, 48, 56, 64];
    for (field, division) in divisions.iter().enumerate() {
        assert_eq!(periods_skipped(field as u8), division - 1);
        assert_eq!(periods_skipped(field as u8 | 0xF0), division - 1);
    }
}

#[test]
fn converter_delivers_after_its_delay() {
    let mut ports = [port(), port(), port()];
    ports[0].pio[2].sensed = NetState::Analog(1_650_000);
    let mut adc = Adc::new(String::from("ADC0"), ain());
    assert_eq!(adc.get_size(), 0x20);
    adc.write(&ports, 0x01, 0x00);
    adc.write(&ports, 0x0C, 0x02);
    adc.write(&ports, 0x04, 0x01);
    adc.write(&ports, 0x0A, 0x01);
    assert_eq!(adc.read(0x06), (0, 0));
    assert_eq!(adc.read(0x0A), (0, 0));
    adc.write(&ports, 0x00, 0x01);
    adc.write(&ports, 0x0A, 0x01);
    assert_eq!(adc.read(0x06), (1, 0));
    assert_eq!(adc.read(0x0A), (0x01, 0));
    assert_eq!(adc.sample, 2048);
    let mut ticks = 0;
    while adc.read(0x05).0 & 1 == 0 {
        adc.tick(&ports, 0);
        ticks += 1;
        assert!(ticks < 1000);
    }
    assert_eq!(ticks, 1 + 2 * 9);
    assert_eq!(adc.read(0x06), (0, 0));
    assert!(adc.interrupt(0x01));
    assert_eq!(adc.read(0x10), (128, 0));
    assert_eq!(adc.read(0x11), (0, 0));
    assert_eq!(adc.read(0x0A), (0x00, 0));
    adc.write(&ports, 0x05, 0x01);
    assert!(!adc.interrupt(0x01));
}

#[test]
fn converter_delivers_twelve_bits() {
    let mut ports = [port(), port(), port()];
    ports[2].pio[3].sensed = NetState::Analog(825_000);
    let mut adc = Adc::new(String::from("ADC0"), ain());
    adc.write(&ports, 0x00, 0x01);
    adc.write(&ports, 0x01, 0x00);
    adc.write(&ports, 0x08, 0x02);
    adc.write(&ports, 0x0C, 15);
    adc.write(&ports, 0x0A, 0x10);
    adc.write(&ports, 0x0A, 0x11);
    assert_eq!(adc.sample, 1024);
    assert_eq!(adc.delay, 2 + 13);
    for _ in 0..100 {
        adc.tick(&ports, 0);
    }
    assert_eq!(adc.read(0x10), (0x00, 0));
    assert_eq!(adc.read(0x11), (0x04, 0));
    adc.write(&ports, 0x09, 0x10);
    adc.write(&ports, 0x0A, 0x11);
    for _ in 0..100 {
        adc.tick(&ports, 0);
    }
    assert_eq!(adc.read(0x10), (0x00, 0));
    assert_eq!(adc.read(0x11), (0x40, 0));
    assert_eq!(adc.read(0x12), (0, 0));
    assert_eq!(adc.read(0x13), (0, 0));
}

#[test]
fn converter_input_selection() {
    let mut ports = [port(), port(), port()];
    ports[0].pio[1].sensed = NetState::High;
    ports[1].pio[0].sensed = NetState::Low;
    let mut adc = Adc::new(String::from("ADC0"), ain());
    adc.write(&ports, 0x00, 0x01);
    adc.write(&ports, 0x0C, 0x01);
    adc.write(&ports, 0x0A, 0x01);
    assert_eq!(adc.sample, 0x0FFF);
    adc.write(&ports, 0x0A, 0x00);
    adc.write(&ports, 0x0C, 11);
    adc.write(&ports, 0x0A, 0x01);
    assert_eq!(adc.sample, 0);
    adc.write(&ports, 0x0A, 0x00);
    adc.write(&ports, 0x0C, 0x30);
    assert_eq!(adc.muxpos, 0);
    adc.write(&ports, 0x0C, 16);
    adc.write(&ports, 0x0A, 0x01);
    assert_eq!(adc.sample, 0);
    adc.write(&ports, 0x0C, 0xC1);
    assert_eq!(adc.read(0x0D), (0xC0, 0));
    adc.write(&ports, 0x0D, 0x45);
    assert_eq!(adc.read(0x0C), (0x41, 0));
    adc.write(&ports, 0x0A, 0x02);
    assert_eq!(adc.read(0x0A), (0x00, 0));
}

#[test]
fn converter_runs_freely() {
    let mut ports = [port(), port(), port()];
    ports[0].pio[1].sensed = NetState::High;
    let mut adc = Adc::new(String::from("ADC0"), ain());
    adc.write(&ports, 0x00, 0x01);
    adc.write(&ports, 0x02, 0x04);
    adc.write(&ports, 0x09, 0x20);
    adc.write(&ports, 0x0C, 0x01);
    adc.write(&ports, 0x0A, 0x01);
    for _ in 0..60 {
        adc.tick(&ports, 0);
    }
    assert_eq!(adc.read(0x05), (1, 0));
    assert_eq!(adc.read(0x06), (1, 0));
    assert_eq!(adc.read(0x10), (0xFF, 0));
    assert_eq!(adc.read(0x0A).0 & 0x07, 0x01);
}
