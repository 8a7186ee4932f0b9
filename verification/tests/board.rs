use qutyemu::boards::quty::{QUTy, Trace};
use qutyemu::cores::Step;
use qutyemu::events::Event;
use qutyemu::hardware::led::LedState;
use qutyemu::hardware::pushbutton::{Pushbutton, PushbuttonState};
use qutyemu::hardware::{Hardware, Reading, Report};
use qutyemu::instruction::{encode, Instruction};
use qutyemu::memory::MemoryMapped;
use qutyemu::nets::{resolve, Net, NetState, NetTrace, NetTransition, PinRef, PinState};
use qutyemu::peripherals::port::Port;

fn quiet() -> NetTrace {
    NetTrace { all: false, undef: false }
}

fn load(board: &mut QUTy, program: &[Instruction]) {
    let mut address = 0usize;
    for instruction in program {
        let (first, second) = encode(*instruction);
        board.mcu.mm.flash.write(address, first as u8);
        board.mcu.mm.flash.write(address + 1, (first >> 8) as u8);
        address += 2;
        if instruction.two_words() {
            board.mcu.mm.flash.write(address, second as u8);
            board.mcu.mm.flash.write(address + 1, (second >> 8) as u8);
            address += 2;
        }
    }
}

fn event(time: u64, device: &str, payload: &str) -> Event {
    Event { time, device: String::from(device), event: String::from(payload) }
}

#[test]
fn board_is_wired_at_time_zero() {
    let mut board = QUTy::new(quiet());
    assert_eq!(board.time, 0);
    assert_eq!(board.nets.len(), 25);
    assert_eq!(board.hw.len(), 11);
    assert!(board.events.is_empty());
    let names: Vec<&str> = board.nets.iter().map(|net| net.name.as_str()).collect();
    assert_eq!(names[0], "PA1_DISP_LATCH");
    assert_eq!(names[12], "PB5_DISP_DP");
    assert_eq!(names[24], "U2_Q7");
    let keys: Vec<&str> = board.hw.iter().map(|slot| slot.key.as_str()).collect();
    assert_eq!(
        keys,
        vec!["DS1-DP", "S1", "S2", "S3", "S4", "P1", "U2", "DS1", "R9", "R1", "U5"]
    );
    assert_eq!(board.nets[12].io, vec![PinRef { device: 1, pin: 5 }, PinRef { device: 3, pin: 0 }]);
    assert_eq!(board.nets[1].io, vec![PinRef { device: 0, pin: 2 }, PinRef { device: 12, pin: 0 }]);
    assert_eq!(board.nets[24].io.len(), 2);
    assert_eq!(board.nets[17].io.len(), 2);
    assert_eq!(board.nets[12].state, NetState::High);
    assert_eq!(board.nets[1].state, NetState::Analog(1_650_000));
    assert_eq!(board.nets[10].state, NetState::High);
    assert_eq!(board.nets[8].state, NetState::High);
    assert_eq!(board.nets[3].state, NetState::Undefined);
    assert_eq!(board.nets[24].state, NetState::Low);
    assert_eq!(board.nets[17].state, NetState::High);
    assert_eq!(board.mcu.mm.ports[1].pio[5].net, Some(12));
    assert_eq!(board.mcu.mm.ports[0].pio[0].net, None);
    assert_eq!(board.mcu.mm.ports[2].pio[3].net, Some(16));
    assert_eq!(board.mcu.mm.ports[1].get_netstate(3), NetState::High);
    assert!(board.mcu.mm.ports[1].get_pinstate(3));
    assert_eq!(board.mcu.mm.ports[0].get_netstate(2), NetState::Analog(1_650_000));
    assert_eq!(board.pin_state(PinRef { device: 3, pin: 0 }), PinState::WeakPullUp);
    assert_eq!(board.pin_state(PinRef { device: 13, pin: 0 }), PinState::DriveH);
    assert_eq!(board.pin_state(PinRef { device: 14, pin: 0 }), PinState::Open);
    assert_eq!(board.pin_state(PinRef { device: 0, pin: 8 }), PinState::Open);
    let log = board.take_log();
    assert!(log.contains(&Trace::Hardware {
        index: 0,
        report: Report { time: 0, what: Reading::Led(LedState::Off) },
    }));
    assert!(board.take_log().is_empty());
}

#[test]
fn step_advances_time_by_the_clock_period() {
    let mut board = QUTy::new(quiet());
    load(&mut board, &[Instruction::NOP, Instruction::NOP, Instruction::BREAK]);
    assert_eq!(board.step(), 300);
    assert_eq!(board.time, 300);
    assert_eq!(board.step(), 300);
    assert_eq!(board.time, 600);
    assert_eq!(board.step(), 0);
    assert_eq!(board.time, 600);
    assert_eq!(board.mcu.core.pc, 3);
}

#[test]
fn blinking_pin_gives_ten_led_transitions_in_ten_milliseconds() {
    let mut board = QUTy::new(quiet());
    load(
        &mut board,
        &[
            Instruction::LDI { d: 16, K: 0x20 },
            // PORTB.OUTSET, PORTB.DIRSET
            Instruction::STS { k: 0x0425, r: 16 },
            Instruction::STS { k: 0x0421, r: 16 },
            Instruction::LDI { d: 24, K: 0x40 },
            Instruction::LDI { d: 25, K: 0x03 },
            Instruction::SBIW { d: 24, K: 1 },
            Instruction::BRBC { s: 1, k: -2 },
            // PORTB.OUTTGL
            Instruction::STS { k: 0x0427, r: 16 },
            Instruction::RJMP { k: -7 },
        ],
    );
    board.take_log();
    while board.time < 10_200_000 {
        assert_eq!(board.step(), 300);
    }
    let transitions: Vec<Report> = board
        .take_log()
        .into_iter()
        .filter_map(|trace| match trace {
            Trace::Hardware { index: 0, report } => Some(report),
            _ => None,
        })
        .collect();
    assert_eq!(transitions.len(), 10);
    for (i, report) in transitions.iter().enumerate() {
        let expected = if i % 2 == 0 { LedState::On } else { LedState::Off };
        assert_eq!(report.what, Reading::Led(expected));
        if i > 0 {
            assert!(transitions[i - 1].time < report.time);
            assert_eq!(report.time - transitions[i - 1].time, 3334 * 300);
        }
    }
}

#[test]
fn byte_from_the_uart_sink_reaches_the_usart() {
    let mut board = QUTy::new(quiet());
    board.mcu.mm.write(0x0808, 0x6D);
    board.mcu.mm.write(0x0809, 0x05);
    board.mcu.mm.write(0x0806, 0x80);
    board.events(vec![event(0x0A, "U5", "41")]);
    board.take_log();
    let mut steps = 0;
    while board.mcu.mm.read(0x0804).0 & 0x80 == 0 {
        assert_eq!(board.step(), 300);
        steps += 1;
        assert!(steps < 4000);
    }
    assert!(board.time > 9 * 104_167);
    assert!(board.time < 11 * 104_167);
    assert_eq!(board.mcu.mm.read(0x0800), (0x41, 0));
    assert_eq!(board.mcu.mm.read(0x0804).0 & 0x80, 0);
    assert!(board.events.is_empty());
    let log = board.take_log();
    assert_eq!(
        log[0],
        Trace::Hardware { index: 10, report: Report { time: 300, what: Reading::UartTx(0x41) } }
    );
}

#[test]
fn byte_from_the_usart_reaches_the_uart_sink() {
    let mut board = QUTy::new(quiet());
    board.mcu.mm.write(0x0420, 0x04);
    board.mcu.mm.write(0x0808, 0x6D);
    board.mcu.mm.write(0x0809, 0x05);
    board.step();
    board.mcu.mm.write(0x0806, 0x40);
    for _ in 0..10 {
        board.step();
    }
    board.mcu.mm.write(0x0802, 0x5A);
    board.take_log();
    for _ in 0..4000 {
        board.step();
    }
    let received: Vec<Trace> = board
        .take_log()
        .into_iter()
        .filter(|trace| matches!(trace, Trace::Hardware { index: 10, .. }))
        .collect();
    assert_eq!(received.len(), 1);
    assert!(matches!(
        received[0],
        Trace::Hardware { index: 10, report: Report { what: Reading::UartRx(0x5A), .. } }
    ));
}

#[test]
fn pressed_button_pulls_its_port_input_low() {
    let mut board = QUTy::new(quiet());
    board.mcu.mm.write(0x0414, 0x08);
    board.events(vec![event(0x400, "S1", "PRESS"), event(0x2000, "S1", "RELEASE")]);
    board.take_log();
    for _ in 0..4 {
        board.step();
    }
    assert_eq!(board.time, 1200);
    assert_eq!(board.mcu.mm.read(0x0408).0 & 0x10, 0x10);
    assert_eq!(board.nets[3].state, NetState::High);
    board.step();
    assert_eq!(board.nets[3].state, NetState::Low);
    assert_eq!(board.mcu.mm.read(0x0408).0 & 0x10, 0x00);
    assert_eq!(board.mcu.mm.read(0x0002).0 & 0x10, 0x00);
    assert_eq!(
        board.take_log(),
        vec![Trace::Hardware {
            index: 1,
            report: Report { time: 1200, what: Reading::Pushbutton(PushbuttonState::Pressed) },
        }]
    );
    while board.time < 0x2000 + 600 {
        board.step();
    }
    assert_eq!(board.nets[3].state, NetState::High);
    assert_eq!(board.mcu.mm.read(0x0408).0 & 0x10, 0x10);
}

#[test]
fn pressed_active_high_button_reads_as_one() {
    let mut port = Port::new(String::from("PORTA"));
    port.connect(4, 0);
    let mut button = Pushbutton::new(String::from("S1"), true);
    let mut nets = vec![Net::new(String::from("PA4_BUTTON0"))];
    let trace = NetTrace { all: true, undef: true };
    nets[0].update(0, &vec![port.pin(4), button.pin(0)], trace);
    port.update(0, &nets);
    assert!(!port.get_pinstate(4));
    button.event(0x400, "PRESS");
    let transition = nets[0].update(0x400, &vec![port.pin(4), button.pin(0)], trace);
    assert_eq!(
        transition,
        Some(NetTransition { time: 0x400, from: NetState::Undefined, to: NetState::High })
    );
    port.update(0x400, &nets);
    assert!(port.get_pinstate(4));
    assert_eq!(port.read(0x08), (0x10, 0));
    assert_eq!(resolve(&vec![port.pin(4), button.pin(0)]), NetState::High);
}

#[test]
fn shifted_byte_appears_on_the_outputs_after_the_latch_pulse() {
    let mut board = QUTy::new(quiet());
    board.mcu.mm.write(0x0440, 0x05);
    board.mcu.mm.write(0x0400, 0x02);
    board.mcu.mm.write(0x08C1, 0x04);
    board.mcu.mm.write(0x08C0, 0x21);
    for _ in 0..6 {
        board.step();
    }
    board.mcu.mm.write(0x08C4, 0xB2);
    for _ in 0..80 {
        board.step();
    }
    assert_eq!(board.mcu.mm.read(0x08C3).0 & 0x80, 0x80);
    for q in 0..8 {
        assert_eq!(board.nets[17 + q].state, if q < 7 { NetState::Low } else { NetState::Low });
    }
    board.mcu.mm.write(0x0404, 0x02);
    board.step();
    board.step();
    let expected = [false, true, false, false, true, true, false, true];
    for q in 0..8 {
        assert_eq!(
            board.nets[17 + q].state,
            if expected[q] { NetState::High } else { NetState::Low }
        );
    }
}

#[test]
fn events_for_unknown_hardware_are_dropped() {
    let mut board = QUTy::new(quiet());
    board.events(vec![event(0, "XX", "PRESS"), event(0, "S2", "PRESS"), event(900, "S3", "PRESS")]);
    board.take_log();
    board.step();
    assert_eq!(board.events.len(), 1);
    assert_eq!(board.pin_state(PinRef { device: 5, pin: 0 }), PinState::DriveL);
    assert_eq!(board.pin_state(PinRef { device: 6, pin: 0 }), PinState::Open);
    board.step();
    board.step();
    assert_eq!(board.events.len(), 1);
    board.step();
    assert!(board.events.is_empty());
    assert_eq!(board.pin_state(PinRef { device: 6, pin: 0 }), PinState::DriveL);
}

#[test]
fn pending_flush_is_delivered_when_the_core_stops() {
    let mut board = QUTy::new(quiet());
    load(&mut board, &[Instruction::BREAK]);
    board.events(vec![event(1_000_000, "U5", "flush")]);
    board.take_log();
    assert_eq!(board.step(), 0);
    assert_eq!(
        board.take_log(),
        vec![Trace::Hardware { index: 10, report: Report { time: 0, what: Reading::UartFlush } }]
    );
    assert_eq!(board.events.len(), 1);
    let mut board = QUTy::new(quiet());
    load(&mut board, &[Instruction::BREAK]);
    board.events(vec![event(1_000_000, "U5", "41")]);
    board.take_log();
    assert_eq!(board.step(), 0);
    assert!(board.take_log().is_empty());
}

#[test]
fn net_transitions_are_traced_when_asked_for() {
    let mut board = QUTy::new(NetTrace { all: true, undef: false });
    board.mcu.mm.write(0x0420, 0x20);
    board.take_log();
    board.step();
    let log = board.take_log();
    assert!(log.contains(&Trace::Net {
        index: 12,
        transition: NetTransition { time: 0, from: NetState::High, to: NetState::Low },
    }) == false);
    board.mcu.mm.write(0x0424, 0x20);
    board.step();
    board.mcu.mm.write(0x0424, 0x00);
    board.step();
    let log = board.take_log();
    assert!(log.contains(&Trace::Net {
        index: 12,
        transition: NetTransition { time: 600, from: NetState::High, to: NetState::Low },
    }));
}

#[test]
fn firmware_output_is_collected() {
    let mut board = QUTy::new(quiet());
    load(
        &mut board,
        &[
            Instruction::LDI { d: 16, K: b'o' },
            Instruction::STS { k: 0x1500, r: 16 },
            Instruction::LDI { d: 16, K: b'k' },
            Instruction::STS { k: 0x1500, r: 16 },
            Instruction::PUSH { d: 16 },
            Instruction::BREAK,
        ],
    );
    board.core_debug();
    assert!(board.mcu.core.debug);
    while board.step() != 0 {}
    assert_eq!(board.mcu_write_stdout(), &vec![b'o', b'k']);
    let regs = board.core_dumpregs();
    assert_eq!(regs.len(), 32);
    assert_eq!(regs[16], b'k');
    assert_eq!(board.mcu_dumpstack(), vec![b'k']);
    assert_eq!(board.mcu.core.sp, 0x3FFE);
}

#[test]
fn firmware_is_loaded_from_hex_text() {
    let mut board = QUTy::new(quiet());
    assert!(board.mcu_programme(":020000009895D1\n:00000001FF\n").is_ok());
    assert_eq!(board.step(), 0);
    assert!(board.mcu_programme("garbage").is_err());
}

#[test]
fn potentiometer_position_reaches_the_converter_in_full() {
    let mut board = QUTy::new(quiet());
    load(&mut board, &[Instruction::RJMP { k: -1 }]);
    board.events(vec![event(1, "R1", "0.5004")]);
    board.take_log();
    while board.time < 1_000 {
        assert_eq!(board.step(), 300);
    }
    assert_eq!(board.nets[1].state, NetState::Analog(1_651_320));
    assert_eq!(board.mcu.mm.ports[0].get_netstate(2), NetState::Analog(1_651_320));
    assert_eq!(
        qutyemu::peripherals::adc::conversion(board.mcu.mm.ports[0].get_netstate(2), 3_300_000),
        2050
    );
    let log = board.take_log();
    assert!(log.contains(&Trace::Hardware {
        index: 9,
        report: Report { time: 300, what: Reading::Pot { millionths: 500_400 } },
    }));
}

#[test]
fn step_of_zero_tells_that_the_core_has_stopped() {
    let mut board = QUTy::new(quiet());
    load(&mut board, &[Instruction::NOP, Instruction::BREAK]);
    assert_eq!(board.step(), 300);
    assert_eq!(board.mcu.core.last, Step::Fetch { at: 0, opcode: 0x0000, instruction: Instruction::NOP });
    assert_eq!(board.step(), 0);
    assert_eq!(
        board.mcu.core.last,
        Step::Fetch { at: 1, opcode: 0x9598, instruction: Instruction::BREAK }
    );
    assert_eq!(board.time, 300);
}
