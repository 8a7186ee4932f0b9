use qutyemu::hardware::display::{
    cycle_of, elapsed, rounded_quotient, seg_to_char, Cycle, Display, DisplayReading, Glyph,
};
use qutyemu::hardware::ic74hc595::{clock_level, ClockState, IC74HC595};
use qutyemu::hardware::led::{lit, Led, LedState};
use qutyemu::hardware::pot::{wiper_microvolts, Pot};
use qutyemu::hardware::pushbutton::{Pushbutton, PushbuttonState};
use qutyemu::hardware::sinkpwm::{wave_of, PwmReading, SinkPwm};
use qutyemu::hardware::sinkuart::{SinkUART, UartState};
use qutyemu::hardware::{sense, Hardware, Model, Reading, Report, Wire};
use qutyemu::nets::{Net, NetState, PinState};

fn nets(states: &[NetState]) -> Vec<Net> {
    states
        .iter()
        .map(|state| {
            let mut net = Net::new(String::from("N"));
            net.state = *state;
            net
        })
        .collect()
}

#[test]
fn wires_sense_their_nets() {
    let list = nets(&[NetState::High, NetState::Analog(5)]);
    assert_eq!(sense(Wire::Open, &list), NetState::Undefined);
    assert_eq!(sense(Wire::Net(0), &list), NetState::High);
    assert_eq!(sense(Wire::Net(1), &list), NetState::Analog(5));
    assert_eq!(sense(Wire::Net(2), &list), NetState::Undefined);
    assert_eq!(sense(Wire::Tied(NetState::Low), &list), NetState::Low);
}

#[test]
fn led_lights_at_its_active_level() {
    assert_eq!(lit(NetState::High, true), LedState::On);
    assert_eq!(lit(NetState::Low, true), LedState::Off);
    assert_eq!(lit(NetState::High, false), LedState::Off);
    assert_eq!(lit(NetState::Low, false), LedState::On);
    assert_eq!(lit(NetState::Undefined, true), LedState::Undefined);
    assert_eq!(lit(NetState::Analog(3_300_000), false), LedState::Undefined);
    let mut led = Led::new(String::from("DS1-DP"), false, Wire::Net(0));
    assert_eq!(led.pin(0), PinState::WeakPullUp);
    assert_eq!(led.pin(1), PinState::Open);
    assert_eq!(Led::new(String::from("L"), true, Wire::Open).pin(0), PinState::WeakPullDown);
    assert_eq!(led.update(0, &nets(&[NetState::Undefined])), None);
    assert_eq!(
        led.update(0, &nets(&[NetState::High])),
        Some(Report { time: 0, what: Reading::Led(LedState::Off) })
    );
    assert_eq!(led.update(5, &nets(&[NetState::High])), None);
    assert_eq!(
        led.update(7, &nets(&[NetState::Low])),
        Some(Report { time: 7, what: Reading::Led(LedState::On) })
    );
    assert_eq!(led.state, LedState::On);
    assert_eq!(led.event(8, "PRESS"), None);
    assert_eq!(led.state, LedState::On);
}

#[test]
fn pushbutton_drives_towards_its_rail() {
    let mut low = Pushbutton::new(String::from("S1"), false);
    assert_eq!(low.pin(0), PinState::Open);
    assert_eq!(
        low.event(0x400, "PRESS"),
        Some(Report { time: 0x400, what: Reading::Pushbutton(PushbuttonState::Pressed) })
    );
    assert_eq!(low.pin(0), PinState::DriveL);
    assert_eq!(low.event(0x401, "PRESS"), None);
    assert_eq!(low.event(0x402, "press"), None);
    assert_eq!(low.event(0x402, "PRESSED"), None);
    assert_eq!(low.pin(0), PinState::DriveL);
    assert_eq!(
        low.event(0x500, "RELEASE"),
        Some(Report { time: 0x500, what: Reading::Pushbutton(PushbuttonState::Released) })
    );
    assert_eq!(low.pin(0), PinState::Open);
    assert_eq!(low.release(0x600), None);
    let mut high = Pushbutton::new(String::from("S2"), true);
    assert_eq!(high.press(0), None);
    assert_eq!(high.state, PushbuttonState::Pressed);
    assert_eq!(high.pin(0), PinState::DriveH);
    assert_eq!(high.pin(3), PinState::Open);
    assert_eq!(high.update(9, &Vec::new()), None);
    assert_eq!(high.release(0), None);
    assert_eq!(high.state, PushbuttonState::Released);
}

#[test]
fn potentiometer_divides_the_supply() {
    assert_eq!(wiper_microvolts(0), 0);
    assert_eq!(wiper_microvolts(500_000), 1_650_000);
    assert_eq!(wiper_microvolts(1_000_000), 3_300_000);
    assert_eq!(wiper_microvolts(2_000_000), 3_300_000);
    assert_eq!(wiper_microvolts(u32::MAX), 3_300_000);
    assert_eq!(wiper_microvolts(1), 3);
    assert_eq!(wiper_microvolts(5), 17);
    assert_eq!(wiper_microvolts(333_333), 1_099_999);
    assert_eq!(wiper_microvolts(500_400), 1_651_320);
    let mut pot = Pot::new(String::from("R1"), 500_000);
    assert_eq!(pot.pin(0), PinState::DriveAnalog(1_650_000));
    assert_eq!(pot.pin(1), PinState::Open);
    assert_eq!(
        pot.event(9, "0.25"),
        Some(Report { time: 9, what: Reading::Pot { millionths: 250_000 } })
    );
    assert_eq!(pot.pin(0), PinState::DriveAnalog(825_000));
    assert_eq!(
        pot.event(0, "1.5"),
        Some(Report { time: 0, what: Reading::Pot { millionths: 1_000_000 } })
    );
    assert_eq!(pot.pin(0), PinState::DriveAnalog(3_300_000));
    assert_eq!(
        pot.event(1, "-0.5"),
        Some(Report { time: 1, what: Reading::Pot { millionths: 0 } })
    );
    assert_eq!(pot.pin(0), PinState::DriveAnalog(0));
    assert_eq!(pot.event(2, "half"), None);
    assert_eq!(pot.event(2, ""), None);
    assert_eq!(pot.pin(0), PinState::DriveAnalog(0));
    assert_eq!(pot.update(3, &Vec::new()), None);
    assert_eq!(
        pot.set(4, 1_000_001),
        Some(Report { time: 4, what: Reading::Pot { millionths: 1_000_000 } })
    );
    assert_eq!(
        pot.event(5, "0.5004"),
        Some(Report { time: 5, what: Reading::Pot { millionths: 500_400 } })
    );
    assert_eq!(pot.pin(0), PinState::DriveAnalog(1_651_320));
}

fn shift_register() -> IC74HC595 {
    let mut sr = IC74HC595::new(String::from("U2"));
    sr.connect("shcp", Wire::Net(0));
    sr.connect("stcp", Wire::Net(1));
    sr.connect("ds", Wire::Net(2));
    sr.connect("oe_n", Wire::Tied(NetState::Low));
    sr.connect("mr_n", Wire::Tied(NetState::High));
    sr.connect("q7s", Wire::Net(3));
    for n in 0..8 {
        sr.connect_q(n, Wire::Net(10 + n));
    }
    sr
}

fn clock_in(sr: &mut IC74HC595, bits: &[bool]) {
    for bit in bits {
        let ds = if *bit { NetState::High } else { NetState::Low };
        sr.update(0, &nets(&[NetState::Low, NetState::Low, ds]));
        sr.update(0, &nets(&[NetState::High, NetState::Low, ds]));
    }
    sr.update(0, &nets(&[NetState::Low, NetState::Low, NetState::Low]));
}

#[test]
fn shift_register_latches_what_was_clocked_in() {
    let mut sr = shift_register();
    assert_eq!(sr.net_shcp, Wire::Net(0));
    assert_eq!(sr.nets_out[7], Wire::Net(17));
    clock_in(&mut sr, &[true, false, true, true, false, false, true, false]);
    assert_eq!(sr.reg_shift, 0b1011_0010);
    assert_eq!(sr.reg_latch, 0);
    for q in 0..8 {
        assert_eq!(sr.pin(q), PinState::DriveL);
    }
    sr.update(0, &nets(&[NetState::Low, NetState::High, NetState::Low]));
    assert_eq!(sr.reg_latch, 0b1011_0010);
    let expected = [false, true, false, false, true, true, false, true];
    for q in 0..8 {
        assert_eq!(
            sr.pin(q),
            if expected[q] { PinState::DriveH } else { PinState::DriveL }
        );
    }
    assert_eq!(sr.pin(9), PinState::Open);
}

#[test]
fn shift_register_serial_output_and_edges() {
    let mut sr = shift_register();
    assert_eq!(sr.pin(8), PinState::Open);
    clock_in(&mut sr, &[true, false, false, false, false, false, false]);
    assert_eq!(sr.reg_shift, 0b0100_0000);
    assert_eq!(sr.pin(8), PinState::DriveL);
    clock_in(&mut sr, &[false]);
    assert_eq!(sr.reg_shift, 0b1000_0000);
    assert_eq!(sr.pin(8), PinState::DriveH);
    sr.update(0, &nets(&[NetState::High, NetState::Low, NetState::High]));
    assert_eq!(sr.reg_shift, 0b0000_0001);
    sr.update(0, &nets(&[NetState::High, NetState::Low, NetState::High]));
    assert_eq!(sr.reg_shift, 0b0000_0001);
    sr.update(0, &nets(&[NetState::Undefined, NetState::Low, NetState::High]));
    sr.update(0, &nets(&[NetState::High, NetState::Low, NetState::High]));
    assert_eq!(sr.reg_shift, 0b0000_0001);
    assert_eq!(sr.state_shcp, ClockState::High);
    assert_eq!(clock_level(NetState::Analog(1)), ClockState::Undefined);
}

#[test]
fn simultaneous_clocks_latch_the_value_before_the_shift() {
    let mut sr = shift_register();
    clock_in(&mut sr, &[true, true]);
    assert_eq!(sr.reg_shift, 0b11);
    sr.update(0, &nets(&[NetState::High, NetState::High, NetState::Low]));
    assert_eq!(sr.reg_latch, 0b11);
    assert_eq!(sr.reg_shift, 0b110);
}

#[test]
fn master_reset_and_output_enable() {
    let mut sr = shift_register();
    clock_in(&mut sr, &[true, true, true]);
    sr.update(0, &nets(&[NetState::Low, NetState::High, NetState::Low]));
    sr.update(0, &nets(&[NetState::Low, NetState::Low, NetState::Low]));
    assert_eq!(sr.reg_latch, 0b111);
    sr.connect("mr_n", Wire::Tied(NetState::Low));
    sr.update(0, &nets(&[NetState::Low, NetState::Low, NetState::Low]));
    assert_eq!(sr.reg_shift, 0);
    assert_eq!(sr.reg_latch, 0b111);
    assert_eq!(sr.pin(8), PinState::DriveL);
    sr.update(0, &nets(&[NetState::Low, NetState::High, NetState::Low]));
    assert_eq!(sr.reg_latch, 0);
    sr.connect("oe_n", Wire::Tied(NetState::High));
    sr.update(0, &nets(&[NetState::Low, NetState::High, NetState::Low]));
    for q in 0..8 {
        assert_eq!(sr.pin(q), PinState::Open);
    }
    assert_eq!(sr.event(0, "anything"), None);
}

#[test]
fn glyph_table() {
    let table: [(u8, Glyph); 19] = [
        (0b0111_1111, Glyph::Blank),
        (0b0000_1000, Glyph::Hex(0)),
        (0b0110_1011, Glyph::Hex(1)),
        (0b0011_1110, Glyph::LeftOne),
        (0b0100_0100, Glyph::Hex(2)),
        (0b0100_0001, Glyph::Hex(3)),
        (0b0010_0011, Glyph::Hex(4)),
        (0b0001_0001, Glyph::Hex(5)),
        (0b0001_0000, Glyph::Hex(6)),
        (0b0100_1011, Glyph::Hex(7)),
        (0b0000_0000, Glyph::Hex(8)),
        (0b0000_0001, Glyph::Hex(9)),
        (0b0000_0010, Glyph::Hex(10)),
        (0b0011_0000, Glyph::Hex(11)),
        (0b0001_1100, Glyph::Hex(12)),
        (0b0110_0000, Glyph::Hex(13)),
        (0b0001_0100, Glyph::Hex(14)),
        (0b0001_0110, Glyph::Hex(15)),
        (0b0111_0111, Glyph::Minus),
    ];
    for (code, glyph) in table {
        assert_eq!(seg_to_char(code), glyph);
        assert_eq!(seg_to_char(code | 0x80), glyph);
    }
    assert_eq!(seg_to_char(0b0101_0101), Glyph::Unknown);
}

#[test]
fn rounding_of_quotients() {
    assert_eq!(rounded_quotient(10, 4), 3);
    assert_eq!(rounded_quotient(9, 4), 2);
    assert_eq!(rounded_quotient(0, 4), 0);
    assert_eq!(rounded_quotient(5, 0), 0);
    assert_eq!(rounded_quotient(u128::MAX, 1), u64::MAX);
    assert_eq!(rounded_quotient(u128::MAX, 3), u64::MAX);
    assert_eq!(rounded_quotient(1_000_000_000, 5_000_000), 200);
    assert_eq!(elapsed(10, 4), 6);
    assert_eq!(elapsed(4, 10), 0);
    assert_eq!(cycle_of(5_000_000, 2_500_000), Cycle { hertz: 200, percent: 50 });
    assert_eq!(cycle_of(3, 1), Cycle { hertz: 333_333_333, percent: 33 });
}

fn display() -> Display {
    let mut disp = Display::new(String::from("DS1"));
    for n in 0..7 {
        disp.connect_seg(n, Wire::Net(n));
    }
    disp.connect("en", Wire::Net(7));
    disp.connect("digit", Wire::Net(8));
    disp.connect("dp", Wire::Net(9));
    disp
}

fn display_nets(code: u8, lhs: bool, enabled: bool) -> Vec<Net> {
    let mut states = Vec::new();
    for n in 0..7 {
        states.push(if code & (1 << n) == 0 { NetState::Low } else { NetState::High });
    }
    states.push(if enabled { NetState::High } else { NetState::Low });
    states.push(if lhs { NetState::High } else { NetState::Low });
    nets(&states)
}

#[test]
fn display_pins_load_their_nets() {
    let disp = display();
    for n in 0..7 {
        assert_eq!(disp.pin(n), PinState::WeakPullUp);
    }
    assert_eq!(disp.pin(7), PinState::WeakPullUp);
    assert_eq!(disp.pin(8), PinState::WeakPullDown);
    assert_eq!(disp.pin(9), PinState::Open);
    assert_eq!(disp.net_en, Wire::Net(7));
    assert_eq!(disp.net_digit, Wire::Net(8));
}

#[test]
fn display_reports_a_steady_digit() {
    let mut disp = display();
    assert_eq!(disp.update(0, &display_nets(0b0000_1000, false, true)), None);
    assert_eq!(disp.state[0], (0b0000_1000, 0));
    // the history fills in silence
    assert_eq!(disp.update(100, &display_nets(0b0110_1011, true, true)), None);
    assert_eq!(disp.update(200, &display_nets(0b0110_1011, true, true)), None);
    assert_eq!(disp.state[0], (0b1110_1011, 100));
    assert_eq!(disp.state[1], (0b0000_1000, 0));
    assert_eq!(disp.update(300, &display_nets(0b0100_0100, true, true)), None);
    // with three states after time zero, a state that closes no cycle is a
    // steady digit
    assert_eq!(
        disp.update(400, &display_nets(0b0100_0001, true, true)),
        Some(Report {
            time: 400,
            what: Reading::Display(DisplayReading::Steady { code: 0b0100_0001, lhs: true }),
        })
    );
    assert_eq!(disp.update(500, &display_nets(0b0100_0001, true, true)), None);
    assert_eq!(
        disp.update(600, &display_nets(0b0001_0001, false, true)),
        Some(Report {
            time: 600,
            what: Reading::Display(DisplayReading::Steady { code: 0b0001_0001, lhs: false }),
        })
    );
    assert_eq!(disp.event(700, "x"), None);
}

#[test]
fn display_is_blank_unless_enabled() {
    let mut disp = display();
    assert_eq!(disp.update(10, &display_nets(0b0000_1000, false, false)), None);
    assert_eq!(disp.state[0], (0x7F, 10));
    assert!(!disp.enabled);
    assert_eq!(disp.update(20, &display_nets(0b0100_0100, true, false)), None);
    assert_eq!(disp.state[0], (0xFF, 20));
}

#[test]
fn display_recognises_two_alternating_digits() {
    let mut disp = display();
    let left = 0b0100_0100;
    let right = 0b0100_0001;
    let mut reports = Vec::new();
    let half_period = 2_500_000u64;
    for step in 1..=8u64 {
        let lhs = step % 2 == 1;
        let code = if lhs { left } else { right };
        if let Some(report) = disp.update(step * half_period, &display_nets(code, lhs, true)) {
            reports.push(report);
        }
    }
    let two_digit = Reading::Display(DisplayReading::TwoDigit {
        lhs: Glyph::Hex(2),
        rhs: Glyph::Hex(3),
        cycle: Cycle { hertz: 200, percent: 50 },
    });
    // nothing while the history fills, one line when the alternation is
    // recognised, and nothing while it goes on unchanged
    assert_eq!(reports, vec![Report { time: 3 * half_period, what: two_digit }]);
}

#[test]
fn display_at_rest_before_an_alternation_gives_no_single_digit_line() {
    let mut disp = display();
    let blank = 0x7F;
    let left = 0b0100_0100;
    let right = 0b0100_0001;
    assert_eq!(disp.update(0, &display_nets(blank, false, true)), None);
    let mut reports = Vec::new();
    for step in 1..=9u64 {
        let lhs = step % 2 == 1;
        let code = if lhs { left } else { right };
        if let Some(report) = disp.update(step * 2_500_000, &display_nets(code, lhs, true)) {
            reports.push(report);
        }
    }
    assert_eq!(
        reports,
        vec![Report {
            time: 7_500_000,
            what: Reading::Display(DisplayReading::TwoDigit {
                lhs: Glyph::Hex(2),
                rhs: Glyph::Hex(3),
                cycle: Cycle { hertz: 200, percent: 50 },
            }),
        }]
    );
}

#[test]
fn display_measures_the_share_of_the_left_digit() {
    let mut disp = display();
    let left = 0b0000_1000;
    let right = 0b0110_1011;
    let mut last = None;
    let mut time = 0;
    for _ in 0..6 {
        time += 1_000_000;
        if let Some(report) = disp.update(time, &display_nets(left, true, true)) {
            last = Some(report);
        }
        time += 3_000_000;
        if let Some(report) = disp.update(time, &display_nets(right, false, true)) {
            last = Some(report);
        }
    }
    assert_eq!(
        last.unwrap().what,
        Reading::Display(DisplayReading::TwoDigit {
            lhs: Glyph::Hex(0),
            rhs: Glyph::Hex(1),
            cycle: Cycle { hertz: 250, percent: 75 },
        })
    );
}

#[test]
fn display_recognises_one_blinking_digit() {
    let mut disp = display();
    let mut reports = Vec::new();
    for step in 1..=6u64 {
        let code = if step % 2 == 1 { 0b0001_0001 } else { 0x7F };
        if let Some(report) = disp.update(step * 1_000_000, &display_nets(code, true, true)) {
            reports.push(report.what);
        }
    }
    assert_eq!(
        reports.last(),
        Some(&Reading::Display(DisplayReading::OneDigit {
            glyph: Glyph::Hex(5),
            lhs: true,
            cycle: Cycle { hertz: 500, percent: 50 },
        }))
    );
    assert_eq!(reports.len(), 1);
}

#[test]
fn pwm_sink_measures_a_square_wave() {
    assert_eq!(wave_of(1_000_000, 500_000), PwmReading::Wave { decihertz: 10_000, permille: 500 });
    assert_eq!(wave_of(0, 0), PwmReading::Wave { decihertz: 0, permille: 0 });
    assert_eq!(wave_of(3, 1), PwmReading::Wave { decihertz: 3_333_333_333, permille: 333 });
    let mut sink =
        SinkPwm::new(String::from("P1"), String::from("BUZZER"), Wire::Net(0), PinState::Open);
    assert_eq!(sink.pin(0), PinState::Open);
    assert_eq!(sink.update(0, &nets(&[NetState::Low])), None);
    let mut reports = Vec::new();
    let mut time = 0u64;
    for _ in 0..5 {
        time += 750_000;
        if let Some(report) = sink.update(time, &nets(&[NetState::High])) {
            reports.push(report);
        }
        time += 250_000;
        if let Some(report) = sink.update(time, &nets(&[NetState::Low])) {
            reports.push(report);
        }
    }
    assert_eq!(
        reports,
        vec![Report {
            time: 1_750_000,
            what: Reading::Pwm(PwmReading::Wave { decihertz: 10_000, permille: 250 }),
        }]
    );
    assert_eq!(sink.variant, "BUZZER");
    assert_eq!(sink.event(0, "x"), None);
}

#[test]
fn pwm_sink_reports_a_steady_level_once() {
    let mut sink =
        SinkPwm::new(String::from("R9"), String::from("PWM"), Wire::Net(0), PinState::WeakPullUp);
    assert_eq!(sink.pin(0), PinState::WeakPullUp);
    assert_eq!(sink.update(0, &nets(&[NetState::Undefined])), None);
    assert_eq!(sink.update(60_000_000, &nets(&[NetState::Undefined])), None);
    assert_eq!(sink.update(70_000_000, &nets(&[NetState::High])), None);
    assert_eq!(sink.update(120_000_000, &nets(&[NetState::High])), None);
    assert_eq!(
        sink.update(120_000_001, &nets(&[NetState::High])),
        Some(Report { time: 70_000_000, what: Reading::Pwm(PwmReading::Steady { high: true }) })
    );
    assert_eq!(sink.update(200_000_000, &nets(&[NetState::High])), None);
    assert_eq!(sink.update(210_000_000, &nets(&[NetState::Low])), None);
    assert_eq!(
        sink.update(300_000_000, &nets(&[NetState::Low])),
        Some(Report { time: 210_000_000, what: Reading::Pwm(PwmReading::Steady { high: false }) })
    );
    assert_eq!(sink.update(310_000_000, &nets(&[NetState::Analog(7)])), None);
    assert_eq!(
        sink.update(400_000_000, &nets(&[NetState::Undefined])),
        Some(Report { time: 310_000_000, what: Reading::Pwm(PwmReading::Undefined) })
    );
}

fn uart_frame_level(byte: u8, time: u64, start: u64) -> NetState {
    if time < start {
        return NetState::High;
    }
    let bit = (time - start) / 104167;
    let frame: u16 = ((byte as u16) << 1) | 0x200;
    if bit >= 10 || (frame >> bit) & 1 == 1 {
        NetState::High
    } else {
        NetState::Low
    }
}

#[test]
fn uart_sink_receives_a_frame() {
    let mut sink = SinkUART::new(String::from("U5"), Wire::Net(0), String::from("uart.txt"));
    let mut received = Vec::new();
    let mut time = 0u64;
    while time < 1_200_000 {
        if let Some(report) = sink.update(time, &nets(&[uart_frame_level(0x41, time, 3000)])) {
            received.push(report);
        }
        time += 300;
    }
    assert_eq!(received.len(), 1);
    assert_eq!(received[0].what, Reading::UartRx(0x41));
    assert_eq!(sink.rx_state, UartState::Idle);
    assert_eq!(sink.outfile, "uart.txt");
}

#[test]
fn uart_sink_drops_a_frame_without_stop_bit() {
    let mut sink = SinkUART::new(String::from("U5"), Wire::Net(0), String::from("uart.txt"));
    let mut received = Vec::new();
    let mut time = 0u64;
    while time < 1_200_000 {
        let level = if time < 3000 || time >= 3000 + 10 * 104167 {
            NetState::High
        } else {
            NetState::Low
        };
        if let Some(report) = sink.update(time, &nets(&[level])) {
            received.push(report);
        }
        time += 300;
    }
    assert!(received.is_empty());
    assert_eq!(sink.rx_reg, 0);
}

#[test]
fn uart_sink_sends_a_frame() {
    let mut sink = SinkUART::new(String::from("U5"), Wire::Open, String::from("uart.txt"));
    assert_eq!(sink.pin(0), PinState::DriveH);
    assert_eq!(sink.pin(1), PinState::Open);
    assert_eq!(
        sink.event(0x0A, "41"),
        Some(Report { time: 0x0A, what: Reading::UartTx(0x41) })
    );
    assert_eq!(sink.pin(0), PinState::DriveL);
    assert_eq!(sink.tx_state, UartState::Shift);
    assert_eq!(sink.event(0x0B, "42"), Some(Report { time: 0x0B, what: Reading::UartTx(0x42) }));
    assert_eq!(sink.tx_reg, 0x0141);
    let mut levels = Vec::new();
    for bit in 0..10u64 {
        let time = 10 + bit * 104167 + 52000;
        sink.update(time, &Vec::new());
        levels.push(sink.pin(0) == PinState::DriveH);
    }
    assert_eq!(
        levels,
        vec![false, true, false, false, false, false, false, true, false, true]
    );
    sink.update(10 + 10 * 104167, &Vec::new());
    assert_eq!(sink.tx_state, UartState::Idle);
    assert_eq!(sink.pin(0), PinState::DriveH);
}

#[test]
fn uart_sink_events() {
    let mut sink = SinkUART::new(String::from("U5"), Wire::Open, String::from("uart.txt"));
    assert_eq!(sink.event(5, "flush"), Some(Report { time: 5, what: Reading::UartFlush }));
    assert_eq!(sink.event(5, "FLUSH"), Some(Report { time: 5, what: Reading::UartFlush }));
    assert_eq!(sink.event(0, "Flush"), Some(Report { time: 0, what: Reading::UartFlush }));
    assert_eq!(sink.tx_state, UartState::Idle);
    assert_eq!(sink.event(5, "1FF"), None);
    assert_eq!(sink.event(5, "G1"), None);
    assert_eq!(sink.event(5, ""), None);
    assert_eq!(sink.tx_state, UartState::Idle);
    assert_eq!(sink.event(0, "ff"), None);
    assert_eq!(sink.tx_state, UartState::Shift);
    assert_eq!(sink.tx_reg, 0x01FF);
}

#[test]
fn models_dispatch_to_their_hardware() {
    let mut model = Model::Pushbutton(Pushbutton::new(String::from("S1"), true));
    assert_eq!(model.pin(0), PinState::Open);
    assert!(model.event(1, "PRESS").is_some());
    assert_eq!(model.pin(0), PinState::DriveH);
    assert_eq!(model.update(2, &Vec::new()), None);
    let mut led = Model::Led(Led::new(String::from("L"), true, Wire::Tied(NetState::High)));
    assert_eq!(
        led.update(3, &Vec::new()),
        Some(Report { time: 3, what: Reading::Led(LedState::On) })
    );
    assert_eq!(led.pin(0), PinState::WeakPullDown);
    let mut pot = Model::Pot(Pot::new(String::from("R"), 0));
    assert!(pot.event(0, "1").is_some());
    assert_eq!(pot.pin(0), PinState::DriveAnalog(3_300_000));
}
