use qutyemu::memory::MemoryMapped;
use qutyemu::nets::{Net, NetState, PinState};
use qutyemu::peripherals::port::{virtual_address, Port, PortIO, VirtualPort, ISC};
use qutyemu::peripherals::InterruptSource;

fn port() -> Port {
    Port::new(String::from("PORTA"))
}

fn net_at(state: NetState) -> Net {
    let mut net = Net::new(String::from("N"));
    net.state = state;
    net
}

#[test]
fn fresh_port_has_open_pins() {
    let mut p = port();
    assert_eq!(p.get_size(), 0x18);
    for pin in 0..8u8 {
        assert_eq!(p.pin(pin), PinState::Open);
        assert_eq!(p.get_netstate(pin), NetState::Undefined);
        assert!(!p.get_pinstate(pin));
    }
    for address in 0..0x18usize {
        assert_eq!(p.read(address), (0, 0));
    }
    assert_eq!(PortIO::new().net, None);
}

#[test]
fn direction_and_output_registers_drive_the_pins() {
    let mut p = port();
    p.write(0x00, 0b0000_0011);
    assert_eq!(p.pin(0), PinState::DriveL);
    assert_eq!(p.pin(1), PinState::DriveL);
    assert_eq!(p.pin(2), PinState::Open);
    p.write(0x04, 0b0000_0101);
    assert_eq!(p.pin(0), PinState::DriveH);
    assert_eq!(p.pin(1), PinState::DriveL);
    assert_eq!(p.pin(2), PinState::Open);
    assert_eq!(p.read(0x00), (0x03, 0));
    assert_eq!(p.read(0x04), (0x05, 0));
}

#[test]
fn set_clear_and_toggle_aliases() {
    let mut p = port();
    p.write(0x01, 0x0F);
    assert_eq!(p.read(0x00), (0x0F, 0));
    p.write(0x02, 0x03);
    assert_eq!(p.read(0x01), (0x0C, 0));
    p.write(0x03, 0xFF);
    assert_eq!(p.read(0x02), (0xF3, 0));
    assert_eq!(p.read(0x03), (0xF3, 0));
    p.write(0x05, 0x81);
    assert_eq!(p.read(0x04), (0x81, 0));
    p.write(0x06, 0x01);
    assert_eq!(p.read(0x05), (0x80, 0));
    p.write(0x07, 0xC0);
    assert_eq!(p.read(0x06), (0x40, 0));
    p.write(0x08, 0x40);
    assert_eq!(p.read(0x07), (0x00, 0));
    assert_eq!(p.pin(0), PinState::DriveL);
    assert_eq!(p.pin(2), PinState::Open);
}

#[test]
fn pull_up_applies_to_undriven_pins() {
    let mut p = port();
    p.write(0x13, 0xFF);
    assert_eq!(p.read(0x13), (0x8F, 0));
    assert_eq!(p.pin(3), PinState::WeakPullUp);
    assert!(p.pio[3].invert_en);
    assert_eq!(p.pio[3].isc, ISC::RESERVED);
    p.write(0x00, 0x08);
    assert_eq!(p.pin(3), PinState::DriveL);
    p.write(0x13, 0x04);
    assert!(p.pio[3].input_dis);
    assert_eq!(p.pio[3].isc, ISC::INPUTDISABLE);
    p.write(0x13, 0x00);
    assert!(p.pio[3].input_dis);
    assert_eq!(ISC::from(0), ISC::INTDISABLE);
    assert_eq!(ISC::from(1), ISC::BOTHEDGES);
    assert_eq!(ISC::from(2), ISC::RISING);
    assert_eq!(ISC::from(3), ISC::FALLING);
    assert_eq!(ISC::from(5), ISC::LEVEL);
}

#[test]
fn peripheral_override_takes_priority() {
    let mut p = port();
    p.po_out(2, true);
    assert_eq!(p.pin(2), PinState::Open);
    p.po_dir(2, true);
    assert_eq!(p.pin(2), PinState::DriveH);
    p.po_out(2, false);
    assert_eq!(p.pin(2), PinState::DriveL);
    p.po_out_clear(2);
    assert_eq!(p.pin(2), PinState::DriveL);
    p.write(0x04, 0x04);
    assert_eq!(p.pin(2), PinState::DriveH);
    p.po_dir(2, false);
    assert_eq!(p.pin(2), PinState::Open);
    p.write(0x00, 0x04);
    assert_eq!(p.pin(2), PinState::DriveH);
    p.po_out(2, false);
    assert_eq!(p.pin(2), PinState::DriveL);
    p.po_dir_clear(2);
    p.po_out_clear(2);
    assert_eq!(p.pin(2), PinState::DriveH);
}

#[test]
fn input_register_follows_the_nets() {
    let mut p = port();
    let nets = vec![
        net_at(NetState::High),
        net_at(NetState::Low),
        net_at(NetState::Undefined),
        net_at(NetState::Analog(1200)),
    ];
    p.connect(0, 0);
    p.connect(1, 1);
    p.connect(2, 2);
    p.connect(3, 3);
    p.connect(7, 0);
    p.connect(6, 9);
    p.regs[8] = 0b0100_0110;
    p.update(0, &nets);
    assert_eq!(p.read(0x08), (0b1100_0101, 0));
    assert!(p.get_pinstate(0));
    assert!(!p.get_pinstate(1));
    assert!(p.get_pinstate(2));
    assert!(p.get_pinstate(7));
    assert_eq!(p.get_netstate(0), NetState::High);
    assert_eq!(p.get_netstate(1), NetState::Low);
    assert_eq!(p.get_netstate(2), NetState::Undefined);
    assert_eq!(p.get_netstate(3), NetState::Analog(1200));
    assert_eq!(p.get_netstate(4), NetState::Undefined);
    assert_eq!(p.get_netstate(6), NetState::Undefined);
}

#[test]
fn flags_are_cleared_by_writing_one() {
    let mut p = port();
    p.regs[9] = 0xFF;
    p.write(0x09, 0x0F);
    assert_eq!(p.read(0x09), (0xF0, 0));
    p.write(0x0A, 0xFF);
    assert_eq!(p.read(0x0A), (0x01, 0));
    assert!(!p.interrupt(0xFF));
}

#[test]
fn addresses_without_a_register_are_inert() {
    let mut p = port();
    p.write(0x0B, 0xFF);
    p.write(0x0F, 0xFF);
    p.write(0x18, 0xFF);
    assert_eq!(p.read(0x0B), (0, 0));
    assert_eq!(p.read(0x18), (0, 0));
    assert_eq!(p.peek(0x1000), 0);
    for address in 0..0x18usize {
        assert_eq!(p.peek(address), 0);
    }
}

#[test]
fn virtual_port_maps_four_registers() {
    assert_eq!(virtual_address(0), 0x00);
    assert_eq!(virtual_address(1), 0x04);
    assert_eq!(virtual_address(2), 0x08);
    assert_eq!(virtual_address(3), 0x09);
    assert_eq!(virtual_address(4), 0x0B);
    let view = VirtualPort { port: 0 };
    assert_eq!(view.get_size(), 4);
    let mut p = port();
    view.write(&mut p, 0, 0x21);
    view.write(&mut p, 1, 0x20);
    assert_eq!(p.read(0x00), (0x21, 0));
    assert_eq!(p.read(0x04), (0x20, 0));
    assert_eq!(p.pin(5), PinState::DriveH);
    assert_eq!(p.pin(0), PinState::DriveL);
    view.write(&mut p, 2, 0x20);
    assert_eq!(view.read(&p, 1), (0x00, 0));
    p.regs[8] = 0x5A;
    p.regs[9] = 0x03;
    assert_eq!(view.read(&p, 2), (0x5A, 0));
    assert_eq!(view.read(&p, 3), (0x03, 0));
    assert_eq!(view.read(&p, 0), (0x21, 0));
    assert_eq!(view.read(&p, 7), (0, 0));
    view.write(&mut p, 3, 0x01);
    assert_eq!(view.read(&p, 3), (0x02, 0));
}
