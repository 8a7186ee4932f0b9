use qutyemu::devices::{Device, DeviceType, Notice};
use qutyemu::hex::{HexError, HexRecord};
use qutyemu::memory::{MapError, MemoryMapped};

#[test]
fn data_records_are_written_at_their_offsets() {
    let mut device = Device::new(DeviceType::ATtiny1626);
    let text = ":0400000001020304F2\n:02001000AABB89\n:00000001FF\n";
    assert_eq!(device.load_hex(text), Ok(()));
    assert_eq!(device.mm.flash.read(0), (0x01, 0));
    assert_eq!(device.mm.flash.read(3), (0x04, 0));
    assert_eq!(device.mm.flash.read(4), (0xFF, 0));
    assert_eq!(device.mm.flash.read(0x10), (0xAA, 0));
    assert_eq!(device.mm.flash.read(0x11), (0xBB, 0));
    assert_eq!(device.mm.read(0x8000), (0x01, 0));
    assert_eq!(device.mm.read(0x8011), (0xBB, 0));
}

#[test]
fn reading_stops_at_the_end_of_file_record() {
    let mut device = Device::new(DeviceType::ATtiny1626);
    let text = ":0100000011EE\n:00000001FF\n:0100010022DC\n";
    assert_eq!(device.load_hex(text), Ok(()));
    assert_eq!(device.mm.flash.read(0), (0x11, 0));
    assert_eq!(device.mm.flash.read(1), (0xFF, 0));
}

#[test]
fn malformed_text_is_an_error() {
    let mut device = Device::new(DeviceType::ATtiny1626);
    assert_eq!(device.load_hex(":0100000011EE\nnot a record\n:0100010022DC\n"), Err(HexError::Malformed));
    assert_eq!(device.mm.flash.read(0), (0x11, 0));
    assert_eq!(device.mm.flash.read(1), (0xFF, 0));
    assert_eq!(device.load_hex(":0100000011EF\n"), Err(HexError::Malformed));
    assert_eq!(device.load_hex(""), Ok(()));
}

#[test]
fn other_records_are_passed_over() {
    let mut device = Device::new(DeviceType::ATtiny1626);
    let text = ":020000040000FA\n:0100000055AA\n:0400000500000000F7\n:00000001FF\n";
    assert_eq!(device.load_hex(text), Ok(()));
    assert_eq!(device.mm.flash.read(0), (0x55, 0));
}

#[test]
fn records_are_taken_in_order() {
    let mut device = Device::new(DeviceType::ATtiny1626);
    let records = vec![
        Ok(HexRecord::Data { offset: 0x0002, value: vec![1, 2, 3] }),
        Ok(HexRecord::ExtendedLinearAddress(1)),
        Ok(HexRecord::Data { offset: 0x0003, value: vec![9] }),
        Ok(HexRecord::Data { offset: 0x3FFF, value: vec![7, 8] }),
        Ok(HexRecord::Data { offset: 0xFFFF, value: vec![6] }),
        Ok(HexRecord::StartSegmentAddress { cs: 0, ip: 0 }),
        Ok(HexRecord::StartLinearAddress(0)),
        Ok(HexRecord::ExtendedSegmentAddress(0)),
        Err(HexError::Malformed),
        Ok(HexRecord::Data { offset: 0x0000, value: vec![0x42] }),
    ];
    assert_eq!(device.programme(&records), Err(HexError::Malformed));
    assert_eq!(device.mm.flash.read(0), (0xFF, 0));
    assert_eq!(device.mm.flash.read(2), (1, 0));
    assert_eq!(device.mm.flash.read(3), (9, 0));
    assert_eq!(device.mm.flash.read(4), (3, 0));
    assert_eq!(device.mm.flash.read(0x3FFF), (7, 0));
    assert_eq!(device.programme(&vec![Ok(HexRecord::EndOfFile)]), Ok(()));
}

#[test]
fn access_outside_every_region_is_a_fault() {
    let mut device = Device::new(DeviceType::ATtiny1626);
    assert_eq!(device.mm.take_fault(), None);
    assert_eq!(device.mm.read(0x2000), (0, 0));
    assert_eq!(device.mm.take_fault(), Some(MapError::Undefined { address: 0x2000 }));
    assert_eq!(device.mm.take_fault(), None);
    assert_eq!(device.mm.write(0x000C, 0x55), 0);
    assert_eq!(device.mm.take_fault(), Some(MapError::Undefined { address: 0x000C }));
    assert_eq!(device.mm.write(0x3800, 0x55), 0);
    assert_eq!(device.mm.read(0x3800), (0x55, 0));
    assert_eq!(device.mm.take_fault(), None);
}

#[test]
fn write_that_configures_an_unmodelled_feature_is_noted() {
    let mut device = Device::new(DeviceType::ATtiny1626);
    assert_eq!(device.mm.take_notice(), None);
    // TCB0.CTRLA: enabled, peripheral clock
    device.mm.write(0x0A80, 0x01);
    assert_eq!(device.mm.take_notice(), None);
    // TCB0.CTRLA: clock from TCA0
    device.mm.write(0x0A80, 0x05);
    assert_eq!(device.mm.take_notice(), Some(Notice { address: 0x0A80, value: 0x05 }));
    assert_eq!(device.mm.take_notice(), None);
    // TCB0.CTRLB: a mode other than periodic interrupt
    device.mm.write(0x0A81, 0x02);
    assert_eq!(device.mm.take_notice(), Some(Notice { address: 0x0A81, value: 0x02 }));
    // USART0.CTRLC: 8N1 and then two stop bits
    device.mm.write(0x0807, 0x03);
    assert_eq!(device.mm.take_notice(), None);
    device.mm.write(0x0807, 0x0B);
    assert_eq!(device.mm.take_notice(), Some(Notice { address: 0x0807, value: 0x0B }));
    // TCA0.CTRLB: single-slope and then dual-slope
    device.mm.write(0x0A01, 0x13);
    assert_eq!(device.mm.take_notice(), None);
    device.mm.write(0x0A01, 0x15);
    assert_eq!(device.mm.take_notice(), Some(Notice { address: 0x0A01, value: 0x15 }));
    // ADC0.COMMAND: a differential conversion
    device.mm.write(0x060A, 0x91);
    assert_eq!(device.mm.take_notice(), Some(Notice { address: 0x060A, value: 0x91 }));
    // PORTMUX and CPUINT model nothing
    device.mm.write(0x05E2, 0x01);
    assert_eq!(device.mm.take_notice(), Some(Notice { address: 0x05E2, value: 0x01 }));
    device.mm.write(0x0110, 0x01);
    assert_eq!(device.mm.take_notice(), Some(Notice { address: 0x0110, value: 0x01 }));
    // memory models everything
    device.mm.write(0x3800, 0xFF);
    device.mm.write(0x0401, 0xFF);
    assert_eq!(device.mm.take_notice(), None);
}

#[test]
fn device_after_reset_names_its_output_file_and_its_sram() {
    let mut device = Device::new(DeviceType::ATtiny1626);
    assert_eq!(device.mm.stdio.name, "STDIO");
    assert_eq!(device.mm.stdio.outfile, "stdout.txt");
    assert_eq!(device.core.sram, Some((0x3800, 0x3FFF)));
    assert_eq!(device.mm.clkctrl.clock_period, 300);
    // writing and reading the pseudo-peripheral leaves the names alone
    device.mm.write(0x1500, b'A');
    device.mm.read(0x1501);
    assert_eq!(device.mm.stdio.outfile, "stdout.txt");
    assert_eq!(device.mm.stdio.out, vec![b'A']);
}

#[test]
fn clock_never_stops_whatever_is_written() {
    let mut device = Device::new(DeviceType::ATtiny1626);
    for select in 0..4u8 {
        for field in 0..32u8 {
            // unlock, then write the clock select and the prescaler
            device.mm.clkctrl.ccp = true;
            device.mm.write(0x0060, select);
            device.mm.write(0x0061, field);
            assert!(device.mm.clkctrl.clock_period > 0);
        }
    }
    device.mm.clkctrl.ccp = true;
    device.mm.write(0x0060, 0x00);
    device.mm.write(0x0061, 0x00);
    assert_eq!(device.mm.clkctrl.clock_period, 50);
    device.mm.write(0x0061, 0x0B);
    assert_eq!(device.mm.clkctrl.clock_period, 3200);
    assert_eq!(device.tick(0), 3200);
}
