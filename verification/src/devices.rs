//! The microcontroller: a core on a data space that holds the memories and
//! the peripherals.

use crate::cores::{keeps_byte, keeps_word, Core, CoreType, InterruptHandler, ProgramMemory};
use crate::hex::{hex_records, placed, programmed, read_hex, HexError, HexRecord};
use crate::memory::{
    lemma_locate_hit, locate, ordered, MapEntry, MapError, Memory, MemoryMap, MemoryMapped,
    MemoryModel,
};
use crate::nets::Net;
use crate::peripherals::adc::Adc;
use crate::peripherals::clkctrl::{law_clock_keeps_running, Clkctrl};
use crate::peripherals::cpu::Cpu;
use crate::peripherals::cpuint::{Binding, Cpuint, CpuintModel};
use crate::peripherals::port::{virtual_address, Port, VirtualPort};
use crate::peripherals::portmux::Portmux;
use crate::peripherals::spi::Spi;
use crate::peripherals::stdio::{Stdio, StdioModel};
use crate::peripherals::tca::Tca;
use crate::peripherals::tcb::Tcb;
use crate::peripherals::usart::Usart;
use crate::peripherals::{ClockSource, Clocked, InterruptSource};
use vstd::array::spec_array_update;
use vstd::prelude::*;

verus! {

/// The devices that are modelled.
#[derive(Clone, Copy, Debug, PartialEq, Eq, Structural)]
pub enum DeviceType {
    ATtiny1626,
}

/// What stands behind a range of the data space.
#[derive(Clone, Copy, Debug, PartialEq, Eq, Structural)]
pub enum Region {
    /// The four-byte view of the port with the given index.
    VirtualPort(usize),
    /// The general purpose registers.
    Gpio,
    Cpu,
    /// A block that is not modelled: it reads as its reset contents and
    /// ignores writes.
    Stub(usize),
    Clkctrl,
    Cpuint,
    /// The port with the given index.
    Port(usize),
    Portmux,
    Adc,
    /// The USART with the given index.
    Usart(usize),
    Spi,
    Tca,
    /// The timer/counter B with the given index.
    Tcb(usize),
    Stdio,
    Sram,
    Flash,
    /// No component.
    Nothing,
}

pub const DEV_VPORTA: usize = 0;

pub const DEV_VPORTB: usize = 1;

pub const DEV_VPORTC: usize = 2;

pub const DEV_GPIO: usize = 3;

pub const DEV_CPU: usize = 4;

pub const DEV_SLPCTRL: usize = 5;

pub const DEV_CLKCTRL: usize = 6;

pub const DEV_BOD: usize = 7;

pub const DEV_CPUINT: usize = 8;

pub const DEV_CRCSCAN: usize = 9;

pub const DEV_PORTA: usize = 10;

pub const DEV_PORTB: usize = 11;

pub const DEV_PORTC: usize = 12;

pub const DEV_PORTMUX: usize = 13;

pub const DEV_ADC0: usize = 14;

pub const DEV_AC0: usize = 15;

pub const DEV_USART0: usize = 16;

pub const DEV_USART1: usize = 17;

pub const DEV_TWI0: usize = 18;

pub const DEV_SPI0: usize = 19;

pub const DEV_TCA0: usize = 20;

pub const DEV_TCB0: usize = 21;

pub const DEV_TCB1: usize = 22;

pub const DEV_SYSCFG: usize = 23;

pub const DEV_NVMCTRL: usize = 24;

pub const DEV_FUSE: usize = 25;

pub const DEV_USERROW: usize = 26;

pub const DEV_EEPROM: usize = 27;

pub const DEV_STDIO: usize = 28;

pub const DEV_SRAM: usize = 29;

pub const DEV_FLASH: usize = 30;

/// The number of blocks that are not modelled.
pub const STUBS: usize = 10;

/// The component that a handle of the address map stands for.
#[verifier::allow_in_spec]
pub fn region_of(dev: usize) -> Region
    returns
        (if dev <= DEV_VPORTC {
            Region::VirtualPort(dev)
        } else if dev == DEV_GPIO {
            Region::Gpio
        } else if dev == DEV_CPU {
            Region::Cpu
        } else if dev == DEV_SLPCTRL {
            Region::Stub(0)
        } else if dev == DEV_CLKCTRL {
            Region::Clkctrl
        } else if dev == DEV_BOD {
            Region::Stub(1)
        } else if dev == DEV_CPUINT {
            Region::Cpuint
        } else if dev == DEV_CRCSCAN {
            Region::Stub(2)
        } else if dev <= DEV_PORTC {
            Region::Port((dev - DEV_PORTA) as usize)
        } else if dev == DEV_PORTMUX {
            Region::Portmux
        } else if dev == DEV_ADC0 {
            Region::Adc
        } else if dev == DEV_AC0 {
            Region::Stub(3)
        } else if dev <= DEV_USART1 {
            Region::Usart((dev - DEV_USART0) as usize)
        } else if dev == DEV_TWI0 {
            Region::Stub(4)
        } else if dev == DEV_SPI0 {
            Region::Spi
        } else if dev == DEV_TCA0 {
            Region::Tca
        } else if dev <= DEV_TCB1 {
            Region::Tcb((dev - DEV_TCB0) as usize)
        } else if dev <= DEV_EEPROM {
            Region::Stub((dev - 18) as usize)
        } else if dev == DEV_STDIO {
            Region::Stdio
        } else if dev == DEV_SRAM {
            Region::Sram
        } else if dev == DEV_FLASH {
            Region::Flash
        } else {
            Region::Nothing
        }),
{
    if dev <= DEV_VPORTC {
        Region::VirtualPort(dev)
    } else if dev == DEV_GPIO {
        Region::Gpio
    } else if dev == DEV_CPU {
        Region::Cpu
    } else if dev == DEV_SLPCTRL {
        Region::Stub(0)
    } else if dev == DEV_CLKCTRL {
        Region::Clkctrl
    } else if dev == DEV_BOD {
        Region::Stub(1)
    } else if dev == DEV_CPUINT {
        Region::Cpuint
    } else if dev == DEV_CRCSCAN {
        Region::Stub(2)
    } else if dev <= DEV_PORTC {
        Region::Port(dev - DEV_PORTA)
    } else if dev == DEV_PORTMUX {
        Region::Portmux
    } else if dev == DEV_ADC0 {
        Region::Adc
    } else if dev == DEV_AC0 {
        Region::Stub(3)
    } else if dev <= DEV_USART1 {
        Region::Usart(dev - DEV_USART0)
    } else if dev == DEV_TWI0 {
        Region::Stub(4)
    } else if dev == DEV_SPI0 {
        Region::Spi
    } else if dev == DEV_TCA0 {
        Region::Tca
    } else if dev <= DEV_TCB1 {
        Region::Tcb(dev - DEV_TCB0)
    } else if dev <= DEV_EEPROM {
        Region::Stub(dev - 18)
    } else if dev == DEV_STDIO {
        Region::Stdio
    } else if dev == DEV_SRAM {
        Region::Sram
    } else if dev == DEV_FLASH {
        Region::Flash
    } else {
        Region::Nothing
    }
}

/// A write that asked for something that is not modelled.
#[derive(Clone, Copy, Debug, PartialEq, Eq, Structural)]
pub struct Notice {
    pub address: usize,
    pub value: u8,
}

/// Whether a write to a region asks for something that the region does not
/// model. The interrupt controller and the port multiplexer model nothing
/// that can be configured.
#[verifier::allow_in_spec]
pub fn unsupported(region: Region, offset: usize, value: u8) -> bool
    returns
        (match region {
            Region::Clkctrl => crate::peripherals::clkctrl::unsupported(offset, value),
            Region::Cpuint => offset < 4,
            Region::Portmux => offset < 6,
            Region::Adc => crate::peripherals::adc::unsupported(offset, value),
            Region::Usart(_) => crate::peripherals::usart::unsupported(offset, value),
            Region::Tca => crate::peripherals::tca::unsupported(offset, value),
            Region::Tcb(_) => crate::peripherals::tcb::unsupported(offset, value),
            _ => false,
        }),
{
    match region {
        Region::Clkctrl => crate::peripherals::clkctrl::unsupported(offset, value),
        Region::Cpuint => offset < 4,
        Region::Portmux => offset < 6,
        Region::Adc => crate::peripherals::adc::unsupported(offset, value),
        Region::Usart(_) => crate::peripherals::usart::unsupported(offset, value),
        Region::Tca => crate::peripherals::tca::unsupported(offset, value),
        Region::Tcb(_) => crate::peripherals::tcb::unsupported(offset, value),
        _ => false,
    }
}

/// The data space of the microcontroller: the address map and everything it
/// leads to.
pub struct DataSpace {
    pub map: MemoryMap,
    pub flash: Memory,
    pub sram: Memory,
    pub gpio: Memory,
    pub stubs: Vec<Memory>,
    pub ports: [Port; 3],
    pub cpu: Cpu,
    pub clkctrl: Clkctrl,
    pub cpuint: Cpuint,
    pub portmux: Portmux,
    pub adc0: Adc,
    pub usarts: [Usart; 2],
    pub spi0: Spi,
    pub tca0: Tca,
    pub tcbs: [Tcb; 2],
    pub stdio: Stdio,
    /// The last access that found no region, until it is taken note of.
    pub fault: Option<MapError>,
    /// The last write that asked for something that is not modelled, until it
    /// is taken note of.
    pub notice: Option<Notice>,
}

/// The state of the data space.
pub struct DataSpaceModel {
    pub map: Seq<MapEntry>,
    pub flash: MemoryModel,
    pub sram: MemoryModel,
    pub gpio: MemoryModel,
    pub stubs: Seq<MemoryModel>,
    pub ports: [Port; 3],
    pub cpu: Cpu,
    pub clkctrl: Clkctrl,
    pub cpuint: CpuintModel,
    pub portmux: Portmux,
    pub adc0: Adc,
    pub usarts: [Usart; 2],
    pub spi0: Spi,
    pub tca0: Tca,
    pub tcbs: [Tcb; 2],
    pub stdio: StdioModel,
    pub fault: Option<MapError>,
    pub notice: Option<Notice>,
}

impl View for DataSpace {
    type V = DataSpaceModel;

    open spec fn view(&self) -> DataSpaceModel {
        DataSpaceModel {
            map: self.map.mm@,
            flash: self.flash@,
            sram: self.sram@,
            gpio: self.gpio@,
            stubs: Seq::new(self.stubs@.len(), |i: int| self.stubs@[i]@),
            ports: self.ports,
            cpu: self.cpu,
            clkctrl: self.clkctrl,
            cpuint: self.cpuint@,
            portmux: self.portmux,
            adc0: self.adc0,
            usarts: self.usarts,
            spi0: self.spi0,
            tca0: self.tca0,
            tcbs: self.tcbs,
            stdio: self.stdio@,
            fault: self.fault,
            notice: self.notice,
        }
    }
}

impl Region {
    /// The index, where the region has one, names a component that exists.
    pub open spec fn valid(self) -> bool {
        match self {
            Region::VirtualPort(i) | Region::Port(i) => i < 3,
            Region::Usart(i) | Region::Tcb(i) => i < 2,
            Region::Stub(i) => i < STUBS,
            _ => true,
        }
    }
}

/// Every handle stands for a component that exists.
pub proof fn lemma_region_valid(dev: usize)
    ensures
        region_of(dev).valid(),
{
}

impl DataSpaceModel {
    /// The parts are well-formed.
    pub open spec fn wf(self) -> bool {
        &&& crate::memory::ordered(self.map)
        &&& self.stubs.len() == STUBS
        &&& self.clkctrl.wf()
        &&& self.cpuint.wf()
        &&& self.adc0.wf()
        &&& self.usarts[0].wf()
        &&& self.usarts[1].wf()
        &&& self.spi0.wf()
        &&& self.tca0.wf()
    }

    /// The byte read from a region at an offset, the latency, and the data
    /// space after the read.
    pub open spec fn region_read(self, region: Region, offset: usize) -> (u8, usize, DataSpaceModel) {
        match region {
            Region::VirtualPort(i) => (self.ports[i as int].read_spec(virtual_address(offset)), 0, self),
            Region::Gpio => (
                Memory::read_of(self.gpio, offset).0,
                Memory::read_of(self.gpio, offset).1,
                self,
            ),
            Region::Cpu => (self.cpu.read_spec(offset), 0, self),
            Region::Stub(i) => (Memory::read_of(self.stubs[i as int], offset).0, 0, self),
            Region::Clkctrl => (self.clkctrl.read_spec(offset), 0, self),
            Region::Cpuint => (self.cpuint.read(offset), 0, self),
            Region::Port(i) => (self.ports[i as int].read_spec(offset), 0, self),
            Region::Portmux => (self.portmux.read_spec(offset), 0, self),
            Region::Adc => (
                self.adc0.read_spec(offset).0,
                0,
                DataSpaceModel { adc0: self.adc0.read_spec(offset).1, ..self },
            ),
            Region::Usart(i) => (
                self.usarts[i as int].read_spec(offset).0,
                0,
                DataSpaceModel {
                    usarts: spec_array_update(
                        self.usarts,
                        i as int,
                        self.usarts[i as int].read_spec(offset).1,
                    ),
                    ..self
                },
            ),
            Region::Spi => (
                self.spi0.read_spec(offset).0,
                0,
                DataSpaceModel { spi0: self.spi0.read_spec(offset).1, ..self },
            ),
            Region::Tca => (
                self.tca0.read_spec(offset).0,
                0,
                DataSpaceModel { tca0: self.tca0.read_spec(offset).1, ..self },
            ),
            Region::Tcb(i) => (
                self.tcbs[i as int].read_spec(offset).0,
                0,
                DataSpaceModel {
                    tcbs: spec_array_update(
                        self.tcbs,
                        i as int,
                        self.tcbs[i as int].read_spec(offset).1,
                    ),
                    ..self
                },
            ),
            Region::Stdio => (
                Stdio::read_of(self.stdio, offset).0,
                0,
                DataSpaceModel { stdio: Stdio::read_of(self.stdio, offset).2, ..self },
            ),
            Region::Sram => (
                Memory::read_of(self.sram, offset).0,
                Memory::read_of(self.sram, offset).1,
                self,
            ),
            Region::Flash => (
                Memory::read_of(self.flash, offset).0,
                Memory::read_of(self.flash, offset).1,
                self,
            ),
            Region::Nothing => (0, 0, self),
        }
    }

    /// The data space after a write to a region at an offset.
    pub open spec fn region_write(self, region: Region, offset: usize, value: u8) -> DataSpaceModel {
        match region {
            Region::VirtualPort(i) => DataSpaceModel {
                ports: spec_array_update(
                    self.ports,
                    i as int,
                    self.ports[i as int].write_spec(virtual_address(offset), value),
                ),
                ..self
            },
            Region::Gpio => DataSpaceModel {
                gpio: Memory::write_of(self.gpio, offset, value).1,
                ..self
            },
            Region::Cpu => DataSpaceModel {
                cpu: self.cpu.write_spec(self.clkctrl, offset, value).0,
                clkctrl: self.cpu.write_spec(self.clkctrl, offset, value).1,
                ..self
            },
            Region::Stub(i) => self,
            Region::Clkctrl => DataSpaceModel {
                clkctrl: self.clkctrl.write_spec(offset, value),
                ..self
            },
            Region::Cpuint => self,
            Region::Port(i) => DataSpaceModel {
                ports: spec_array_update(
                    self.ports,
                    i as int,
                    self.ports[i as int].write_spec(offset, value),
                ),
                ..self
            },
            Region::Portmux => DataSpaceModel {
                portmux: self.portmux.write_spec(offset, value),
                ..self
            },
            Region::Adc => DataSpaceModel {
                adc0: self.adc0.write_spec(self.ports, offset, value),
                ..self
            },
            Region::Usart(i) => {
                let usart = self.usarts[i as int];
                let port = usart.active_port() as int;
                let done = usart.write_spec(self.ports[port], offset, value);
                DataSpaceModel {
                    usarts: spec_array_update(self.usarts, i as int, done.0),
                    ports: spec_array_update(self.ports, port, done.1),
                    ..self
                }
            },
            Region::Spi => DataSpaceModel { spi0: self.spi0.write_spec(offset, value), ..self },
            Region::Tca => {
                let port = self.tca0.port as int;
                let done = self.tca0.write_spec(self.ports[port], offset, value);
                DataSpaceModel {
                    tca0: done.0,
                    ports: spec_array_update(self.ports, port, done.1),
                    ..self
                }
            },
            Region::Tcb(i) => DataSpaceModel {
                tcbs: spec_array_update(
                    self.tcbs,
                    i as int,
                    self.tcbs[i as int].write_spec(offset, value),
                ),
                ..self
            },
            Region::Stdio => DataSpaceModel {
                stdio: Stdio::write_of(self.stdio, offset, value).1,
                ..self
            },
            Region::Sram => DataSpaceModel {
                sram: Memory::write_of(self.sram, offset, value).1,
                ..self
            },
            Region::Flash => DataSpaceModel {
                flash: Memory::write_of(self.flash, offset, value).1,
                ..self
            },
            Region::Nothing => self,
        }
    }

    /// The byte read at an address, the latency, and the data space after
    /// the read. An address that no region covers reads as zero at no cost
    /// and is recorded as a fault.
    pub open spec fn read(self, address: usize) -> (u8, usize, DataSpaceModel) {
        match locate(self.map, address) {
            Some(found) => self.region_read(region_of(found.0), found.1),
            None => (0, 0, DataSpaceModel { fault: Some(MapError::Undefined { address }), ..self }),
        }
    }

    /// The data space after a write. A write to an address that no region
    /// covers is dropped and recorded as a fault. A write that asks its region
    /// for something that is not modelled has the effect that the region
    /// gives it, and is noted.
    pub open spec fn write(self, address: usize, value: u8) -> DataSpaceModel {
        match locate(self.map, address) {
            Some(found) => {
                let written = self.region_write(region_of(found.0), found.1, value);
                if unsupported(region_of(found.0), found.1, value) {
                    DataSpaceModel { notice: Some(Notice { address, value }), ..written }
                } else {
                    written
                }
            },
            None => DataSpaceModel { fault: Some(MapError::Undefined { address }), ..self },
        }
    }

    /// Whether the peripheral with handle `dev` reports a pending flag under
    /// `mask`.
    pub open spec fn raised_at(self, dev: usize, mask: u8) -> bool {
        match region_of(dev) {
            Region::Port(i) => self.ports[i as int].raised(mask),
            Region::Adc => self.adc0.raised(mask),
            Region::Usart(i) => self.usarts[i as int].raised(mask),
            Region::Spi => self.spi0.raised(mask),
            Region::Tca => self.tca0.raised(mask),
            Region::Tcb(i) => self.tcbs[i as int].raised(mask),
            _ => false,
        }
    }

    /// For each binding of the interrupt controller, in registration order,
    /// whether its peripheral reports a pending flag.
    pub open spec fn raised(self) -> Seq<bool> {
        Seq::new(
            self.cpuint.sources.len(),
            |i: int| self.raised_at(self.cpuint.sources[i].source, self.cpuint.sources[i].flag_mask),
        )
    }

    /// The vector of the interrupt to be taken now, if any, and the data
    /// space after the controller has noted that it is being serviced.
    pub open spec fn service_pending(self) -> (Option<u16>, DataSpaceModel) {
        let asked = self.cpuint.service_pending(self.raised());
        (asked.0, DataSpaceModel { cpuint: asked.1, ..self })
    }

    /// The data space after every clocked peripheral has been advanced by
    /// one clock period, in the fixed order: the CPU block, the SPI, timer A,
    /// the two timers B, the converter, and the two USARTs.
    #[verifier::opaque]
    pub open spec fn clocked(self, time: u64) -> DataSpaceModel {
        let cpu = self.cpu.tick_spec(self.clkctrl);
        let spi_port = self.spi0.active_port() as int;
        let spi = self.spi0.tick_spec(self.ports[spi_port]);
        let ports1 = spec_array_update(self.ports, spi_port, spi.1);
        let tca_port = self.tca0.port as int;
        let tca = self.tca0.tick_spec(ports1[tca_port]);
        let ports2 = spec_array_update(ports1, tca_port, tca.1);
        let tcb0 = self.tcbs[0].ticked(time);
        let tcbs1 = spec_array_update(self.tcbs, 0, tcb0);
        let tcbs2 = spec_array_update(tcbs1, 1, tcbs1[1].ticked(time));
        let adc = self.adc0.tick_spec(ports2);
        let u0_port = self.usarts[0].active_port() as int;
        let u0 = self.usarts[0].tick_spec(ports2[u0_port]);
        let ports3 = spec_array_update(ports2, u0_port, u0.1);
        let usarts1 = spec_array_update(self.usarts, 0, u0.0);
        let u1_port = usarts1[1].active_port() as int;
        let u1 = usarts1[1].tick_spec(ports3[u1_port]);
        DataSpaceModel {
            cpu: cpu.0,
            clkctrl: cpu.1,
            spi0: spi.0,
            tca0: tca.0,
            tcbs: tcbs2,
            adc0: adc,
            usarts: spec_array_update(usarts1, 1, u1.0),
            ports: spec_array_update(ports3, u1_port, u1.1),
            ..self
        }
    }

    /// The data space after the ports have sampled their nets.
    pub open spec fn updated(self, nets: Seq<Net>) -> DataSpaceModel {
        DataSpaceModel {
            ports: spec_array_update(
                spec_array_update(
                    spec_array_update(self.ports, 0, self.ports[0].update_spec(nets)),
                    1,
                    self.ports[1].update_spec(nets),
                ),
                2,
                self.ports[2].update_spec(nets),
            ),
            ..self
        }
    }
}

impl DataSpace {
    fn region_read(&mut self, region: Region, offset: usize) -> (r: (u8, usize))
        requires
            old(self)@.wf(),
            region.valid(),
        ensures
            final(self)@.wf(),
            (r.0, r.1, final(self)@) == old(self)@.region_read(region, offset),
    {
        match region {
            Region::VirtualPort(i) => (VirtualPort { port: i }).read(&self.ports[i], offset),
            Region::Gpio => self.gpio.read(offset),
            Region::Cpu => self.cpu.read(offset),
            Region::Stub(i) => (self.stubs[i].peek(offset), 0),
            Region::Clkctrl => self.clkctrl.read(offset),
            Region::Cpuint => self.cpuint.read(offset),
            Region::Port(i) => (self.ports[i].peek(offset), 0),
            Region::Portmux => self.portmux.read(offset),
            Region::Adc => self.adc0.read(offset),
            Region::Usart(i) => self.usarts[i].read(offset),
            Region::Spi => self.spi0.read(offset),
            Region::Tca => self.tca0.read(offset),
            Region::Tcb(i) => self.tcbs[i].read(offset),
            Region::Stdio => {
                let r = self.stdio.read(offset);
                (r.0, 0)
            },
            Region::Sram => self.sram.read(offset),
            Region::Flash => self.flash.read(offset),
            Region::Nothing => (0, 0),
        }
    }

    fn region_write(&mut self, region: Region, offset: usize, value: u8)
        requires
            old(self)@.wf(),
            region.valid(),
        ensures
            final(self)@.wf(),
            final(self)@ == old(self)@.region_write(region, offset, value),
    {
        match region {
            Region::VirtualPort(i) => {
                (VirtualPort { port: i }).write(&mut self.ports[i], offset, value);
            },
            Region::Gpio => {
                self.gpio.write(offset, value);
            },
            Region::Cpu => {
                self.cpu.write(&mut self.clkctrl, offset, value);
            },
            Region::Stub(_) => {},
            Region::Clkctrl => {
                proof {
                    law_clock_keeps_running(self.clkctrl, offset, value);
                }
                self.clkctrl.write(offset, value);
            },
            Region::Cpuint => {
                self.cpuint.write(offset, value);
            },
            Region::Port(i) => {
                self.ports[i].write(offset, value);
            },
            Region::Portmux => {
                self.portmux.write(offset, value);
            },
            Region::Adc => {
                self.adc0.write(&self.ports, offset, value);
            },
            Region::Usart(i) => {
                let port = self.usarts[i].port_index();
                self.usarts[i].write(&mut self.ports[port], offset, value);
            },
            Region::Spi => {
                self.spi0.write(offset, value);
            },
            Region::Tca => {
                let port = self.tca0.port_index();
                self.tca0.write(&mut self.ports[port], offset, value);
            },
            Region::Tcb(i) => {
                self.tcbs[i].write(offset, value);
            },
            Region::Stdio => {
                self.stdio.write(offset, value);
            },
            Region::Sram => {
                self.sram.write(offset, value);
            },
            Region::Flash => {
                self.flash.write(offset, value);
            },
            Region::Nothing => {},
        }
    }

    /// Whether the peripheral with handle `dev` reports a pending flag under
    /// `mask`.
    pub fn interrupt_at(&self, dev: usize, mask: u8) -> (pending: bool)
        ensures
            pending == self@.raised_at(dev, mask),
    {
        match region_of(dev) {
            Region::Port(i) => self.ports[i].interrupt(mask),
            Region::Adc => self.adc0.interrupt(mask),
            Region::Usart(i) => self.usarts[i].interrupt(mask),
            Region::Spi => self.spi0.interrupt(mask),
            Region::Tca => self.tca0.interrupt(mask),
            Region::Tcb(i) => self.tcbs[i].interrupt(mask),
            _ => false,
        }
    }

    /// Advances every clocked peripheral by one clock period.
    pub fn tick_peripherals(&mut self, time: u64)
        requires
            old(self)@.wf(),
        ensures
            final(self)@.wf(),
            final(self)@ == old(self)@.clocked(time),
    {
        reveal(DataSpaceModel::clocked);
        self.cpu.tick(&mut self.clkctrl, time);
        let spi_port = self.spi0.port_index();
        self.spi0.tick(&mut self.ports[spi_port], time);
        let tca_port = self.tca0.port_index();
        self.tca0.tick(&mut self.ports[tca_port], time);
        self.tcbs[0].tick(time);
        self.tcbs[1].tick(time);
        self.adc0.tick(&self.ports, time);
        let u0_port = self.usarts[0].port_index();
        self.usarts[0].tick(&mut self.ports[u0_port], time);
        let u1_port = self.usarts[1].port_index();
        self.usarts[1].tick(&mut self.ports[u1_port], time);
    }

    /// Lets the ports sample their nets.
    pub fn update(&mut self, time: u64, nets: &Vec<Net>)
        requires
            old(self)@.wf(),
        ensures
            final(self)@.wf(),
            final(self)@ == old(self)@.updated(nets@),
    {
        self.ports[0].update(time, nets);
        self.ports[1].update(time, nets);
        self.ports[2].update(time, nets);
    }

    /// Takes note of the last write that asked for something that is not
    /// modelled.
    pub fn take_notice(&mut self) -> (notice: Option<Notice>)
        ensures
            notice == old(self)@.notice,
            final(self)@ == (DataSpaceModel { notice: None, ..old(self)@ }),
    {
        let notice = self.notice;
        self.notice = None;
        notice
    }

    /// Takes note of the last access that found no region.
    pub fn take_fault(&mut self) -> (fault: Option<MapError>)
        ensures
            fault == old(self)@.fault,
            final(self)@ == (DataSpaceModel { fault: None, ..old(self)@ }),
    {
        let fault = self.fault;
        self.fault = None;
        fault
    }
}

impl MemoryMapped for DataSpace {
    type Model = DataSpaceModel;

    open spec fn model(&self) -> DataSpaceModel {
        self@
    }

    open spec fn inv(&self) -> bool {
        self@.wf()
    }

    open spec fn size_of(m: DataSpaceModel) -> nat {
        m.map.len()
    }

    open spec fn read_of(m: DataSpaceModel, address: usize) -> (u8, usize, DataSpaceModel) {
        m.read(address)
    }

    open spec fn write_of(m: DataSpaceModel, address: usize, value: u8) -> (usize, DataSpaceModel) {
        (0, m.write(address, value))
    }

    fn get_size(&self) -> (n: usize) {
        self.map.get_size()
    }

    fn read(&mut self, address: usize) -> (r: (u8, usize)) {
        match self.map.get_dev(address) {
            Ok((dev, offset)) => {
                proof {
                    lemma_region_valid(dev);
                }
                self.region_read(region_of(dev), offset)
            },
            Err(error) => {
                self.fault = Some(error);
                (0, 0)
            },
        }
    }

    fn write(&mut self, address: usize, value: u8) -> (latency: usize) {
        match self.map.get_dev(address) {
            Ok((dev, offset)) => {
                proof {
                    lemma_region_valid(dev);
                }
                self.region_write(region_of(dev), offset, value);
                if unsupported(region_of(dev), offset, value) {
                    self.notice = Some(Notice { address, value });
                }
            },
            Err(error) => {
                self.fault = Some(error);
            },
        }
        0
    }
}

impl InterruptHandler for DataSpace {
    open spec fn pending_of(m: DataSpaceModel) -> (Option<u16>, DataSpaceModel) {
        m.service_pending()
    }

    open spec fn reti_of(m: DataSpaceModel) -> DataSpaceModel {
        DataSpaceModel { cpuint: m.cpuint.reti(), ..m }
    }

    fn service_pending(&mut self) -> (vector: Option<u16>) {
        let n = self.cpuint.source_count();
        let mut raised: Vec<bool> = Vec::new();
        let mut i: usize = 0;
        while i < n
            invariant
                i <= n,
                n == self@.cpuint.sources.len(),
                *self == *old(self),
                raised@.len() == i,
                forall|k: int| 0 <= k < i ==> raised@[k] == self@.raised()[k],
            decreases n - i,
        {
            let binding = self.cpuint.source(i);
            let pending = self.interrupt_at(binding.source, binding.flag_mask);
            raised.push(pending);
            i += 1;
        }
        proof {
            assert(raised@ =~= self@.raised());
        }
        self.cpuint.service_pending(&raised)
    }

    fn reti(&mut self) {
        self.cpuint.reti();
    }
}

impl ProgramMemory for DataSpace {
    open spec fn program_of(m: DataSpaceModel, address: usize) -> u8 {
        Memory::read_of(m.flash, address).0
    }

    fn read_program(&self, address: usize) -> (byte: u8) {
        self.flash.peek(address)
    }
}

/// The address map of the ATtiny1626: base address, size and handle of
/// every region, in ascending order. The core answers the first thirty-two
/// data addresses from its registers, so the regions that lie there, the
/// virtual ports and the general purpose registers, are reached through the
/// data space itself and not by the instructions of the core.
pub open spec fn attiny1626_map() -> Seq<MapEntry> {
    seq![
        MapEntry { base: 0x0000, size: 4, dev: DEV_VPORTA },
        MapEntry { base: 0x0004, size: 4, dev: DEV_VPORTB },
        MapEntry { base: 0x0008, size: 4, dev: DEV_VPORTC },
        MapEntry { base: 0x001C, size: 4, dev: DEV_GPIO },
        MapEntry { base: 0x0030, size: 0x10, dev: DEV_CPU },
        MapEntry { base: 0x0050, size: 1, dev: DEV_SLPCTRL },
        MapEntry { base: 0x0060, size: 0x1D, dev: DEV_CLKCTRL },
        MapEntry { base: 0x0080, size: 0x0C, dev: DEV_BOD },
        MapEntry { base: 0x0110, size: 4, dev: DEV_CPUINT },
        MapEntry { base: 0x0120, size: 3, dev: DEV_CRCSCAN },
        MapEntry { base: 0x0400, size: 0x18, dev: DEV_PORTA },
        MapEntry { base: 0x0420, size: 0x18, dev: DEV_PORTB },
        MapEntry { base: 0x0440, size: 0x18, dev: DEV_PORTC },
        MapEntry { base: 0x05E0, size: 6, dev: DEV_PORTMUX },
        MapEntry { base: 0x0600, size: 0x20, dev: DEV_ADC0 },
        MapEntry { base: 0x0680, size: 8, dev: DEV_AC0 },
        MapEntry { base: 0x0800, size: 0x0F, dev: DEV_USART0 },
        MapEntry { base: 0x0820, size: 0x0F, dev: DEV_USART1 },
        MapEntry { base: 0x08A0, size: 0x0F, dev: DEV_TWI0 },
        MapEntry { base: 0x08C0, size: 5, dev: DEV_SPI0 },
        MapEntry { base: 0x0A00, size: 0x3E, dev: DEV_TCA0 },
        MapEntry { base: 0x0A80, size: 0x0E, dev: DEV_TCB0 },
        MapEntry { base: 0x0A90, size: 0x0E, dev: DEV_TCB1 },
        MapEntry { base: 0x0F00, size: 2, dev: DEV_SYSCFG },
        MapEntry { base: 0x1000, size: 9, dev: DEV_NVMCTRL },
        MapEntry { base: 0x1280, size: 3, dev: DEV_FUSE },
        MapEntry { base: 0x1300, size: 0x80, dev: DEV_USERROW },
        MapEntry { base: 0x1400, size: 0x100, dev: DEV_EEPROM },
        MapEntry { base: 0x1500, size: 3, dev: DEV_STDIO },
        MapEntry { base: 0x3800, size: 0x800, dev: DEV_SRAM },
        MapEntry { base: 0x8000, size: 0x4000, dev: DEV_FLASH },
    ]
}

/// The interrupt sources of the ATtiny1626 in the order in which they are
/// polled: vector index, handle of the peripheral, and flag mask.
pub open spec fn attiny1626_sources() -> Seq<Binding> {
    seq![
        Binding { vector_index: 8, source: DEV_TCA0, flag_mask: 0x01 },
        Binding { vector_index: 10, source: DEV_TCA0, flag_mask: 0x10 },
        Binding { vector_index: 11, source: DEV_TCA0, flag_mask: 0x20 },
        Binding { vector_index: 12, source: DEV_TCA0, flag_mask: 0x40 },
        Binding { vector_index: 13, source: DEV_TCB0, flag_mask: 0x03 },
        Binding { vector_index: 16, source: DEV_SPI0, flag_mask: 0xF1 },
        Binding { vector_index: 17, source: DEV_USART0, flag_mask: 0x80 },
        Binding { vector_index: 18, source: DEV_USART0, flag_mask: 0x20 },
        Binding { vector_index: 19, source: DEV_USART0, flag_mask: 0x40 },
        Binding { vector_index: 22, source: DEV_ADC0, flag_mask: 0x01 },
        Binding { vector_index: 25, source: DEV_TCB1, flag_mask: 0x03 },
        Binding { vector_index: 26, source: DEV_USART1, flag_mask: 0x80 },
        Binding { vector_index: 27, source: DEV_USART1, flag_mask: 0x20 },
        Binding { vector_index: 28, source: DEV_USART1, flag_mask: 0x40 },
        Binding { vector_index: 6, source: DEV_PORTA, flag_mask: 0xFF },
        Binding { vector_index: 7, source: DEV_PORTB, flag_mask: 0xFF },
        Binding { vector_index: 24, source: DEV_PORTC, flag_mask: 0xFF },
    ]
}

/// The first address of the SRAM of the ATtiny1626 in the data space.
pub const ATTINY1626_RAMSTART: u16 = 0x3800;

/// The address map of the ATtiny1626 is in ascending order and free of
/// overlap.
pub proof fn lemma_attiny1626_map_ordered()
    ensures
        ordered(attiny1626_map()),
{
    reveal(ordered);
    let map = attiny1626_map();
    assert forall|i: int| 0 <= i < map.len() implies #[trigger] map[i].base + map[i].size
        <= usize::MAX by {
        assert(map[i].base + map[i].size <= 0xC000);
    }
    assert forall|i: int, j: int| 0 <= i < j < map.len() implies #[trigger] map[i].base
        + map[i].size <= #[trigger] map[j].base by {
        assert(map[i].base + map[i].size <= map[i + 1].base);
        assert(map[i + 1].base <= map[j].base);
    }
}

/// The addresses from 0x3800 to 0x3FFF lead to the SRAM.
pub proof fn lemma_sram_located(address: usize)
    requires
        ATTINY1626_RAMSTART <= address <= ATTINY1626_RAMEND,
    ensures
        locate(attiny1626_map(), address) == Some((DEV_SRAM, (address - 0x3800) as usize)),
{
    lemma_attiny1626_map_ordered();
    lemma_locate_hit(attiny1626_map(), address, 29);
}

/// A byte written to the SRAM through the data space is the byte read back
/// from the same address, and a write elsewhere in the SRAM leaves it alone.
pub proof fn law_sram_write_then_read(m: DataSpaceModel, address: usize, value: u8, other: usize)
    requires
        m.map == attiny1626_map(),
        m.sram.bytes.len() == 0x800,
        !m.sram.read_only,
        ATTINY1626_RAMSTART <= address <= ATTINY1626_RAMEND,
        ATTINY1626_RAMSTART <= other <= ATTINY1626_RAMEND,
    ensures
        m.write(address, value).read(address).0 == value,
        other != address ==> m.write(address, value).read(other).0 == m.read(other).0,
        m.write(address, value).read(address).2 == m.write(address, value),
{
    lemma_sram_located(address);
    lemma_sram_located(other);
}

/// The data space of the ATtiny1626 keeps a word on a stack that lies in the
/// SRAM, and a byte at every address of the SRAM: the hypotheses of the laws
/// of the core on calls, interrupts and the stack hold on this device.
pub proof fn law_sram_keeps_the_stack(m: DataSpaceModel, sp: u16, word: u16, value: u8)
    requires
        m.map == attiny1626_map(),
        m.sram.bytes.len() == 0x800,
        !m.sram.read_only,
        ATTINY1626_RAMSTART <= sp <= ATTINY1626_RAMEND,
    ensures
        keeps_byte::<DataSpace>(m, sp, value),
        sp > ATTINY1626_RAMSTART ==> keeps_word::<DataSpace>(m, sp, word),
{
    lemma_sram_located(sp as usize);
    if sp > ATTINY1626_RAMSTART {
        lemma_sram_located((sp - 1) as usize);
    }
}

/// The last address of the SRAM of the ATtiny1626, where the stack starts.
pub const ATTINY1626_RAMEND: u16 = 0x3FFF;

/// The analog input with the given number, from 1 to 15, of the ATtiny1626:
/// the index of its port and the number of its pin.
pub open spec fn attiny1626_ain(input: int) -> (usize, u8) {
    if input <= 7 {
        (0, input as u8)
    } else if input == 8 {
        (1, 5)
    } else if input == 9 {
        (1, 4)
    } else if input == 10 {
        (1, 1)
    } else if input == 11 {
        (1, 0)
    } else {
        (2, (input - 12) as u8)
    }
}

/// The blocks of the ATtiny1626 that are not modelled are read-only and hold
/// zeros, but for the revision in SYSCFG and one fuse.
pub open spec fn attiny1626_stubs_reset(stubs: Seq<MemoryModel>) -> bool {
    &&& stubs.len() == STUBS
    &&& forall|i: int| 0 <= i < STUBS ==> (#[trigger] stubs[i]).read_only
    &&& stubs[0].bytes.len() == 1
    &&& stubs[1].bytes.len() == 0x0C
    &&& stubs[2].bytes.len() == 3
    &&& stubs[3].bytes.len() == 8
    &&& stubs[4].bytes.len() == 0x0F
    &&& stubs[5].bytes == seq![0x00u8, 0x04u8]
    &&& stubs[6].bytes.len() == 9
    &&& stubs[7].bytes == seq![0x00u8, 0x00u8, 0x7Eu8]
    &&& stubs[8].bytes.len() == 0x80
    &&& stubs[9].bytes.len() == 0x100
    &&& forall|i: int, k: int|
        0 <= i < STUBS && i != 5 && i != 7 && 0 <= k < (#[trigger] stubs[i]).bytes.len()
            ==> #[trigger] stubs[i].bytes[k] == 0
}

/// The core and the data space of an ATtiny1626 after reset, with the pins of
/// the ports attached to the nets that `port_nets` gives for a port and a
/// pin. The SPI and the USARTs are routed as on the QUTy board.
pub open spec fn attiny1626_reset(
    core: Core,
    mm: DataSpaceModel,
    port_nets: spec_fn(int, int) -> Option<usize>,
) -> bool {
    &&& core.variant == CoreType::AVRxt
    &&& forall|i: int| 0 <= i < 32 ==> core.regs[i] == 0
    &&& core.sreg == 0
    &&& core.pc == 0
    &&& core.sp == ATTINY1626_RAMEND
    &&& core.busy == 0
    &&& !core.interrupt_inhibit
    &&& !core.debug
    &&& core.last == crate::cores::Step::Reset
    &&& core.sram == Some((ATTINY1626_RAMSTART, ATTINY1626_RAMEND))
    &&& mm.wf()
    &&& mm.map == attiny1626_map()
    &&& mm.flash == (MemoryModel {
        bytes: Seq::new(0x4000, |i: int| 0xFFu8),
        lat: 0,
        read_only: false,
    })
    &&& mm.sram == (MemoryModel { bytes: Seq::new(0x800, |i: int| 0u8), lat: 0, read_only: false })
    &&& mm.gpio == (MemoryModel { bytes: Seq::new(4, |i: int| 0u8), lat: 0, read_only: false })
    &&& attiny1626_stubs_reset(mm.stubs)
    &&& mm.ports[0].name@ == "PORTA"@
    &&& mm.ports[1].name@ == "PORTB"@
    &&& mm.ports[2].name@ == "PORTC"@
    &&& mm.ports[0].is_reset(|i: int| port_nets(0, i))
    &&& mm.ports[1].is_reset(|i: int| port_nets(1, i))
    &&& mm.ports[2].is_reset(|i: int| port_nets(2, i))
    &&& mm.cpu.is_reset()
    &&& mm.clkctrl.is_reset()
    &&& mm.cpuint.is_reset(attiny1626_sources())
    &&& mm.portmux.is_reset()
    &&& mm.portmux.name@ == "PORTMUX"@
    &&& mm.adc0.is_reset(mm.adc0.ain)
    &&& mm.adc0.name@ == "ADC0"@
    &&& forall|i: int| 0 <= i < 15 ==> #[trigger] mm.adc0.ain[i] == attiny1626_ain(i + 1)
    &&& mm.usarts[0].is_reset(1, mm.usarts[0].pins, 0, mm.usarts[0].pins_alt)
    &&& mm.usarts[0].name@ == "USART0"@
    &&& mm.usarts[0].pins@ == seq![3u8, 2u8, 1u8, 0u8]
    &&& mm.usarts[0].pins_alt@ == seq![2u8, 1u8, 3u8, 4u8]
    &&& mm.usarts[1].is_reset(0, mm.usarts[1].pins, 2, mm.usarts[1].pins_alt)
    &&& mm.usarts[1].name@ == "USART1"@
    &&& mm.usarts[1].pins@ == seq![2u8, 1u8, 3u8, 4u8]
    &&& mm.usarts[1].pins_alt@ == seq![1u8, 2u8, 0u8, 3u8]
    &&& mm.spi0.is_reset(0, mm.spi0.pins, 2, mm.spi0.pins_alt, true)
    &&& mm.spi0.name@ == "SPI0"@
    &&& mm.spi0.pins@ == seq![1u8, 2u8, 3u8, 4u8]
    &&& mm.spi0.pins_alt@ == seq![2u8, 1u8, 0u8, 3u8]
    &&& mm.tca0.is_reset(1, mm.tca0.pins, mm.tca0.pins_alt)
    &&& mm.tca0.name@ == "TCA0"@
    &&& mm.tca0.pins@ == seq![0u8, 1u8, 3u8]
    &&& mm.tca0.pins_alt@ == seq![3u8, 4u8, 5u8]
    &&& mm.tcbs[0].is_reset()
    &&& mm.tcbs[0].name@ == "TCB0"@
    &&& mm.tcbs[1].is_reset()
    &&& mm.tcbs[1].name@ == "TCB1"@
    &&& mm.stdio == (StdioModel {
        name: "STDIO"@,
        out: Seq::<u8>::empty(),
        outfile: "stdout.txt"@,
        input: Seq::<u8>::empty(),
    })
    &&& mm.fault is None
    &&& mm.notice is None
}

fn rom(size: usize) -> (memory: Memory)
    ensures
        memory@ == (MemoryModel { bytes: Seq::new(size as nat, |i: int| 0u8), lat: 0, read_only: true }),
{
    let blank = Memory::new(size, 0x00, 0);
    Memory::new_rom(blank.mem, 0)
}

fn attiny1626_memory_map() -> (map: MemoryMap)
    ensures
        map.wf(),
        map.mm@ == attiny1626_map(),
{
    let mut mm = MemoryMap::new();
    mm.add(0x0000, 4, DEV_VPORTA);
    mm.add(0x0004, 4, DEV_VPORTB);
    mm.add(0x0008, 4, DEV_VPORTC);
    mm.add(0x001C, 4, DEV_GPIO);
    mm.add(0x0030, 0x10, DEV_CPU);
    mm.add(0x0050, 1, DEV_SLPCTRL);
    mm.add(0x0060, 0x1D, DEV_CLKCTRL);
    mm.add(0x0080, 0x0C, DEV_BOD);
    mm.add(0x0110, 4, DEV_CPUINT);
    mm.add(0x0120, 3, DEV_CRCSCAN);
    mm.add(0x0400, 0x18, DEV_PORTA);
    mm.add(0x0420, 0x18, DEV_PORTB);
    mm.add(0x0440, 0x18, DEV_PORTC);
    mm.add(0x05E0, 6, DEV_PORTMUX);
    mm.add(0x0600, 0x20, DEV_ADC0);
    mm.add(0x0680, 8, DEV_AC0);
    mm.add(0x0800, 0x0F, DEV_USART0);
    mm.add(0x0820, 0x0F, DEV_USART1);
    mm.add(0x08A0, 0x0F, DEV_TWI0);
    mm.add(0x08C0, 5, DEV_SPI0);
    mm.add(0x0A00, 0x3E, DEV_TCA0);
    mm.add(0x0A80, 0x0E, DEV_TCB0);
    mm.add(0x0A90, 0x0E, DEV_TCB1);
    mm.add(0x0F00, 2, DEV_SYSCFG);
    mm.add(0x1000, 9, DEV_NVMCTRL);
    mm.add(0x1280, 3, DEV_FUSE);
    mm.add(0x1300, 0x80, DEV_USERROW);
    mm.add(0x1400, 0x100, DEV_EEPROM);
    mm.add(0x1500, 3, DEV_STDIO);
    mm.add(0x3800, 0x800, DEV_SRAM);
    mm.add(0x8000, 0x4000, DEV_FLASH);
    proof {
        assert(mm.mm@ =~= attiny1626_map());
    }
    mm
}

fn attiny1626_interrupts() -> (cpuint: Cpuint)
    ensures
        cpuint@.wf(),
        cpuint@.is_reset(attiny1626_sources()),
{
    let mut cpuint = Cpuint::new();
    cpuint.add_source(8, DEV_TCA0, 0x01);
    cpuint.add_source(10, DEV_TCA0, 0x10);
    cpuint.add_source(11, DEV_TCA0, 0x20);
    cpuint.add_source(12, DEV_TCA0, 0x40);
    cpuint.add_source(13, DEV_TCB0, 0x03);
    cpuint.add_source(16, DEV_SPI0, 0xF1);
    cpuint.add_source(17, DEV_USART0, 0x80);
    cpuint.add_source(18, DEV_USART0, 0x20);
    cpuint.add_source(19, DEV_USART0, 0x40);
    cpuint.add_source(22, DEV_ADC0, 0x01);
    cpuint.add_source(25, DEV_TCB1, 0x03);
    cpuint.add_source(26, DEV_USART1, 0x80);
    cpuint.add_source(27, DEV_USART1, 0x20);
    cpuint.add_source(28, DEV_USART1, 0x40);
    cpuint.add_source(6, DEV_PORTA, 0xFF);
    cpuint.add_source(7, DEV_PORTB, 0xFF);
    cpuint.add_source(24, DEV_PORTC, 0xFF);
    proof {
        assert(cpuint@.sources =~= attiny1626_sources());
    }
    cpuint
}

fn attiny1626_stubs() -> (stubs: Vec<Memory>)
    ensures
        attiny1626_stubs_reset(Seq::new(stubs@.len(), |i: int| stubs@[i]@)),
{
    let mut stubs: Vec<Memory> = Vec::new();
    stubs.push(rom(0x01));
    stubs.push(rom(0x0C));
    stubs.push(rom(0x03));
    stubs.push(rom(0x08));
    stubs.push(rom(0x0F));
    let mut syscfg: Vec<u8> = Vec::new();
    syscfg.push(0x00);
    syscfg.push(0x04);
    stubs.push(Memory::new_rom(syscfg, 0));
    stubs.push(rom(0x09));
    let mut fuse: Vec<u8> = Vec::new();
    fuse.push(0x00);
    fuse.push(0x00);
    fuse.push(0x7E);
    stubs.push(Memory::new_rom(fuse, 0));
    stubs.push(rom(0x80));
    stubs.push(rom(0x100));
    proof {
        assert(stubs@[5]@.bytes =~= seq![0x00u8, 0x04u8]);
        assert(stubs@[7]@.bytes =~= seq![0x00u8, 0x00u8, 0x7Eu8]);
    }
    stubs
}

/// The microcontroller.
#[allow(non_snake_case)]
pub struct Device {
    pub core: Core,
    pub mm: DataSpace,
    /// The last address of the SRAM.
    pub RAMEND: u16,
}

/// The bytes read from the data space at the `n` addresses after `sp`, in
/// ascending order, and the data space after the reads.
pub open spec fn stack_read(m: DataSpaceModel, sp: u16, n: int) -> (Seq<u8>, DataSpaceModel)
    decreases n,
{
    if n <= 0 {
        (Seq::empty(), m)
    } else {
        let before = stack_read(m, sp, n - 1);
        let got = before.1.read((sp + n) as usize);
        (before.0.push(got.0), got.2)
    }
}

/// A program memory after the first `n` of the records that a reader yielded
/// have been taken in: one that can be written holds their bytes, one that
/// cannot keeps what it has.
pub open spec fn loaded(
    flash: MemoryModel,
    records: Seq<Result<HexRecord, HexError>>,
    n: int,
) -> MemoryModel {
    if flash.read_only {
        flash
    } else {
        MemoryModel { bytes: programmed(flash.bytes, records, n).0, ..flash }
    }
}

impl Device {
    /// The parts of the device are well-formed.
    pub open spec fn wf(&self) -> bool {
        self.mm@.wf()
    }

    /// A device after reset: the program memory erased to 0xFF, the data
    /// memory cleared, every peripheral in its reset state, the stack pointer
    /// at the end of the SRAM, the clock at 3.33 MHz, and no pin attached to
    /// a net.
    pub fn new(dt: DeviceType) -> (device: Device)
        ensures
            device.wf(),
            device.RAMEND == ATTINY1626_RAMEND,
            attiny1626_reset(device.core, device.mm@, |p: int, i: int| None::<usize>),
    {
        match dt {
            DeviceType::ATtiny1626 => {
                let clkctrl = Clkctrl::new();
                let cpu = Cpu::new();
                let flash = Memory::new(16 * 1024, 0xFF, 0);
                let sram = Memory::new(2 * 1024, 0x00, 0);
                let gpio = Memory::new(4, 0x00, 0);
                let porta = Port::new(String::from_str("PORTA"));
                let portb = Port::new(String::from_str("PORTB"));
                let portc = Port::new(String::from_str("PORTC"));
                let portmux = Portmux::new(String::from_str("PORTMUX"));
                let mut spi0 = Spi::new(String::from_str("SPI0"), 0, [1, 2, 3, 4], 2, [2, 1, 0, 3]);
                spi0.mux_alt = true;
                let usart0 = Usart::new(
                    String::from_str("USART0"),
                    1,
                    [3, 2, 1, 0],
                    0,
                    [2, 1, 3, 4],
                );
                let usart1 = Usart::new(
                    String::from_str("USART1"),
                    0,
                    [2, 1, 3, 4],
                    2,
                    [1, 2, 0, 3],
                );
                let tca0 = Tca::new(String::from_str("TCA0"), 1, [0, 1, 3], [3, 4, 5]);
                let tcb0 = Tcb::new(String::from_str("TCB0"));
                let tcb1 = Tcb::new(String::from_str("TCB1"));
                let adc0 = Adc::new(
                    String::from_str("ADC0"),
                    [
                        (0, 1),
                        (0, 2),
                        (0, 3),
                        (0, 4),
                        (0, 5),
                        (0, 6),
                        (0, 7),
                        (1, 5),
                        (1, 4),
                        (1, 1),
                        (1, 0),
                        (2, 0),
                        (2, 1),
                        (2, 2),
                        (2, 3),
                    ],
                );
                let stdio = Stdio::new(String::from_str("STDIO"), String::from_str("stdout.txt"));
                let cpuint = attiny1626_interrupts();
                let mm = DataSpace {
                    map: attiny1626_memory_map(),
                    flash,
                    sram,
                    gpio,
                    stubs: attiny1626_stubs(),
                    ports: [porta, portb, portc],
                    cpu,
                    clkctrl,
                    cpuint,
                    portmux,
                    adc0,
                    usarts: [usart0, usart1],
                    spi0,
                    tca0,
                    tcbs: [tcb0, tcb1],
                    stdio,
                    fault: None,
                    notice: None,
                };
                let mut core = Core::new(CoreType::AVRxt, ATTINY1626_RAMEND);
                core.map_sram(ATTINY1626_RAMSTART, ATTINY1626_RAMEND);
                Device { core, mm, RAMEND: ATTINY1626_RAMEND }
            },
        }
    }

    /// Takes the records that a reader yielded into the program memory, in
    /// order: the bytes of each data record are written from the record's
    /// offset on; other records are passed over. The first item that is an
    /// error ends the loading and is returned; what was taken in before it
    /// stays.
    pub fn programme(&mut self, records: &Vec<Result<HexRecord, HexError>>) -> (r: Result<
        (),
        HexError,
    >)
        requires
            old(self).wf(),
        ensures
            final(self).wf(),
            final(self).core == old(self).core,
            final(self).RAMEND == old(self).RAMEND,
            final(self).mm@ == (DataSpaceModel {
                flash: loaded(old(self).mm@.flash, records@, records@.len() as int),
                ..old(self).mm@
            }),
            match programmed(old(self).mm@.flash.bytes, records@, records@.len() as int).1 {
                Some(error) => r == Err::<(), HexError>(error),
                None => r == Ok::<(), HexError>(()),
            },
    {
        let mut i: usize = 0;
        while i < records.len()
            invariant
                i <= records@.len(),
                self.wf(),
                self.core == old(self).core,
                self.RAMEND == old(self).RAMEND,
                programmed(old(self).mm@.flash.bytes, records@, i as int).1 is None,
                self.mm@ == (DataSpaceModel {
                    flash: loaded(old(self).mm@.flash, records@, i as int),
                    ..old(self).mm@
                }),
            decreases records@.len() - i,
        {
            match &records[i] {
                Ok(HexRecord::Data { offset, value }) => {
                    let ghost start = self.mm@.flash.bytes;
                    let size = self.mm.flash.get_size();
                    let mut k: usize = 0;
                    while k < value.len()
                        invariant
                            k <= value@.len(),
                            size == start.len(),
                            self.wf(),
                            self.core == old(self).core,
                            self.RAMEND == old(self).RAMEND,
                            self.mm@ == (DataSpaceModel {
                                flash: MemoryModel {
                                    bytes: if old(self).mm@.flash.read_only {
                                        start
                                    } else {
                                        placed(start, *offset as int, value@, k as int)
                                    },
                                    ..old(self).mm@.flash
                                },
                                ..old(self).mm@
                            }),
                        decreases value@.len() - k,
                    {
                        proof {
                            lemma_placed_len(start, *offset as int, value@, k as int);
                        }
                        if k <= usize::MAX - (*offset as usize) {
                            self.mm.flash.write(*offset as usize + k, value[k]);
                        }
                        k += 1;
                        assert(!old(self).mm@.flash.read_only ==> self.mm@.flash.bytes == placed(
                            start,
                            *offset as int,
                            value@,
                            k as int,
                        ));
                    }
                },
                Ok(_) => {},
                Err(error) => {
                    proof {
                        lemma_programmed_stops(
                            old(self).mm@.flash.bytes,
                            records@,
                            i as int + 1,
                            records@.len() as int,
                        );
                    }
                    return Err(*error);
                },
            }
            i += 1;
        }
        Ok(())
    }

    /// Loads a firmware image given as the text of an Intel HEX file. What
    /// the text holds is read by `ihex`; see `programme` for what is done
    /// with it.
    pub fn load_hex(&mut self, text: &str) -> (r: Result<(), HexError>)
        requires
            old(self).wf(),
        ensures
            final(self).wf(),
            final(self).core == old(self).core,
            final(self).RAMEND == old(self).RAMEND,
            final(self).mm@ == (DataSpaceModel {
                flash: loaded(
                    old(self).mm@.flash,
                    hex_records(text@),
                    hex_records(text@).len() as int,
                ),
                ..old(self).mm@
            }),
            match programmed(
                old(self).mm@.flash.bytes,
                hex_records(text@),
                hex_records(text@).len() as int,
            ).1 {
                Some(error) => r == Err::<(), HexError>(error),
                None => r == Ok::<(), HexError>(()),
            },
    {
        let records = read_hex(text);
        self.programme(&records)
    }

    /// The device and the nanoseconds that went by after one clock cycle:
    /// the core ticks, then every clocked peripheral; the time is the clock
    /// period, or zero when the core has stopped.
    pub open spec fn tick_spec(self, time: u64) -> (Core, DataSpaceModel, u64) {
        let core = self.core.tick_of::<DataSpace>(self.mm@);
        let clocked = core.1.clocked(time);
        (
            core.0,
            clocked,
            if core.2 {
                clocked.clkctrl.clock_period
            } else {
                0
            },
        )
    }

    /// The core stops in the next clock cycle: it meets `BREAK`, or its
    /// program counter cannot advance.
    pub open spec fn stops(self) -> bool {
        !self.core.tick_of::<DataSpace>(self.mm@).2
    }

    /// Advances the device by one clock cycle and returns the nanoseconds
    /// that went by. The clock period is never zero, so zero is returned
    /// exactly when the core has stopped.
    pub fn tick(&mut self, time: u64) -> (step: u64)
        requires
            old(self).wf(),
        ensures
            final(self).wf(),
            final(self).RAMEND == old(self).RAMEND,
            (final(self).core, final(self).mm@, step) == old(self).tick_spec(time),
            step == 0 <==> old(self).stops(),
    {
        let result = self.core.tick(&mut self.mm);
        self.mm.tick_peripherals(time);
        if result {
            self.mm.clkctrl.clock_period()
        } else {
            0
        }
    }

    /// Lets the ports sample their nets.
    pub fn update(&mut self, time: u64, nets: &Vec<Net>)
        requires
            old(self).wf(),
        ensures
            final(self).wf(),
            final(self).core == old(self).core,
            final(self).RAMEND == old(self).RAMEND,
            final(self).mm@ == old(self).mm@.updated(nets@),
    {
        self.mm.update(time, nets);
    }

    /// The values of the thirty-two working registers.
    pub fn dump_regs(&self) -> (regs: Vec<u8>)
        ensures
            regs@.len() == 32,
            forall|i: int| 0 <= i < 32 ==> regs@[i] == self.core.regs[i],
    {
        let mut regs: Vec<u8> = Vec::new();
        let mut i: u8 = 0;
        while i < 32
            invariant
                i <= 32,
                regs@.len() == i,
                forall|k: int| 0 <= k < i ==> regs@[k] == self.core.regs[k],
            decreases 32 - i,
        {
            regs.push(self.core.get_register(i));
            i += 1;
        }
        regs
    }

    /// The bytes on the stack, read through the data space from the address
    /// above the stack pointer up to the end of the SRAM.
    pub fn dump_stack(&mut self) -> (bytes: Vec<u8>)
        requires
            old(self).wf(),
        ensures
            final(self).wf(),
            final(self).core == old(self).core,
            final(self).RAMEND == old(self).RAMEND,
            (bytes@, final(self).mm@) == stack_read(
                old(self).mm@,
                old(self).core.sp,
                if old(self).core.sp < old(self).RAMEND {
                    old(self).RAMEND - old(self).core.sp
                } else {
                    0
                },
            ),
    {
        let start = self.core.get_stack_pointer();
        let mut bytes: Vec<u8> = Vec::new();
        let mut sp = start;
        while sp < self.RAMEND
            invariant
                self.wf(),
                self.core == old(self).core,
                self.RAMEND == old(self).RAMEND,
                start == old(self).core.sp,
                start <= sp,
                start < self.RAMEND ==> sp <= self.RAMEND,
                start >= self.RAMEND ==> sp == start,
                (bytes@, self.mm@) == stack_read(old(self).mm@, start, sp - start),
            decreases self.RAMEND - sp,
        {
            sp += 1;
            let (byte, _) = self.mm.read(sp as usize);
            bytes.push(byte);
        }
        proof {
            if start < self.RAMEND {
                assert(sp == self.RAMEND);
            } else {
                assert(sp == start);
            }
        }
        bytes
    }
}

/// Placing bytes leaves the size of the memory as it is.
pub proof fn lemma_placed_len(bytes: Seq<u8>, offset: int, value: Seq<u8>, n: int)
    requires
        0 <= offset,
    ensures
        placed(bytes, offset, value, n).len() == bytes.len(),
    decreases n,
{
    if n > 0 {
        lemma_placed_len(bytes, offset, value, n - 1);
    }
}

/// Nothing is taken in after an error: once the reading has ended, further
/// items change neither the memory nor the error.
pub proof fn lemma_programmed_stops(
    bytes: Seq<u8>,
    records: Seq<Result<HexRecord, HexError>>,
    n: int,
    m: int,
)
    requires
        0 <= n <= m,
        programmed(bytes, records, n).1 is Some,
    ensures
        programmed(bytes, records, m) == programmed(bytes, records, n),
    decreases m - n,
{
    if n < m {
        lemma_programmed_stops(bytes, records, n, m - 1);
    }
}

} // verus!
