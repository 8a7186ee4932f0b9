//! The I/O ports and their compressed virtual views.
//!
//! A port has eight pins. Each pin drives its net according to the port's
//! direction and output registers, unless a peripheral has taken the pin
//! over, and the port's input register follows the levels of the nets.

use crate::bits::{bit8, test_bit8};
use crate::memory::MemoryMapped;
use crate::nets::{Net, NetState, PinState};
use crate::peripherals::InterruptSource;
use vstd::array::spec_array_update;
use vstd::prelude::*;

verus! {

pub const PORT_DIR: usize = 0x00;

pub const PORT_DIRSET: usize = 0x01;

pub const PORT_DIRCLR: usize = 0x02;

pub const PORT_DIRTGL: usize = 0x03;

pub const PORT_OUT: usize = 0x04;

pub const PORT_OUTSET: usize = 0x05;

pub const PORT_OUTCLR: usize = 0x06;

pub const PORT_OUTTGL: usize = 0x07;

pub const PORT_IN: usize = 0x08;

pub const PORT_INTFLAGS: usize = 0x09;

pub const PORT_PORTCTRL: usize = 0x0A;

pub const PORT_PIN0CTRL: usize = 0x10;

pub const PORT_PIN7CTRL: usize = 0x17;

/// The input/sense configuration of a pin.
#[allow(non_camel_case_types)]
#[derive(Clone, Copy, Debug, PartialEq, Eq, Structural)]
pub enum ISC {
    INTDISABLE,
    BOTHEDGES,
    RISING,
    FALLING,
    INPUTDISABLE,
    LEVEL,
    RESERVED,
}

impl ISC {
    /// The configuration that a three-bit field selects.
    #[verifier::allow_in_spec]
    pub fn from(val: u8) -> ISC
        returns
            (if val == 0 {
                ISC::INTDISABLE
            } else if val == 1 {
                ISC::BOTHEDGES
            } else if val == 2 {
                ISC::RISING
            } else if val == 3 {
                ISC::FALLING
            } else if val == 4 {
                ISC::INPUTDISABLE
            } else if val == 5 {
                ISC::LEVEL
            } else {
                ISC::RESERVED
            }),
    {
        if val == 0 {
            ISC::INTDISABLE
        } else if val == 1 {
            ISC::BOTHEDGES
        } else if val == 2 {
            ISC::RISING
        } else if val == 3 {
            ISC::FALLING
        } else if val == 4 {
            ISC::INPUTDISABLE
        } else if val == 5 {
            ISC::LEVEL
        } else {
            ISC::RESERVED
        }
    }
}

/// One pin of a port.
#[derive(Clone, Copy, Debug, PartialEq, Eq, Structural)]
pub struct PortIO {
    /// What the pin puts on its net.
    pub pin: PinState,
    /// The handle of the net that the pin is attached to, if any.
    pub net: Option<usize>,
    /// The level of that net when the port was last updated.
    pub sensed: NetState,
    pub dir: bool,
    pub out: bool,
    pub pullup_en: bool,
    pub invert_en: bool,
    pub input_dis: bool,
    pub isc: ISC,
    /// A peripheral overrides the output value with `po_out_val`.
    pub po_out: bool,
    pub po_out_val: bool,
    /// A peripheral overrides the direction with `po_dir_val`.
    pub po_dir: bool,
    pub po_dir_val: bool,
}

impl PortIO {
    /// An unattached input pin.
    #[verifier::allow_in_spec]
    pub fn new() -> PortIO
        returns
            (PortIO {
                pin: PinState::Open,
                net: None,
                sensed: NetState::Undefined,
                dir: false,
                out: false,
                pullup_en: false,
                invert_en: false,
                input_dis: false,
                isc: ISC::INTDISABLE,
                po_out: false,
                po_out_val: false,
                po_dir: false,
                po_dir_val: false,
            }),
    {
        PortIO {
            pin: PinState::Open,
            net: None,
            sensed: NetState::Undefined,
            dir: false,
            out: false,
            pullup_en: false,
            invert_en: false,
            input_dis: false,
            isc: ISC::INTDISABLE,
            po_out: false,
            po_out_val: false,
            po_dir: false,
            po_dir_val: false,
        }
    }

    /// What the pin puts on its net: a driven pin (by its direction bit or by
    /// an overriding peripheral) drives the overriding value if there is one
    /// and the output bit otherwise; an undriven pin pulls up if its pull-up
    /// is enabled and is open otherwise.
    pub open spec fn pinstate(self) -> PinState {
        if self.dir || (self.po_dir && self.po_dir_val) {
            if self.po_out {
                if self.po_out_val {
                    PinState::DriveH
                } else {
                    PinState::DriveL
                }
            } else if self.out {
                PinState::DriveH
            } else {
                PinState::DriveL
            }
        } else if self.pullup_en {
            PinState::WeakPullUp
        } else {
            PinState::Open
        }
    }

    /// The pin with its state brought up to date.
    pub open spec fn refreshed(self) -> PortIO {
        PortIO { pin: self.pinstate(), ..self }
    }

    /// Brings the pin's state up to date with its configuration.
    pub fn update_pinstate(&mut self)
        ensures
            *final(self) == old(self).refreshed(),
    {
        if self.dir || (self.po_dir && self.po_dir_val) {
            if self.po_out {
                if self.po_out_val {
                    self.pin = PinState::DriveH;
                } else {
                    self.pin = PinState::DriveL;
                }
            } else if self.out {
                self.pin = PinState::DriveH;
            } else {
                self.pin = PinState::DriveL;
            }
        } else if self.pullup_en {
            self.pin = PinState::WeakPullUp;
        } else {
            self.pin = PinState::Open;
        }
    }

    /// Attaches the pin to a net.
    pub fn connect(&mut self, net: usize)
        ensures
            *final(self) == (PortIO { net: Some(net), ..*old(self) }),
    {
        self.net = Some(net);
    }

    /// The pin after its control register has been given `ctrl`: inversion
    /// from bit 7, pull-up from bit 3, input/sense configuration from bits 2
    /// to 0; the input stays disabled once it has been.
    pub open spec fn configured(self, ctrl: u8) -> PortIO {
        (PortIO {
            invert_en: ctrl & 0x80 != 0,
            pullup_en: ctrl & 0x08 != 0,
            isc: ISC::from(ctrl & 0x07),
            input_dis: self.input_dis || ISC::from(ctrl & 0x07) == ISC::INPUTDISABLE,
            ..self
        }).refreshed()
    }

    /// The pin after its net has been sampled at `level`.
    pub open spec fn sampled(self, level: NetState) -> PortIO {
        PortIO { sensed: level, ..self }
    }
}

/// An eight-pin I/O port.
pub struct Port {
    pub name: String,
    pub pio: [PortIO; 8],
    pub regs: [u8; 0x18],
}

/// The pins with the direction bits of the first `n` taken from `dir`.
pub open spec fn dirs_applied(pio: [PortIO; 8], dir: u8, n: int) -> [PortIO; 8]
    decreases n,
{
    if n <= 0 {
        pio
    } else {
        spec_array_update(
            dirs_applied(pio, dir, n - 1),
            n - 1,
            (PortIO { dir: dir & (1u8 << ((n - 1) as u8)) != 0, ..pio[n - 1] }).refreshed(),
        )
    }
}

/// The pins with the output bits of the first `n` taken from `out`.
pub open spec fn outs_applied(pio: [PortIO; 8], out: u8, n: int) -> [PortIO; 8]
    decreases n,
{
    if n <= 0 {
        pio
    } else {
        spec_array_update(
            outs_applied(pio, out, n - 1),
            n - 1,
            (PortIO { out: out & (1u8 << ((n - 1) as u8)) != 0, ..pio[n - 1] }).refreshed(),
        )
    }
}

/// The input register after the first `n` pins have been sampled: a high net
/// sets the pin's bit, a low net clears it, any other level leaves it.
pub open spec fn input_sampled(input: u8, levels: Seq<NetState>, n: int) -> u8
    decreases n,
{
    if n <= 0 {
        input
    } else {
        let before = input_sampled(input, levels, n - 1);
        match levels[n - 1] {
            NetState::High => before | (1u8 << ((n - 1) as u8)),
            NetState::Low => before & !(1u8 << ((n - 1) as u8)),
            _ => before,
        }
    }
}

/// The level that a pin senses: that of its net, or undefined where the pin
/// is attached to none of the nets given.
pub open spec fn level_of(io: PortIO, nets: Seq<Net>) -> NetState {
    match io.net {
        Some(handle) => if handle < nets.len() {
            nets[handle as int].state
        } else {
            NetState::Undefined
        },
        None => NetState::Undefined,
    }
}

/// The pins after the first `n` have sampled their nets.
pub open spec fn pins_sampled(pio: [PortIO; 8], nets: Seq<Net>, n: int) -> [PortIO; 8]
    decreases n,
{
    if n <= 0 {
        pio
    } else {
        spec_array_update(
            pins_sampled(pio, nets, n - 1),
            n - 1,
            pio[n - 1].sampled(level_of(pio[n - 1], nets)),
        )
    }
}

impl Port {
    /// The port is in its reset state but for the nets that its pins are
    /// attached to, which are those that `nets` gives.
    pub open spec fn is_reset(self, nets: spec_fn(int) -> Option<usize>) -> bool {
        &&& forall|i: int|
            0 <= i < 8 ==> #[trigger] self.pio[i] == (PortIO { net: nets(i), ..PortIO::new() })
        &&& forall|i: int| 0 <= i < 0x18 ==> self.regs[i] == 0
    }

    /// A port with all pins unattached inputs and all registers cleared.
    pub fn new(name: String) -> (port: Port)
        ensures
            port.name@ == name@,
            port.is_reset(|i: int| None::<usize>),
    {
        Port {
            name,
            pio: [
                PortIO::new(),
                PortIO::new(),
                PortIO::new(),
                PortIO::new(),
                PortIO::new(),
                PortIO::new(),
                PortIO::new(),
                PortIO::new(),
            ],
            regs: [0u8; 0x18],
        }
    }

    /// The port with pin `n` replaced.
    pub open spec fn with_pin(self, n: int, io: PortIO) -> Port {
        Port { pio: spec_array_update(self.pio, n, io), ..self }
    }

    /// The port with register `address` replaced.
    pub open spec fn with_reg(self, address: int, value: u8) -> Port {
        Port { regs: spec_array_update(self.regs, address, value), ..self }
    }

    /// Attaches pin `pin_index` to the net with handle `net`.
    pub fn connect(&mut self, pin_index: u8, net: usize)
        requires
            pin_index < 8,
        ensures
            *final(self) == old(self).with_pin(
                pin_index as int,
                PortIO { net: Some(net), ..old(self).pio[pin_index as int] },
            ),
    {
        self.pio[pin_index as usize].connect(net);
    }

    /// The port with every pin's direction taken from the DIR register.
    pub open spec fn dir_synced(self) -> Port {
        Port { pio: dirs_applied(self.pio, self.regs[PORT_DIR as int], 8), ..self }
    }

    /// The port with every pin's output value taken from the OUT register.
    pub open spec fn out_synced(self) -> Port {
        Port { pio: outs_applied(self.pio, self.regs[PORT_OUT as int], 8), ..self }
    }

    /// The port with pin `n` configured from its control register.
    pub open spec fn pinctrl_synced(self, n: int) -> Port {
        self.with_pin(n, self.pio[n].configured(self.regs[PORT_PIN0CTRL + n]))
    }

    fn update_dir(&mut self)
        ensures
            *final(self) == old(self).dir_synced(),
    {
        let dir = self.regs[PORT_DIR];
        let mut i: usize = 0;
        while i < 8
            invariant
                i <= 8,
                dir == old(self).regs[PORT_DIR as int],
                self.name == old(self).name,
                self.regs == old(self).regs,
                self.pio == dirs_applied(old(self).pio, dir, i as int),
                forall|j: int| i <= j < 8 ==> self.pio[j] == old(self).pio[j],
            decreases 8 - i,
        {
            let mut io = self.pio[i];
            io.dir = dir & (1u8 << (i as u8)) != 0;
            io.update_pinstate();
            self.pio[i] = io;
            i += 1;
        }
    }

    fn update_out(&mut self)
        ensures
            *final(self) == old(self).out_synced(),
    {
        let out = self.regs[PORT_OUT];
        let mut i: usize = 0;
        while i < 8
            invariant
                i <= 8,
                out == old(self).regs[PORT_OUT as int],
                self.name == old(self).name,
                self.regs == old(self).regs,
                self.pio == outs_applied(old(self).pio, out, i as int),
                forall|j: int| i <= j < 8 ==> self.pio[j] == old(self).pio[j],
            decreases 8 - i,
        {
            let mut io = self.pio[i];
            io.out = out & (1u8 << (i as u8)) != 0;
            io.update_pinstate();
            self.pio[i] = io;
            i += 1;
        }
    }

    fn update_pinctrl(&mut self, n: usize)
        requires
            n < 8,
        ensures
            *final(self) == old(self).pinctrl_synced(n as int),
    {
        let ctrl = self.regs[PORT_PIN0CTRL + n];
        let mut io = self.pio[n];
        io.invert_en = ctrl & 0x80 != 0;
        io.pullup_en = ctrl & 0x08 != 0;
        io.isc = ISC::from(ctrl & 0x07);
        if io.isc == ISC::INPUTDISABLE {
            io.input_dis = true;
        }
        io.update_pinstate();
        self.pio[n] = io;
    }

    /// The port after a peripheral has taken over the output value of a pin.
    pub open spec fn po_out_spec(self, pin_index: u8, state: bool) -> Port {
        self.with_pin(
            pin_index as int,
            (PortIO { po_out_val: state, po_out: true, ..self.pio[pin_index as int] }).refreshed(),
        )
    }

    /// A peripheral takes over the output value of a pin.
    pub fn po_out(&mut self, pin_index: u8, state: bool)
        requires
            pin_index < 8,
        ensures
            *final(self) == old(self).po_out_spec(pin_index, state),
    {
        let mut io = self.pio[pin_index as usize];
        io.po_out_val = state;
        io.po_out = true;
        io.update_pinstate();
        self.pio[pin_index as usize] = io;
    }

    /// The port after a peripheral has released the output value of a pin.
    pub open spec fn po_out_clear_spec(self, pin_index: u8) -> Port {
        self.with_pin(
            pin_index as int,
            (PortIO { po_out: false, ..self.pio[pin_index as int] }).refreshed(),
        )
    }

    /// A peripheral releases the output value of a pin.
    pub fn po_out_clear(&mut self, pin_index: u8)
        requires
            pin_index < 8,
        ensures
            *final(self) == old(self).po_out_clear_spec(pin_index),
    {
        let mut io = self.pio[pin_index as usize];
        io.po_out = false;
        io.update_pinstate();
        self.pio[pin_index as usize] = io;
    }

    /// The port after a peripheral has taken over the direction of a pin.
    pub open spec fn po_dir_spec(self, pin_index: u8, state: bool) -> Port {
        self.with_pin(
            pin_index as int,
            (PortIO { po_dir_val: state, po_dir: true, ..self.pio[pin_index as int] }).refreshed(),
        )
    }

    /// A peripheral takes over the direction of a pin.
    pub fn po_dir(&mut self, pin_index: u8, state: bool)
        requires
            pin_index < 8,
        ensures
            *final(self) == old(self).po_dir_spec(pin_index, state),
    {
        let mut io = self.pio[pin_index as usize];
        io.po_dir_val = state;
        io.po_dir = true;
        io.update_pinstate();
        self.pio[pin_index as usize] = io;
    }

    /// The port after a peripheral has released the direction of a pin.
    pub open spec fn po_dir_clear_spec(self, pin_index: u8) -> Port {
        self.with_pin(
            pin_index as int,
            (PortIO { po_dir: false, ..self.pio[pin_index as int] }).refreshed(),
        )
    }

    /// A peripheral releases the direction of a pin.
    pub fn po_dir_clear(&mut self, pin_index: u8)
        requires
            pin_index < 8,
        ensures
            *final(self) == old(self).po_dir_clear_spec(pin_index),
    {
        let mut io = self.pio[pin_index as usize];
        io.po_dir = false;
        io.update_pinstate();
        self.pio[pin_index as usize] = io;
    }

    /// The bit of the input register that belongs to a pin.
    pub fn get_pinstate(&self, pin_index: u8) -> (high: bool)
        requires
            pin_index < 8,
        ensures
            high == bit8(self.regs[PORT_IN as int], pin_index),
    {
        test_bit8(self.regs[PORT_IN], pin_index as usize)
    }

    /// The level that a pin sensed on its net at the last update.
    pub fn get_netstate(&self, pin_index: u8) -> (level: NetState)
        requires
            pin_index < 8,
        ensures
            level == self.pio[pin_index as int].sensed,
    {
        self.pio[pin_index as usize].sensed
    }

    /// The byte read at a register address. Reading changes nothing.
    pub fn peek(&self, address: usize) -> (byte: u8)
        ensures
            byte == self.read_spec(address),
    {
        if address <= PORT_DIRTGL {
            self.regs[PORT_DIR]
        } else if address <= PORT_OUTTGL {
            self.regs[PORT_OUT]
        } else if address == PORT_IN {
            self.regs[PORT_IN]
        } else if address == PORT_INTFLAGS {
            self.regs[PORT_INTFLAGS]
        } else if address == PORT_PORTCTRL {
            self.regs[PORT_PORTCTRL] & 0x01
        } else if PORT_PIN0CTRL <= address && address <= PORT_PIN7CTRL {
            self.regs[address] & 0x8F
        } else {
            0
        }
    }

    /// What a pin currently puts on its net.
    pub fn pin(&self, pin_index: u8) -> (state: PinState)
        requires
            pin_index < 8,
        ensures
            state == self.pio[pin_index as int].pin,
    {
        self.pio[pin_index as usize].pin
    }

    /// The byte read at a register address. The SET, CLR and TGL aliases read
    /// as the register they act on; addresses without a register read as
    /// zero.
    pub open spec fn read_spec(self, address: usize) -> u8 {
        if address <= PORT_DIRTGL {
            self.regs[PORT_DIR as int]
        } else if address <= PORT_OUTTGL {
            self.regs[PORT_OUT as int]
        } else if address == PORT_IN {
            self.regs[PORT_IN as int]
        } else if address == PORT_INTFLAGS {
            self.regs[PORT_INTFLAGS as int]
        } else if address == PORT_PORTCTRL {
            self.regs[PORT_PORTCTRL as int] & 0x01
        } else if PORT_PIN0CTRL <= address <= PORT_PIN7CTRL {
            self.regs[address as int] & 0x8F
        } else {
            0
        }
    }

    /// The port after a write to a register address. Writes to DIR, OUT and
    /// their SET, CLR and TGL aliases update the register and then the pins;
    /// a write to IN toggles OUT; a write to INTFLAGS clears the flags
    /// written as one; addresses without a register ignore the write.
    pub open spec fn write_spec(self, address: usize, value: u8) -> Port {
        let dir = self.regs[PORT_DIR as int];
        let out = self.regs[PORT_OUT as int];
        if address == PORT_DIR {
            self.with_reg(PORT_DIR as int, value).dir_synced()
        } else if address == PORT_DIRSET {
            self.with_reg(PORT_DIR as int, dir | value).dir_synced()
        } else if address == PORT_DIRCLR {
            self.with_reg(PORT_DIR as int, dir & !value).dir_synced()
        } else if address == PORT_DIRTGL {
            self.with_reg(PORT_DIR as int, dir ^ value).dir_synced()
        } else if address == PORT_OUT {
            self.with_reg(PORT_OUT as int, value).out_synced()
        } else if address == PORT_OUTSET {
            self.with_reg(PORT_OUT as int, out | value).out_synced()
        } else if address == PORT_OUTCLR {
            self.with_reg(PORT_OUT as int, out & !value).out_synced()
        } else if address == PORT_OUTTGL || address == PORT_IN {
            self.with_reg(PORT_OUT as int, out ^ value).out_synced()
        } else if address == PORT_INTFLAGS {
            self.with_reg(PORT_INTFLAGS as int, self.regs[PORT_INTFLAGS as int] & !value)
        } else if address == PORT_PORTCTRL {
            self.with_reg(PORT_PORTCTRL as int, value & 0x01)
        } else if PORT_PIN0CTRL <= address <= PORT_PIN7CTRL {
            self.with_reg(address as int, value & 0x8F).pinctrl_synced(address - PORT_PIN0CTRL)
        } else {
            self
        }
    }

    /// The port after its pins have sampled their nets: each pin remembers
    /// the level it saw, and the input register follows the high and low
    /// levels.
    pub open spec fn update_spec(self, nets: Seq<Net>) -> Port {
        Port {
            pio: pins_sampled(self.pio, nets, 8),
            regs: spec_array_update(
                self.regs,
                PORT_IN as int,
                input_sampled(
                    self.regs[PORT_IN as int],
                    Seq::new(8, |i: int| level_of(self.pio[i], nets)),
                    8,
                ),
            ),
            ..self
        }
    }

    /// Samples the nets that the pins are attached to.
    pub fn update(&mut self, _time: u64, nets: &Vec<Net>)
        ensures
            *final(self) == old(self).update_spec(nets@),
    {
        let ghost levels = Seq::new(8, |i: int| level_of(old(self).pio[i], nets@));
        let mut input = self.regs[PORT_IN];
        let mut i: usize = 0;
        while i < 8
            invariant
                i <= 8,
                self.name == old(self).name,
                self.regs == old(self).regs,
                levels == Seq::new(8, |i: int| level_of(old(self).pio[i], nets@)),
                self.pio == pins_sampled(old(self).pio, nets@, i as int),
                forall|j: int| i <= j < 8 ==> self.pio[j] == old(self).pio[j],
                input == input_sampled(old(self).regs[PORT_IN as int], levels, i as int),
            decreases 8 - i,
        {
            let level = match self.pio[i].net {
                Some(handle) => if handle < nets.len() {
                    nets[handle].state
                } else {
                    NetState::Undefined
                },
                None => NetState::Undefined,
            };
            self.pio[i].sensed = level;
            match level {
                NetState::High => {
                    input = input | (1u8 << (i as u8));
                },
                NetState::Low => {
                    input = input & !(1u8 << (i as u8));
                },
                _ => {},
            }
            i += 1;
        }
        self.regs[PORT_IN] = input;
    }
}

impl Port {
    /// Reads a register.
    pub fn read_register(&mut self, address: usize) -> (r: (u8, usize))
        ensures
            r == (old(self).read_spec(address), 0usize),
            *final(self) == *old(self),
    {
        (self.peek(address), 0)
    }

    /// Writes a register.
    pub fn write_register(&mut self, address: usize, value: u8)
        ensures
            *final(self) == old(self).write_spec(address, value),
    {
        if address == PORT_DIR {
            self.regs[PORT_DIR] = value;
            self.update_dir();
        } else if address == PORT_DIRSET {
            self.regs[PORT_DIR] |= value;
            self.update_dir();
        } else if address == PORT_DIRCLR {
            self.regs[PORT_DIR] &= !value;
            self.update_dir();
        } else if address == PORT_DIRTGL {
            self.regs[PORT_DIR] ^= value;
            self.update_dir();
        } else if address == PORT_OUT {
            self.regs[PORT_OUT] = value;
            self.update_out();
        } else if address == PORT_OUTSET {
            self.regs[PORT_OUT] |= value;
            self.update_out();
        } else if address == PORT_OUTCLR {
            self.regs[PORT_OUT] &= !value;
            self.update_out();
        } else if address == PORT_OUTTGL || address == PORT_IN {
            self.regs[PORT_OUT] ^= value;
            self.update_out();
        } else if address == PORT_INTFLAGS {
            self.regs[PORT_INTFLAGS] &= !value;
        } else if address == PORT_PORTCTRL {
            self.regs[PORT_PORTCTRL] = value & 0x01;
        } else if PORT_PIN0CTRL <= address && address <= PORT_PIN7CTRL {
            self.regs[address] = value & 0x8F;
            self.update_pinctrl(address - PORT_PIN0CTRL);
        }
    }
}

impl MemoryMapped for Port {
    type Model = Port;

    open spec fn model(&self) -> Port {
        *self
    }

    open spec fn inv(&self) -> bool {
        true
    }

    open spec fn size_of(m: Port) -> nat {
        0x18
    }

    open spec fn read_of(m: Port, address: usize) -> (u8, usize, Port) {
        (m.read_spec(address), 0, m)
    }

    open spec fn write_of(m: Port, address: usize, value: u8) -> (usize, Port) {
        (0, m.write_spec(address, value))
    }

    fn get_size(&self) -> (n: usize) {
        0x18
    }

    fn read(&mut self, address: usize) -> (r: (u8, usize)) {
        let r = self.read_register(address);
        proof {
            assert(self.inv());
            assert(Self::read_of(old(self).model(), address) == (
                old(self).read_spec(address),
                0usize,
                *old(self),
            ));
        }
        r
    }

    fn write(&mut self, address: usize, value: u8) -> (latency: usize) {
        self.write_register(address, value);
        proof {
            assert(self.inv());
            assert(Self::write_of(old(self).model(), address, value) == (
                0usize,
                old(self).write_spec(address, value),
            ));
        }
        0
    }
}

impl InterruptSource for Port {
    /// Pin interrupts are not modelled: a port never requests one.
    open spec fn raised(&self, mask: u8) -> bool {
        false
    }

    fn interrupt(&self, mask: u8) -> (pending: bool) {
        false
    }
}

/// The address in the port that an address in its virtual view stands for:
/// DIR, OUT, IN and INTFLAGS for the four bytes of the view, and an address
/// without a register for anything else.
#[verifier::allow_in_spec]
pub fn virtual_address(address: usize) -> usize
    returns
        (if address == 0 {
            PORT_DIR
        } else if address == 1 {
            PORT_OUT
        } else if address == 2 {
            PORT_IN
        } else if address == 3 {
            PORT_INTFLAGS
        } else {
            0x0Busize
        }),
{
    if address == 0 {
        PORT_DIR
    } else if address == 1 {
        PORT_OUT
    } else if address == 2 {
        PORT_IN
    } else if address == 3 {
        PORT_INTFLAGS
    } else {
        0x0Busize
    }
}

/// The four-byte view of a port: DIR, OUT, IN and INTFLAGS at consecutive
/// addresses.
#[derive(Clone, Copy, Debug, PartialEq, Eq, Structural)]
pub struct VirtualPort {
    /// The index of the port that is viewed.
    pub port: usize,
}

impl VirtualPort {
    /// The size of the view in bytes.
    pub fn get_size(&self) -> (n: usize)
        ensures
            n == 4,
    {
        4
    }

    /// Reads through the view.
    pub fn read(&self, port: &Port, address: usize) -> (r: (u8, usize))
        ensures
            r == (port.read_spec(virtual_address(address)), 0usize),
    {
        (port.peek(virtual_address(address)), 0)
    }

    /// Writes through the view.
    pub fn write(&self, port: &mut Port, address: usize, value: u8) -> (latency: usize)
        ensures
            latency == 0,
            *final(port) == old(port).write_spec(virtual_address(address), value),
    {
        port.write(virtual_address(address), value)
    }
}

} // verus!
