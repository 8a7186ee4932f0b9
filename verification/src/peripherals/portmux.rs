//! The port multiplexer. Its registers hold what is written to them; the
//! routing they stand for is fixed by the board.

use crate::memory::MemoryMapped;
use vstd::array::spec_array_update;
use vstd::prelude::*;

verus! {

pub const PORTMUX_EVSYSROUTEA: usize = 0x00;

pub const PORTMUX_TCBROUTEA: usize = 0x05;

/// The port multiplexer.
pub struct Portmux {
    pub name: String,
    pub regs: [u8; 6],
}

impl Portmux {
    /// The multiplexer is in its reset state.
    pub open spec fn is_reset(self) -> bool {
        forall|i: int| 0 <= i < 6 ==> self.regs[i] == 0
    }

    /// A multiplexer with all registers cleared.
    pub fn new(name: String) -> (portmux: Portmux)
        ensures
            portmux.name@ == name@,
            portmux.is_reset(),
    {
        Portmux { name, regs: [0u8; 6] }
    }

    /// The byte read at a register address: the last value written.
    pub open spec fn read_spec(self, address: usize) -> u8 {
        if address <= PORTMUX_TCBROUTEA {
            self.regs[address as int]
        } else {
            0
        }
    }

    /// The multiplexer after a write.
    pub open spec fn write_spec(self, address: usize, value: u8) -> Portmux {
        if address <= PORTMUX_TCBROUTEA {
            Portmux { regs: spec_array_update(self.regs, address as int, value), ..self }
        } else {
            self
        }
    }
}

impl Portmux {
    /// Reads a register.
    pub fn read_register(&mut self, address: usize) -> (r: (u8, usize))
        ensures
            r == (old(self).read_spec(address), 0usize),
            *final(self) == *old(self),
    {
        if address <= PORTMUX_TCBROUTEA {
            (self.regs[address], 0)
        } else {
            (0, 0)
        }
    }

    /// Writes a register.
    pub fn write_register(&mut self, address: usize, value: u8)
        ensures
            *final(self) == old(self).write_spec(address, value),
    {
        if address <= PORTMUX_TCBROUTEA {
            self.regs[address] = value;
        }
    }
}

impl MemoryMapped for Portmux {
    type Model = Portmux;

    open spec fn model(&self) -> Portmux {
        *self
    }

    open spec fn inv(&self) -> bool {
        true
    }

    open spec fn size_of(m: Portmux) -> nat {
        6
    }

    open spec fn read_of(m: Portmux, address: usize) -> (u8, usize, Portmux) {
        (m.read_spec(address), 0, m)
    }

    open spec fn write_of(m: Portmux, address: usize, value: u8) -> (usize, Portmux) {
        (0, m.write_spec(address, value))
    }

    fn get_size(&self) -> (n: usize) {
        6
    }

    fn read(&mut self, address: usize) -> (r: (u8, usize)) {
        let r = self.read_register(address);
        proof {
            assert(self.inv());
            assert(Self::read_of(old(self).model(), address) == (
                old(self).read_spec(address),
                0usize,
                *old(self),
            ));
        }
        r
    }

    fn write(&mut self, address: usize, value: u8) -> (latency: usize) {
        self.write_register(address, value);
        proof {
            assert(self.inv());
            assert(Self::write_of(old(self).model(), address, value) == (
                0usize,
                old(self).write_spec(address, value),
            ));
        }
        0
    }
}

} // verus!
