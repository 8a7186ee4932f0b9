//! The CPU register block: the key register that opens the configuration
//! change protection window.

use crate::peripherals::Ccp;
use vstd::prelude::*;

verus! {

pub const CPU_CCP: usize = 0x04;

/// The key that opens the window for protected I/O registers.
pub const CPU_CCP_IOREG: u8 = 0xD8;

/// The CPU register block.
pub struct Cpu {
    pub regs: [u8; 0x10],
    /// The clock cycles for which the protection window stays open.
    pub ccp_ioreg_count: u8,
}

impl Cpu {
    /// The register block is in its reset state.
    pub open spec fn is_reset(self) -> bool {
        &&& self.ccp_ioreg_count == 0
        &&& forall|i: int| 0 <= i < 0x10 ==> self.regs[i] == 0
    }

    /// A register block with the protection window closed.
    pub fn new() -> (cpu: Cpu)
        ensures
            cpu.is_reset(),
    {
        Cpu { regs: [0u8; 0x10], ccp_ioreg_count: 0 }
    }

    /// The size of the block in bytes.
    pub fn get_size(&self) -> (n: usize)
        ensures
            n == 0x10,
    {
        0x10
    }

    /// The byte read at a register address: the key register reads as one
    /// while the window is open and as zero otherwise.
    pub open spec fn read_spec(self, address: usize) -> u8 {
        if address == CPU_CCP {
            if self.ccp_ioreg_count > 0 {
                1
            } else {
                0
            }
        } else if address < 0x10 {
            self.regs[address as int]
        } else {
            0
        }
    }

    /// Reads a register.
    pub fn read(&self, address: usize) -> (r: (u8, usize))
        ensures
            r == (self.read_spec(address), 0usize),
    {
        if address == CPU_CCP {
            if self.ccp_ioreg_count > 0 {
                (1, 0)
            } else {
                (0, 0)
            }
        } else if address < 0x10 {
            (self.regs[address], 0)
        } else {
            (0, 0)
        }
    }

    /// The register block and the protected peripheral after a write: the
    /// key written to the key register opens a window of four cycles and
    /// unlocks the peripheral; every other write is ignored.
    pub open spec fn write_spec<C: Ccp>(self, target: C, address: usize, value: u8) -> (Cpu, C) {
        if address == CPU_CCP && value == CPU_CCP_IOREG {
            (Cpu { ccp_ioreg_count: 4, ..self }, target.unlocked(true))
        } else {
            (self, target)
        }
    }

    /// Writes a register.
    pub fn write<C: Ccp>(&mut self, target: &mut C, address: usize, value: u8) -> (latency: usize)
        ensures
            latency == 0,
            (*final(self), *final(target)) == old(self).write_spec(*old(target), address, value),
    {
        if address == CPU_CCP && value == CPU_CCP_IOREG {
            self.ccp_ioreg_count = 4;
            target.ccp(true);
        }
        0
    }

    /// The register block and the protected peripheral after one clock
    /// cycle: an open window counts down, and the cycle in which it closes
    /// locks the peripheral again.
    pub open spec fn tick_spec<C: Ccp>(self, target: C) -> (Cpu, C) {
        if self.ccp_ioreg_count > 1 {
            (Cpu { ccp_ioreg_count: (self.ccp_ioreg_count - 1) as u8, ..self }, target)
        } else if self.ccp_ioreg_count == 1 {
            (Cpu { ccp_ioreg_count: 0, ..self }, target.unlocked(false))
        } else {
            (self, target)
        }
    }

    /// Advances the block by one clock cycle.
    pub fn tick<C: Ccp>(&mut self, target: &mut C, _time: u64)
        ensures
            (*final(self), *final(target)) == old(self).tick_spec(*old(target)),
    {
        if self.ccp_ioreg_count > 0 {
            self.ccp_ioreg_count -= 1;
            if self.ccp_ioreg_count == 0 {
                target.ccp(false);
            }
        }
    }
}

} // verus!
