//! The on-chip peripherals and the capabilities they share.

pub mod adc;
pub mod clkctrl;
pub mod cpu;
pub mod cpuint;
pub mod fifo;
pub mod port;
pub mod portmux;
pub mod spi;
pub mod stdio;
pub mod tca;
pub mod tcb;
pub mod usart;

use vstd::prelude::*;

verus! {

/// A peripheral that can request an interrupt.
pub trait InterruptSource {
    /// Whether one of the flags selected by `mask` is both raised and
    /// enabled.
    spec fn raised(&self, mask: u8) -> bool;

    fn interrupt(&self, mask: u8) -> (pending: bool)
        ensures
            pending == self.raised(mask),
    ;
}

/// A component that advances once per clock period.
pub trait Clocked: Sized {
    /// The component after one clock period.
    spec fn ticked(&self, time: u64) -> Self;

    fn tick(&mut self, time: u64)
        ensures
            *final(self) == old(self).ticked(time),
    ;
}

/// A peripheral with registers under configuration change protection.
pub trait Ccp: Sized {
    /// The peripheral with its protected registers unlocked or locked.
    spec fn unlocked(&self, enabled: bool) -> Self;

    fn ccp(&mut self, enabled: bool)
        ensures
            *final(self) == old(self).unlocked(enabled),
    ;
}

/// The source of the main clock.
pub trait ClockSource {
    /// The clock period in nanoseconds.
    spec fn period(&self) -> u64;

    fn clock_period(&self) -> (ns: u64)
        ensures
            ns == self.period(),
    ;
}

} // verus!
