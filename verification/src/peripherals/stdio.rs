//! The standard I/O pseudo-peripheral: a byte written to OUT is appended to
//! the output log, a read of IN takes the next byte of the input queue, and
//! AVAIL tells how many bytes are queued.

use crate::memory::MemoryMapped;
use std::collections::VecDeque;
use vstd::prelude::*;

verus! {

pub const STDIO_OUT: usize = 0x00;

pub const STDIO_IN: usize = 0x01;

pub const STDIO_AVAIL: usize = 0x02;

/// The standard I/O pseudo-peripheral.
pub struct Stdio {
    pub name: String,
    pub out: Vec<u8>,
    /// The name of the file that the output log is meant for.
    pub outfile: String,
    pub input: VecDeque<u8>,
}

/// The state of the pseudo-peripheral: its name, the output log, the name of
/// the file that the log is meant for, and the input queue.
pub struct StdioModel {
    pub name: Seq<char>,
    pub out: Seq<u8>,
    pub outfile: Seq<char>,
    pub input: Seq<u8>,
}

impl View for Stdio {
    type V = StdioModel;

    open spec fn view(&self) -> StdioModel {
        StdioModel {
            name: self.name@,
            out: self.out@,
            outfile: self.outfile@,
            input: self.input@,
        }
    }
}

impl Stdio {
    /// A pseudo-peripheral with an empty log and an empty queue.
    pub fn new(name: String, outfile: String) -> (stdio: Stdio)
        ensures
            stdio@ == (StdioModel {
                name: name@,
                out: Seq::<u8>::empty(),
                outfile: outfile@,
                input: Seq::<u8>::empty(),
            }),
    {
        Stdio { name, out: Vec::new(), outfile, input: VecDeque::new() }
    }

    /// Appends a byte to the output log.
    pub fn out(&mut self, c: u8)
        ensures
            final(self)@ == (StdioModel { out: old(self)@.out.push(c), ..old(self)@ }),
    {
        self.out.push(c);
    }

    /// Appends a byte to the input queue.
    pub fn feed(&mut self, c: u8)
        ensures
            final(self)@ == (StdioModel { input: old(self)@.input.push(c), ..old(self)@ }),
    {
        self.input.push_back(c);
    }

    /// The output log so far.
    pub fn output(&self) -> (log: &Vec<u8>)
        ensures
            log@ == self@.out,
    {
        &self.out
    }
}

impl MemoryMapped for Stdio {
    type Model = StdioModel;

    open spec fn model(&self) -> StdioModel {
        self@
    }

    open spec fn inv(&self) -> bool {
        true
    }

    open spec fn size_of(m: StdioModel) -> nat {
        3
    }

    /// A read of IN takes the first queued byte, or gives zero if there is
    /// none; a read of AVAIL gives the number of queued bytes, as far as a
    /// byte can count, and changes nothing.
    open spec fn read_of(m: StdioModel, address: usize) -> (u8, usize, StdioModel) {
        if address == STDIO_IN {
            if m.input.len() > 0 {
                (m.input[0], 0, StdioModel { input: m.input.skip(1), ..m })
            } else {
                (0, 0, m)
            }
        } else if address == STDIO_AVAIL {
            (
                if m.input.len() > 255 {
                    255u8
                } else {
                    m.input.len() as u8
                },
                0,
                m,
            )
        } else {
            (0, 0, m)
        }
    }

    open spec fn write_of(m: StdioModel, address: usize, value: u8) -> (usize, StdioModel) {
        if address == STDIO_OUT {
            (0, StdioModel { out: m.out.push(value), ..m })
        } else {
            (0, m)
        }
    }

    fn get_size(&self) -> (n: usize) {
        3
    }

    fn read(&mut self, address: usize) -> (r: (u8, usize)) {
        let r = if address == STDIO_IN {
            match self.input.pop_front() {
                Some(byte) => {
                    proof {
                        assert(self.input@ =~= old(self).input@.skip(1));
                    }
                    (byte, 0)
                },
                None => (0, 0),
            }
        } else if address == STDIO_AVAIL {
            let queued = self.input.len();
            if queued > 255 {
                (255, 0)
            } else {
                (queued as u8, 0)
            }
        } else {
            (0, 0)
        };
        proof {
            assert(self.inv());
            assert(Self::read_of(old(self).model(), address) == (r.0, r.1, self@));
        }
        r
    }

    fn write(&mut self, address: usize, value: u8) -> (latency: usize) {
        if address == STDIO_OUT {
            self.out(value);
        }
        proof {
            assert(self.inv());
            assert(Self::write_of(old(self).model(), address, value) == (0usize, self@));
        }
        0
    }
}

} // verus!
