//! A short first-in first-out buffer for the data registers of the serial
//! peripherals.

use vstd::array::spec_array_update;
use vstd::prelude::*;

verus! {

/// The number of items a buffer has room for.
pub const FIFO_ROOM: usize = 4;

/// A buffer of up to four items. The items wait in `slots[0..len]`, the
/// oldest first; the other slots hold zero.
#[derive(Clone, Copy, Debug)]
pub struct Fifo {
    pub len: usize,
    pub slots: [u16; 4],
}

impl Fifo {
    /// The buffer holds no more than it has room for.
    pub open spec fn wf(self) -> bool {
        self.len <= FIFO_ROOM
    }

    /// The items that wait, the oldest first.
    pub open spec fn items(self) -> Seq<u16> {
        Seq::new(self.len as nat, |i: int| self.slots[i])
    }

    /// The buffer with `item` added behind the others. A full buffer stays
    /// as it is.
    pub open spec fn pushed(self, item: u16) -> Fifo {
        if self.len < FIFO_ROOM {
            Fifo {
                len: (self.len + 1) as usize,
                slots: spec_array_update(self.slots, self.len as int, item),
            }
        } else {
            self
        }
    }

    /// The buffer without its oldest item. An empty buffer stays as it is.
    pub open spec fn popped(self) -> Fifo {
        if 0 < self.len <= FIFO_ROOM {
            Fifo {
                len: (self.len - 1) as usize,
                slots: spec_array_update(
                    spec_array_update(
                        spec_array_update(
                            spec_array_update(self.slots, 0, self.slots[1]),
                            1,
                            self.slots[2],
                        ),
                        2,
                        self.slots[3],
                    ),
                    3,
                    0,
                ),
            }
        } else {
            self
        }
    }

    /// The oldest item, if there is one.
    pub open spec fn first(self) -> Option<u16> {
        if 0 < self.len <= FIFO_ROOM {
            Some(self.slots[0])
        } else {
            None
        }
    }

    /// An empty buffer.
    pub fn new() -> (fifo: Fifo)
        ensures
            fifo.wf(),
            fifo.len == 0,
            fifo.items() == Seq::<u16>::empty(),
            forall|i: int| 0 <= i < 4 ==> fifo.slots[i] == 0,
    {
        Fifo { len: 0, slots: [0u16; 4] }
    }

    /// The number of items that wait.
    pub fn len(&self) -> (n: usize)
        ensures
            n == self.len,
    {
        self.len
    }

    /// Whether no item waits.
    pub fn is_empty(&self) -> (empty: bool)
        ensures
            empty == (self.len == 0),
    {
        self.len == 0
    }

    /// The oldest item, if there is one.
    pub fn front(&self) -> (item: Option<u16>)
        ensures
            item == self.first(),
    {
        if 0 < self.len && self.len <= FIFO_ROOM {
            Some(self.slots[0])
        } else {
            None
        }
    }

    /// Adds an item behind the others.
    pub fn push_back(&mut self, item: u16)
        ensures
            *final(self) == old(self).pushed(item),
            old(self).wf() ==> final(self).wf(),
    {
        if self.len < FIFO_ROOM {
            self.slots[self.len] = item;
            self.len = self.len + 1;
        }
    }

    /// Takes the oldest item out.
    pub fn pop_front(&mut self) -> (item: Option<u16>)
        ensures
            item == old(self).first(),
            *final(self) == old(self).popped(),
            old(self).wf() ==> final(self).wf(),
    {
        if 0 < self.len && self.len <= FIFO_ROOM {
            let item = self.slots[0];
            self.slots[0] = self.slots[1];
            self.slots[1] = self.slots[2];
            self.slots[2] = self.slots[3];
            self.slots[3] = 0;
            self.len = self.len - 1;
            Some(item)
        } else {
            None
        }
    }
}

/// What goes in first comes out first: an item pushed onto a buffer with
/// room leaves the earlier items where they were and takes the place behind
/// them, and taking the oldest item out moves the rest one place forward.
pub proof fn law_first_in_first_out(fifo: Fifo, item: u16)
    requires
        fifo.wf(),
    ensures
        fifo.len < FIFO_ROOM ==> fifo.pushed(item).items() == fifo.items().push(item),
        fifo.len > 0 ==> fifo.popped().items() == fifo.items().skip(1),
        fifo.len > 0 ==> fifo.first() == Some(fifo.items()[0]),
{
    if fifo.len < FIFO_ROOM {
        assert(fifo.pushed(item).items() =~= fifo.items().push(item));
    }
    if fifo.len > 0 {
        assert(fifo.popped().items() =~= fifo.items().skip(1));
    }
}

} // verus!
