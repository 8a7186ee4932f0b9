//! The interrupt controller: a table of vectors, the list of sources bound to
//! them, and the flag that tells that a handler is running.

use crate::memory::MemoryMapped;
use vstd::prelude::*;

verus! {

pub const CPUINT_CTRLA: usize = 0x00;

pub const CPUINT_STATUS: usize = 0x01;

pub const CPUINT_LVL0PRI: usize = 0x02;

pub const CPUINT_LVL1VEC: usize = 0x03;

/// The number of entries in the vector table.
pub const CPUINT_VECTORS: usize = 30;

/// An interrupt source bound to a vector: the peripheral with handle `source`
/// requests vector `vector_index` through the flags selected by `flag_mask`.
#[derive(Clone, Copy, Debug, PartialEq, Eq, Structural)]
pub struct Binding {
    pub vector_index: usize,
    pub source: usize,
    pub flag_mask: u8,
}

/// The interrupt controller.
pub struct Cpuint {
    pub regs: [u8; 4],
    pub ccp: bool,
    pub sources: Vec<Binding>,
    pub vectors: [u16; 30],
}

/// The state of the interrupt controller.
pub struct CpuintModel {
    pub regs: [u8; 4],
    pub ccp: bool,
    pub sources: Seq<Binding>,
    pub vectors: [u16; 30],
}

impl View for Cpuint {
    type V = CpuintModel;

    open spec fn view(&self) -> CpuintModel {
        CpuintModel {
            regs: self.regs,
            ccp: self.ccp,
            sources: self.sources@,
            vectors: self.vectors,
        }
    }
}

/// The position of the first source, among the first `n`, whose peripheral
/// reports a pending flag.
pub open spec fn first_raised(raised: Seq<bool>, n: int) -> Option<int>
    decreases n,
{
    if n <= 0 {
        None
    } else {
        match first_raised(raised, n - 1) {
            Some(i) => Some(i),
            None => if raised[n - 1] {
                Some(n - 1)
            } else {
                None
            },
        }
    }
}

/// The first raised source comes before every other raised source.
pub proof fn lemma_first_raised(raised: Seq<bool>, n: int)
    requires
        0 <= n <= raised.len(),
    ensures
        match first_raised(raised, n) {
            Some(i) => 0 <= i < n && raised[i] && forall|j: int| 0 <= j < i ==> !raised[j],
            None => forall|j: int| 0 <= j < n ==> !raised[j],
        },
    decreases n,
{
    if n > 0 {
        lemma_first_raised(raised, n - 1);
    }
}

impl CpuintModel {
    /// Every binding names an entry of the vector table, and the table maps
    /// index `i` to the word address `2 * i`.
    pub open spec fn wf(self) -> bool {
        &&& forall|i: int|
            0 <= i < self.sources.len() ==> (#[trigger] self.sources[i]).vector_index
                < CPUINT_VECTORS
        &&& forall|i: int| 0 <= i < CPUINT_VECTORS ==> self.vectors[i] == 2 * i
    }

    /// The controller is in its reset state, with the given sources bound.
    pub open spec fn is_reset(self, sources: Seq<Binding>) -> bool {
        &&& self.sources == sources
        &&& !self.ccp
        &&& forall|i: int| 0 <= i < 4 ==> self.regs[i] == 0
        &&& forall|i: int| 0 <= i < 30 ==> self.vectors[i] == 2 * i
    }

    /// A handler is running: the level-0 flag of the status register is set.
    pub open spec fn executing(self) -> bool {
        self.regs[CPUINT_STATUS as int] & 0x01 != 0
    }

    /// The vector to be taken and the controller afterwards, given for each
    /// binding whether its peripheral reports a pending flag. While a handler
    /// runs nothing is taken; otherwise the first binding in registration
    /// order whose flag is pending is taken, and the level-0 flag is set. The
    /// vector is the word address of the binding's entry: twice its index.
    pub open spec fn service_pending(self, raised: Seq<bool>) -> (Option<u16>, CpuintModel) {
        if self.executing() {
            (None, self)
        } else {
            match first_raised(raised, self.sources.len() as int) {
                Some(i) => (
                    Some((2 * self.sources[i].vector_index) as u16),
                    CpuintModel {
                        regs: vstd::array::spec_array_update(
                            self.regs,
                            CPUINT_STATUS as int,
                            self.regs[CPUINT_STATUS as int] | 0x01,
                        ),
                        ..self
                    },
                ),
                None => (None, self),
            }
        }
    }

    /// The controller after the handler has returned: the level-0 flag is
    /// cleared.
    pub open spec fn reti(self) -> CpuintModel {
        CpuintModel {
            regs: vstd::array::spec_array_update(
                self.regs,
                CPUINT_STATUS as int,
                self.regs[CPUINT_STATUS as int] & !0x01u8,
            ),
            ..self
        }
    }

    /// The byte read at a register address.
    pub open spec fn read(self, address: usize) -> u8 {
        if address < 4 {
            self.regs[address as int]
        } else {
            0
        }
    }
}

impl Cpuint {
    /// A controller without sources whose vector table maps index `i` to
    /// word address `2 * i`.
    pub fn new() -> (cpuint: Cpuint)
        ensures
            cpuint@.wf(),
            cpuint@.is_reset(Seq::<Binding>::empty()),
    {
        let mut table = [0u16; 30];
        let mut i: u16 = 0;
        while i < 30
            invariant
                i <= 30,
                forall|j: int| 0 <= j < i ==> table[j] == 2 * j,
            decreases 30 - i,
        {
            table[i as usize] = 2 * i;
            i += 1;
        }
        Cpuint { regs: [0u8; 4], ccp: false, sources: Vec::new(), vectors: table }
    }

    /// Binds a source to a vector. Sources are polled in the order in which
    /// they were added.
    pub fn add_source(&mut self, vector_index: usize, peripheral: usize, flag_mask: u8)
        requires
            old(self)@.wf(),
            vector_index < CPUINT_VECTORS,
        ensures
            final(self)@.wf(),
            final(self)@ == (CpuintModel {
                sources: old(self)@.sources.push(
                    Binding { vector_index, source: peripheral, flag_mask },
                ),
                ..old(self)@
            }),
    {
        self.sources.push(Binding { vector_index, source: peripheral, flag_mask });
        proof {
            assert(self@.vectors == old(self)@.vectors);
        }
    }

    pub fn ccp_enable(&mut self)
        ensures
            final(self)@ == (CpuintModel { ccp: true, ..old(self)@ }),
    {
        self.ccp = true;
    }

    pub fn ccp_disable(&mut self)
        ensures
            final(self)@ == (CpuintModel { ccp: false, ..old(self)@ }),
    {
        self.ccp = false;
    }

    /// The number of bindings.
    pub fn source_count(&self) -> (n: usize)
        ensures
            n == self@.sources.len(),
    {
        self.sources.len()
    }

    /// The `i`-th binding in registration order.
    pub fn source(&self, i: usize) -> (b: Binding)
        requires
            i < self@.sources.len(),
        ensures
            b == self@.sources[i as int],
    {
        self.sources[i]
    }

    /// Asks for the vector of the interrupt to be taken now. `raised` tells
    /// for each binding, in registration order, whether its peripheral
    /// reports a pending flag under the binding's mask.
    pub fn service_pending(&mut self, raised: &Vec<bool>) -> (vector: Option<u16>)
        requires
            old(self)@.wf(),
            raised@.len() == old(self)@.sources.len(),
        ensures
            final(self)@.wf(),
            (vector, final(self)@) == old(self)@.service_pending(raised@),
    {
        if self.regs[CPUINT_STATUS] & 0x01 == 0 {
            let mut i: usize = 0;
            while i < self.sources.len()
                invariant
                    i <= self.sources.len(),
                    self@ == old(self)@,
                    self@.wf(),
                    !self@.executing(),
                    raised@.len() == self.sources@.len(),
                    first_raised(raised@, i as int) is None,
                decreases self.sources.len() - i,
            {
                if raised[i] {
                    proof {
                        lemma_first_raised(raised@, self@.sources.len() as int);
                        lemma_first_raised(raised@, i as int);
                    }
                    let vector = self.vectors[self.sources[i].vector_index];
                    self.regs[CPUINT_STATUS] |= 0x01;
                    proof {
                        assert(self@.vectors == old(self)@.vectors);
                        assert(self@.sources == old(self)@.sources);
                        assert(old(self)@.vectors[old(self)@.sources[i as int].vector_index as int]
                            == 2 * old(self)@.sources[i as int].vector_index);
                    }
                    return Some(vector);
                }
                i += 1;
            }
        }
        None
    }

    /// Notes that the handler has returned.
    pub fn reti(&mut self)
        ensures
            final(self)@ == old(self)@.reti(),
    {
        self.regs[CPUINT_STATUS] &= !0x01u8;
    }
}

impl MemoryMapped for Cpuint {
    type Model = CpuintModel;

    open spec fn model(&self) -> CpuintModel {
        self@
    }

    open spec fn inv(&self) -> bool {
        self@.wf()
    }

    open spec fn size_of(m: CpuintModel) -> nat {
        4
    }

    open spec fn read_of(m: CpuintModel, address: usize) -> (u8, usize, CpuintModel) {
        (m.read(address), 0, m)
    }

    /// The controller cannot be configured: writes are ignored.
    open spec fn write_of(m: CpuintModel, address: usize, value: u8) -> (usize, CpuintModel) {
        (0, m)
    }

    fn get_size(&self) -> (n: usize) {
        4
    }

    fn read(&mut self, address: usize) -> (r: (u8, usize)) {
        proof {
            assert(Self::read_of(old(self).model(), address) == (
                old(self)@.read(address),
                0usize,
                old(self)@,
            ));
        }
        let r = if address < 4 {
            (self.regs[address], 0)
        } else {
            (0, 0)
        };
        proof {
            assert(self.inv());
        }
        r
    }

    fn write(&mut self, address: usize, value: u8) -> (latency: usize) {
        proof {
            assert(self.inv());
            assert(Self::write_of(old(self).model(), address, value) == (0usize, old(self)@));
        }
        0
    }
}

/// With no handler running, the first binding whose flag is pending is
/// taken: the vector is the word address of its entry, twice its index, and
/// the level-0 flag is set, so that nothing more is taken until the handler
/// has returned.
pub proof fn law_first_pending_vector_is_taken(c: CpuintModel, raised: Seq<bool>, i: int)
    requires
        c.wf(),
        !c.executing(),
        raised.len() == c.sources.len(),
        0 <= i < raised.len(),
        raised[i],
        forall|j: int| 0 <= j < i ==> !raised[j],
    ensures
        c.service_pending(raised).0 == Some((2 * c.sources[i].vector_index) as u16),
        2 * c.sources[i].vector_index < 2 * CPUINT_VECTORS,
        c.service_pending(raised).1.executing(),
        c.service_pending(raised).1.service_pending(raised).0 is None,
        !c.service_pending(raised).1.reti().executing(),
{
    lemma_first_raised(raised, raised.len() as int);
    let status = c.regs[CPUINT_STATUS as int];
    assert((status | 0x01) & 0x01 != 0 && ((status | 0x01) & !0x01u8) & 0x01 == 0) by (bit_vector);
}

} // verus!
