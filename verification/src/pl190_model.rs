//! A model of the PL190 interrupt controller as the driver sees it.

use vstd::prelude::*;
use crate::mmio::{RegRead, RegWrite};
use crate::pl190_vic::{
    Interrupt, CNTL_ENABLE, DEFAULT_VECTOR, DEF_VECT_ADDR_OFFSET, INT_EN_OFFSET,
    INT_SELECT_OFFSET, IRQ_STATUS_OFFSET, NUM_IRQS, NUM_PRIOS, VECT_CTRL_N_START_OFFSET, WINDOW,
};

verus! {

/// State of a PL190 whose registers start at `ADDR`.
///
/// Registers that the model does not know read as zero and ignore stores.
#[derive(Clone, Copy, Debug, PartialEq, Eq)]
pub struct Pl190<const ADDR: usize> {
    /// Interrupt select: a set bit makes the line an FIQ, a clear bit an IRQ.
    pub int_select: u32,
    /// Interrupt enable mask.
    pub int_enable: u32,
    /// Default vector address.
    pub def_vect_addr: u32,
    /// The vector control registers.
    pub vect_cntl: [u32; 16],
    /// The interrupt lines as the sources drive them.
    pub lines: u32,
}

impl<const ADDR: usize> Pl190<ADDR> {
    /// Whether `addr` is the control register of some vector.
    pub open spec fn is_vector_control(addr: usize) -> bool {
        &&& ADDR + VECT_CTRL_N_START_OFFSET <= addr < ADDR + VECT_CTRL_N_START_OFFSET + 4
            * NUM_PRIOS
        &&& (addr - ADDR) % 4 == 0
    }

    /// The vector whose control register is at `addr`.
    pub open spec fn vector_of(addr: usize) -> int {
        (addr - ADDR - VECT_CTRL_N_START_OFFSET) / 4
    }

    /// The IRQ status: lines that are raised, enabled and not FIQ.
    pub open spec fn irq_status(self) -> u32 {
        self.lines & self.int_enable & !self.int_select
    }

    /// The device after one store. A store to the enable register adds
    /// lines to the mask; it takes none away.
    pub open spec fn after_write(self, w: RegWrite) -> Self {
        if w.addr == ADDR + INT_SELECT_OFFSET {
            Pl190 { int_select: w.value, ..self }
        } else if w.addr == ADDR + INT_EN_OFFSET {
            Pl190 { int_enable: self.int_enable | w.value, ..self }
        } else if w.addr == ADDR + DEF_VECT_ADDR_OFFSET {
            Pl190 { def_vect_addr: w.value, ..self }
        } else if Self::is_vector_control(w.addr) {
            Pl190 {
                vect_cntl: vstd::array::spec_array_update(
                    self.vect_cntl,
                    Self::vector_of(w.addr),
                    w.value,
                ),
                ..self
            }
        } else {
            self
        }
    }

    /// The device after a run of stores, first to last.
    pub open spec fn after_writes(self, writes: Seq<RegWrite>) -> Self
        decreases writes.len(),
    {
        if writes.len() == 0 {
            self
        } else {
            self.after_writes(writes.drop_last()).after_write(writes.last())
        }
    }

    /// What a load returns.
    pub open spec fn value_at(self, r: RegRead) -> u32 {
        if r.addr == ADDR + IRQ_STATUS_OFFSET {
            self.irq_status()
        } else if r.addr == ADDR + INT_SELECT_OFFSET {
            self.int_select
        } else if r.addr == ADDR + INT_EN_OFFSET {
            self.int_enable
        } else if r.addr == ADDR + DEF_VECT_ADDR_OFFSET {
            self.def_vect_addr
        } else if Self::is_vector_control(r.addr) {
            self.vect_cntl[Self::vector_of(r.addr)]
        } else {
            0
        }
    }

    /// The device with line `line` raised by its source.
    pub open spec fn after_raise(self, line: u8) -> Self {
        Pl190 { lines: self.lines | (1u32 << line), ..self }
    }

    /// Performs one store on the model.
    pub fn write(&mut self, w: RegWrite)
        requires
            Interrupt::<ADDR>::mapped(),
        ensures
            *final(self) == old(self).after_write(w),
    {
        if w.addr == ADDR + INT_SELECT_OFFSET {
            self.int_select = w.value;
        } else if w.addr == ADDR + INT_EN_OFFSET {
            self.int_enable = self.int_enable | w.value;
        } else if w.addr == ADDR + DEF_VECT_ADDR_OFFSET {
            self.def_vect_addr = w.value;
        } else if w.addr >= ADDR + VECT_CTRL_N_START_OFFSET && w.addr < ADDR
            + VECT_CTRL_N_START_OFFSET + 64 && (w.addr - ADDR) % 4 == 0 {
            let slot: usize = (w.addr - ADDR - VECT_CTRL_N_START_OFFSET) / 4;
            self.vect_cntl[slot] = w.value;
        }
    }

    /// Performs one load on the model.
    pub fn read(&self, r: RegRead) -> (value: u32)
        requires
            Interrupt::<ADDR>::mapped(),
        ensures
            value == self.value_at(r),
    {
        if r.addr == ADDR + IRQ_STATUS_OFFSET {
            self.lines & self.int_enable & !self.int_select
        } else if r.addr == ADDR + INT_SELECT_OFFSET {
            self.int_select
        } else if r.addr == ADDR + INT_EN_OFFSET {
            self.int_enable
        } else if r.addr == ADDR + DEF_VECT_ADDR_OFFSET {
            self.def_vect_addr
        } else if r.addr >= ADDR + VECT_CTRL_N_START_OFFSET && r.addr < ADDR
            + VECT_CTRL_N_START_OFFSET + 64 && (r.addr - ADDR) % 4 == 0 {
            let slot: usize = (r.addr - ADDR - VECT_CTRL_N_START_OFFSET) / 4;
            self.vect_cntl[slot]
        } else {
            0
        }
    }

    /// Raises line `line`.
    pub fn raise(&mut self, line: u8)
        requires
            line < NUM_IRQS,
        ensures
            *final(self) == old(self).after_raise(line),
    {
        self.lines = self.lines | (1u32 << line);
    }
}

/// After the first `count` vector stores of `init`, vector `prio` is in use
/// and routed to source `prio`, for every `prio` below `count`; the other
/// vectors and registers are as they were.
proof fn lemma_vector_writes<const ADDR: usize>(dev: Pl190<ADDR>, count: nat)
    requires
        Interrupt::<ADDR>::mapped(),
        count <= NUM_PRIOS,
    ensures
        ({
            let after = dev.after_writes(
                Seq::new(count, |prio: int| Interrupt::<ADDR>::vector_write(prio)),
            );
            &&& after.int_select == dev.int_select
            &&& after.int_enable == dev.int_enable
            &&& after.def_vect_addr == dev.def_vect_addr
            &&& after.lines == dev.lines
            &&& forall|prio: int|
                0 <= prio < count ==> after.vect_cntl[prio] == CNTL_ENABLE | (prio as u32)
            &&& forall|prio: int|
                count <= prio < NUM_PRIOS ==> after.vect_cntl[prio] == dev.vect_cntl[prio]
        }),
    decreases count,
{
    let writes = Seq::new(count, |prio: int| Interrupt::<ADDR>::vector_write(prio));
    if count > 0 {
        let shorter = Seq::new(
            (count - 1) as nat,
            |prio: int| Interrupt::<ADDR>::vector_write(prio),
        );
        assert(writes.drop_last() =~= shorter);
        lemma_vector_writes(dev, (count - 1) as nat);
        broadcast use vstd::array::axiom_spec_array_update;

    }
}

/// After `init`, whatever the controller held before: every line is an
/// IRQ, the default vector points at the IRQ entry of the vector table,
/// and each of the sixteen vectors is in use and routed to the source of
/// its own number. `init` enables no line and disables none.
pub proof fn lemma_init_programs_vectors<const ADDR: usize>(dev: Pl190<ADDR>)
    requires
        Interrupt::<ADDR>::mapped(),
    ensures
        ({
            let after = dev.after_writes(Interrupt::<ADDR>::init_writes());
            &&& after.int_select == 0
            &&& after.def_vect_addr == DEFAULT_VECTOR
            &&& after.int_enable == dev.int_enable
            &&& after.lines == dev.lines
            &&& forall|prio: int|
                0 <= prio < NUM_PRIOS ==> after.vect_cntl[prio] == CNTL_ENABLE | (prio as u32)
        }),
{
    let writes = Interrupt::<ADDR>::init_writes();
    let vectors = Seq::new(NUM_PRIOS as nat, |prio: int| Interrupt::<ADDR>::vector_write(prio));
    let default_vector = RegWrite {
        addr: Interrupt::<ADDR>::reg(DEF_VECT_ADDR_OFFSET as int),
        value: DEFAULT_VECTOR,
    };
    let with_default = vectors.push(default_vector);
    assert(writes.drop_last() =~= with_default);
    assert(with_default.drop_last() =~= vectors);
    lemma_vector_writes(dev, NUM_PRIOS as nat);
    reveal_with_fuel(Pl190::after_writes, 3);
}

/// What `init` stores can be read back unchanged: after `init`, each
/// register that it wrote to holds the word that it wrote there, whatever
/// the controller held before.
pub proof fn lemma_vic_init_reads_back<const ADDR: usize>(dev: Pl190<ADDR>, i: int)
    requires
        Interrupt::<ADDR>::mapped(),
        0 <= i < Interrupt::<ADDR>::init_writes().len(),
    ensures
        ({
            let store = Interrupt::<ADDR>::init_writes()[i];
            let after = dev.after_writes(Interrupt::<ADDR>::init_writes());
            after.value_at(RegRead { addr: store.addr }) == store.value
        }),
{
    lemma_init_programs_vectors(dev);
}

/// Once a line is enabled it reaches the processor: if the line is an IRQ,
/// then after `enable_interrupt` the IRQ status shows it as soon as its
/// source raises it. Lines that were enabled before stay enabled.
pub proof fn lemma_enabled_line_reaches_irq<const ADDR: usize>(dev: Pl190<ADDR>, line: u8)
    requires
        Interrupt::<ADDR>::mapped(),
        line < NUM_IRQS,
        dev.int_select & (1u32 << line) == 0,
    ensures
        ({
            let enabled = dev.after_write(Interrupt::<ADDR>::enable_write(line));
            &&& enabled.after_raise(line).irq_status() & (1u32 << line) != 0
            &&& enabled.int_enable & dev.int_enable == dev.int_enable
            &&& enabled.int_select == dev.int_select
        }),
{
    let select = dev.int_select;
    let enable = dev.int_enable;
    let lines = dev.lines;
    assert(((lines | (1u32 << line)) & (enable | (1u32 << line)) & !select) & (1u32 << line) != 0)
        by (bit_vector)
        requires
            line < 32,
            select & (1u32 << line) == 0,
    ;
    assert((enable | (1u32 << line)) & enable == enable) by (bit_vector);
}

/// Enabling a line twice is the same as enabling it once.
pub proof fn lemma_enable_idempotent<const ADDR: usize>(dev: Pl190<ADDR>, line: u8)
    requires
        Interrupt::<ADDR>::mapped(),
        line < NUM_IRQS,
    ensures
        ({
            let once = dev.after_write(Interrupt::<ADDR>::enable_write(line));
            once.after_write(Interrupt::<ADDR>::enable_write(line)) == once
        }),
{
    let enable = dev.int_enable;
    assert((enable | (1u32 << line)) | (1u32 << line) == enable | (1u32 << line)) by (bit_vector);
}

/// Two runs of stores, one after the other, do what the first does and
/// then what the second does.
pub proof fn lemma_vic_writes_concat<const ADDR: usize>(
    dev: Pl190<ADDR>,
    first: Seq<RegWrite>,
    second: Seq<RegWrite>,
)
    ensures
        dev.after_writes(first + second) == dev.after_writes(first).after_writes(second),
    decreases second.len(),
{
    if second.len() > 0 {
        lemma_vic_writes_concat(dev, first, second.drop_last());
        assert((first + second).drop_last() =~= first + second.drop_last());
    }
}

/// Stores outside the controller's registers leave the controller as it
/// is.
pub proof fn lemma_vic_ignores<const ADDR: usize>(dev: Pl190<ADDR>, writes: Seq<RegWrite>)
    requires
        forall|i: int|
            0 <= i < writes.len() ==> {
                let addr = (#[trigger] writes[i]).addr;
                addr < ADDR || addr >= ADDR + WINDOW
            },
    ensures
        dev.after_writes(writes) == dev,
    decreases writes.len(),
{
    if writes.len() > 0 {
        lemma_vic_ignores(dev, writes.drop_last());
    }
}

} // verus!
