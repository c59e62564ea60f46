//! A model of the SP804 timer as the driver sees it: three registers and
//! the interrupt latch, and what each access does to them.

use vstd::prelude::*;
use crate::mmio::{RegRead, RegWrite};
use crate::sp804_timer::{
    control_word, lemma_control_word_values, Interrupts, Mode, Timer, CTRL_INTENABLE,
    CTRL_OFFSET, CTRL_TIMEREN, ICR_OFFSET, LOAD_OFFSET, MIS_OFFSET, WINDOW,
};

verus! {

/// State of an SP804 timer whose registers start at `ADDR`.
///
/// Registers that the model does not know read as zero and ignore stores.
#[derive(Clone, Copy, Debug, PartialEq, Eq)]
pub struct Sp804<const ADDR: usize> {
    /// The load register.
    pub load: u32,
    /// The control register.
    pub control: u32,
    /// The raw interrupt latch: set when the counter runs out, cleared by a
    /// store to the interrupt-clear register.
    pub raw_interrupt: bool,
}

impl<const ADDR: usize> Sp804<ADDR> {
    /// The masked interrupt status: the latch, if the control register
    /// passes interrupts on.
    pub open spec fn masked_status(self) -> u32 {
        if self.raw_interrupt && self.control & CTRL_INTENABLE != 0 {
            1
        } else {
            0
        }
    }

    /// The device after one store.
    pub open spec fn after_write(self, w: RegWrite) -> Self {
        if w.addr == ADDR + LOAD_OFFSET {
            Sp804 { load: w.value, ..self }
        } else if w.addr == ADDR + CTRL_OFFSET {
            Sp804 { control: w.value, ..self }
        } else if w.addr == ADDR + ICR_OFFSET {
            Sp804 { raw_interrupt: false, ..self }
        } else {
            self
        }
    }

    /// The device after a run of stores, first to last.
    pub open spec fn after_writes(self, writes: Seq<RegWrite>) -> Self
        decreases writes.len(),
    {
        if writes.len() == 0 {
            self
        } else {
            self.after_writes(writes.drop_last()).after_write(writes.last())
        }
    }

    /// What a load returns.
    pub open spec fn value_at(self, r: RegRead) -> u32 {
        if r.addr == ADDR + LOAD_OFFSET {
            self.load
        } else if r.addr == ADDR + CTRL_OFFSET {
            self.control
        } else if r.addr == ADDR + MIS_OFFSET {
            self.masked_status()
        } else {
            0
        }
    }

    /// The device after its counter has run out: an enabled timer latches
    /// an interrupt, a stopped one does nothing.
    pub open spec fn after_expiry(self) -> Self {
        if self.control & CTRL_TIMEREN != 0 {
            Sp804 { raw_interrupt: true, ..self }
        } else {
            self
        }
    }

    /// Performs one store on the model.
    pub fn write(&mut self, w: RegWrite)
        requires
            Timer::<ADDR>::mapped(),
        ensures
            *final(self) == old(self).after_write(w),
    {
        if w.addr == ADDR + LOAD_OFFSET {
            self.load = w.value;
        } else if w.addr == ADDR + CTRL_OFFSET {
            self.control = w.value;
        } else if w.addr == ADDR + ICR_OFFSET {
            self.raw_interrupt = false;
        }
    }

    /// Performs one load on the model.
    pub fn read(&self, r: RegRead) -> (value: u32)
        requires
            Timer::<ADDR>::mapped(),
        ensures
            value == self.value_at(r),
    {
        if r.addr == ADDR + LOAD_OFFSET {
            self.load
        } else if r.addr == ADDR + CTRL_OFFSET {
            self.control
        } else if r.addr == ADDR + MIS_OFFSET {
            if self.raw_interrupt && self.control & CTRL_INTENABLE != 0 {
                1
            } else {
                0
            }
        } else {
            0
        }
    }

    /// Lets the counter run out once.
    pub fn expire(&mut self)
        ensures
            *final(self) == old(self).after_expiry(),
    {
        if self.control & CTRL_TIMEREN != 0 {
            self.raw_interrupt = true;
        }
    }
}

/// What `init` stores can be read back unchanged, and the timer is still
/// stopped: the load register holds the load value and the control register
/// holds the control word, whatever the device held before.
pub proof fn lemma_timer_init_reads_back<const ADDR: usize>(
    dev: Sp804<ADDR>,
    load_value: u32,
    mode: Mode,
    interrupt: Interrupts,
)
    requires
        Timer::<ADDR>::mapped(),
    ensures
        ({
            let after = dev.after_writes(Timer::<ADDR>::init_writes(load_value, mode, interrupt));
            &&& after.value_at(RegRead { addr: Timer::<ADDR>::reg(LOAD_OFFSET) }) == load_value
            &&& after.value_at(RegRead { addr: Timer::<ADDR>::reg(CTRL_OFFSET) }) == control_word(
                mode,
                interrupt,
            )
            &&& after.control & CTRL_TIMEREN == 0
            &&& after.raw_interrupt == dev.raw_interrupt
        }),
{
    reveal_with_fuel(Sp804::after_writes, 3);
    lemma_control_word_values(mode, interrupt);
}

/// `start` flips the enable bit and nothing else: after it the control
/// register holds what it held before with the enable bit set, the load
/// register is untouched, and the timer runs.
pub proof fn lemma_start_sets_enable_only<const ADDR: usize>(dev: Sp804<ADDR>)
    requires
        Timer::<ADDR>::mapped(),
    ensures
        ({
            let control = dev.value_at(RegRead { addr: Timer::<ADDR>::reg(CTRL_OFFSET) });
            let after = dev.after_write(Timer::<ADDR>::start_write(control));
            &&& control == dev.control
            &&& after.control == dev.control | CTRL_TIMEREN
            &&& after.control & CTRL_TIMEREN != 0
            &&& after.control & !CTRL_TIMEREN == dev.control & !CTRL_TIMEREN
            &&& after.load == dev.load
            &&& after.raw_interrupt == dev.raw_interrupt
        }),
{
    let c = dev.control;
    assert((c | 0x80u32) & 0x80u32 != 0) by (bit_vector);
    assert((c | 0x80u32) & !0x80u32 == c & !0x80u32) by (bit_vector);
}

/// Starting a timer twice is the same as starting it once.
pub proof fn lemma_start_idempotent<const ADDR: usize>(dev: Sp804<ADDR>)
    requires
        Timer::<ADDR>::mapped(),
    ensures
        ({
            let once = dev.after_write(Timer::<ADDR>::start_write(dev.control));
            once.after_write(Timer::<ADDR>::start_write(once.control)) == once
        }),
{
    let c = dev.control;
    assert((c | 0x80u32) | 0x80u32 == c | 0x80u32) by (bit_vector);
}

/// Two runs of stores, one after the other, do what the first does and
/// then what the second does.
pub proof fn lemma_timer_writes_concat<const ADDR: usize>(
    dev: Sp804<ADDR>,
    first: Seq<RegWrite>,
    second: Seq<RegWrite>,
)
    ensures
        dev.after_writes(first + second) == dev.after_writes(first).after_writes(second),
    decreases second.len(),
{
    if second.len() > 0 {
        lemma_timer_writes_concat(dev, first, second.drop_last());
        assert((first + second).drop_last() =~= first + second.drop_last());
    }
}

/// Stores outside the timer's registers leave the timer as it is.
pub proof fn lemma_timer_ignores<const ADDR: usize>(dev: Sp804<ADDR>, writes: Seq<RegWrite>)
    requires
        forall|i: int|
            0 <= i < writes.len() ==> {
                let addr = (#[trigger] writes[i]).addr;
                addr < ADDR || addr >= ADDR + WINDOW
            },
    ensures
        dev.after_writes(writes) == dev,
    decreases writes.len(),
{
    if writes.len() > 0 {
        lemma_timer_ignores(dev, writes.drop_last());
    }
}

} // verus!
