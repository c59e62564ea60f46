//! The demos and what each is configured with.

use vstd::prelude::*;
use crate::threadx::is_c_name;

verus! {

/// Number of worker threads that every demo starts.
pub const THREADS: u8 = 2;

/// Bytes that a pool keeps beyond the stacks it serves.
pub const POOL_HEADROOM: u32 = 16384;

/// Priority, and preemption threshold, of every worker thread.
pub const THREAD_PRIORITY: u32 = 1;

/// Ticks that a worker sleeps in each cycle.
pub const SLEEP_TICKS: u32 = 100;

/// The demo applications.
#[derive(Clone, Copy, Debug, PartialEq, Eq, Structural)]
pub enum Demo {
    /// The first demo for the nRF52840.
    DemoApp,
    /// The nRF52840 demo that also programs the system tick.
    Nrf52App,
    /// The demo for the Cortex-R5 machine that QEMU emulates.
    QemuCortexR5App,
}

impl Demo {
    /// Bytes of stack that each worker thread gets.
    pub open spec fn spec_stack_size(self) -> u32 {
        match self {
            Demo::DemoApp => 1024,
            Demo::Nrf52App => 8192,
            Demo::QemuCortexR5App => 16384,
        }
    }

    /// Bytes of stack that each worker thread gets.
    #[verifier::when_used_as_spec(spec_stack_size)]
    pub fn stack_size(self) -> (size: u32)
        ensures
            size == self.spec_stack_size(),
    {
        match self {
            Demo::DemoApp => 1024,
            Demo::Nrf52App => 8192,
            Demo::QemuCortexR5App => 16384,
        }
    }

    /// Bytes in the one memory pool.
    pub open spec fn spec_pool_size(self) -> u32 {
        match self {
            Demo::DemoApp => 32768,
            Demo::Nrf52App => 32768,
            Demo::QemuCortexR5App => 49152,
        }
    }

    /// Bytes in the one memory pool.
    #[verifier::when_used_as_spec(spec_pool_size)]
    pub fn pool_size(self) -> (size: u32)
        ensures
            size == self.spec_pool_size(),
    {
        match self {
            Demo::DemoApp => 32768,
            _ => self.stack_size() * 2 + POOL_HEADROOM,
        }
    }

    /// Name of the memory pool, as the kernel takes it.
    pub open spec fn spec_pool_name(self) -> &'static str {
        match self {
            Demo::DemoApp => "byte pool 0\0",
            _ => "byte-pool0\0",
        }
    }

    /// Name of the memory pool, as the kernel takes it.
    #[verifier::when_used_as_spec(spec_pool_name)]
    pub fn pool_name(self) -> (name: &'static str)
        ensures
            name == self.spec_pool_name(),
    {
        match self {
            Demo::DemoApp => "byte pool 0\0",
            _ => "byte-pool0\0",
        }
    }

    /// Name of worker thread `slot`, as the kernel takes it; thread 0 is the
    /// first, every other slot names the second.
    pub open spec fn spec_thread_name(self, slot: u8) -> &'static str {
        match self {
            Demo::DemoApp => if slot == 0 {
                "thread 0\0"
            } else {
                "thread 1\0"
            },
            _ => if slot == 0 {
                "thread0\0"
            } else {
                "thread1\0"
            },
        }
    }

    /// Name of worker thread `slot`, as the kernel takes it; thread 0 is the
    /// first, every other slot names the second.
    #[verifier::when_used_as_spec(spec_thread_name)]
    pub fn thread_name(self, slot: u8) -> (name: &'static str)
        ensures
            name == self.spec_thread_name(slot),
    {
        match self {
            Demo::DemoApp => if slot == 0 {
                "thread 0\0"
            } else {
                "thread 1\0"
            },
            _ => if slot == 0 {
                "thread0\0"
            } else {
                "thread1\0"
            },
        }
    }
}

/// The entry input of worker thread `slot`, by which it names itself;
/// thread 0 is the first, every other slot gives that of the second.
pub open spec fn spec_entry_input(slot: u8) -> u32 {
    if slot == 0 {
        0x12345678
    } else {
        0xAABBCCDD
    }
}

/// The entry input of worker thread `slot`, by which it names itself;
/// thread 0 is the first, every other slot gives that of the second.
#[verifier::when_used_as_spec(spec_entry_input)]
pub fn entry_input(slot: u8) -> (input: u32)
    ensures
        input == spec_entry_input(slot),
{
    if slot == 0 {
        0x12345678
    } else {
        0xAABBCCDD
    }
}

/// Every demo's pool has room for the stacks of all its threads, and the
/// headroom on top.
pub proof fn lemma_pool_holds_all_stacks(demo: Demo)
    ensures
        demo.pool_size() >= THREADS * demo.stack_size() + POOL_HEADROOM,
{
}

/// Every name that a demo hands to the kernel ends in its one NUL.
pub proof fn lemma_names_are_c_names(demo: Demo, slot: u8)
    ensures
        is_c_name(demo.pool_name()@),
        is_c_name(demo.thread_name(slot)@),
{
    reveal_strlit("byte pool 0\0");
    reveal_strlit("byte-pool0\0");
    reveal_strlit("thread 0\0");
    reveal_strlit("thread 1\0");
    reveal_strlit("thread0\0");
    reveal_strlit("thread1\0");
}

} // verus!
