//! The part of the ThreadX kernel interface that the demos use: the
//! constants that its headers leave to the caller, and the kernel's entry
//! points as values.

use vstd::prelude::*;

verus! {

pub const TX_NO_WAIT: u32 = 0;

pub const TX_WAIT_FOREVER: u32 = 0xFFFFFFFF;

pub const TX_AND: u32 = 2;

pub const TX_AND_CLEAR: u32 = 3;

pub const TX_OR: u32 = 0;

pub const TX_OR_CLEAR: u32 = 1;

pub const TX_1_ULONG: u32 = 1;

pub const TX_2_ULONG: u32 = 2;

pub const TX_4_ULONG: u32 = 4;

pub const TX_8_ULONG: u32 = 8;

pub const TX_16_ULONG: u32 = 16;

pub const TX_NO_TIME_SLICE: u32 = 0;

pub const TX_AUTO_START: u32 = 1;

pub const TX_DONT_START: u32 = 0;

pub const TX_AUTO_ACTIVATE: u32 = 1;

pub const TX_NO_ACTIVATE: u32 = 0;

pub const TX_TRUE: u32 = 1;

pub const TX_FALSE: u32 = 0;

pub const TX_INHERIT: u32 = 1;

pub const TX_NO_INHERIT: u32 = 0;

pub const TX_THREAD_ENTRY: u32 = 0;

pub const TX_THREAD_EXIT: u32 = 1;

pub const TX_NO_SUSPENSIONS: u32 = 0;

pub const TX_NO_MESSAGES: u32 = 0;

pub const TX_EMPTY: u32 = 0;

pub const TX_CLEAR_ID: u32 = 0;

/// Operation completed successfully
pub const TX_SUCCESS: u32 = 0;

/// A name as the kernel takes it: characters, then one NUL that ends it.
pub open spec fn is_c_name(name: Seq<char>) -> bool {
    &&& name.len() > 0
    &&& name.last() == '\0'
    &&& forall|i: int| 0 <= i < name.len() - 1 ==> name[i] != '\0'
}

/// One call into the kernel.
///
/// The kernel keeps every name and every object it is handed for as long
/// as it runs; names are `'static` for that reason, and the caller holds
/// the objects themselves in storage that is never released.
#[derive(Clone, Copy, Debug, PartialEq, Eq)]
pub enum KernelCall {
    /// `_tx_initialize_kernel_enter`: hand the processor to the kernel. It
    /// is not meant to come back.
    InitializeKernelEnter,
    /// `_tx_byte_pool_create`: make the caller's one buffer a byte pool.
    BytePoolCreate { name: &'static str, pool_size: u32 },
    /// `_tx_byte_allocate` from that pool.
    ByteAllocate { memory_size: u32, wait_option: u32 },
    /// `_tx_thread_create`, in the caller's thread object number `slot`,
    /// running the worker entry point.
    ThreadCreate {
        slot: u8,
        name: &'static str,
        entry_input: u32,
        stack_start: usize,
        stack_size: u32,
        priority: u32,
        preempt_threshold: u32,
        time_slice: u32,
        auto_start: u32,
    },
    /// `_tx_thread_sleep`: block the calling thread.
    ThreadSleep { timer_ticks: u32 },
    /// `_tx_timer_interrupt`: let the kernel process one timer tick.
    TimerInterrupt,
}

impl KernelCall {
    /// Whether the caller goes on according to what the call returned. The
    /// tick entry point returns nothing to go by.
    pub open spec fn replies(self) -> bool {
        !(self is TimerInterrupt)
    }
}

/// What came back from a kernel call.
#[derive(Clone, Copy, Debug, PartialEq, Eq)]
pub enum KernelReply {
    /// `_tx_initialize_kernel_enter` returned.
    KernelExited,
    /// `_tx_byte_pool_create` returned.
    BytePoolCreated,
    /// `_tx_byte_allocate` returned; `memory` is the address it stored, 0
    /// for a null pointer.
    ByteAllocated { memory: usize },
    /// `_tx_thread_create` returned `status`.
    ThreadCreated { status: u32 },
    /// `_tx_thread_sleep` returned.
    ThreadWoke,
}

} // verus!
