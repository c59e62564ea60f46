//! What the glue asks of its surroundings, and what it is told in return.
//!
//! An entry point of the firmware is a loop around one function of this
//! crate. The function is given an [`Event`] and answers with a burst of
//! [`Effect`]s. The loop performs the burst in order; what the last effect
//! brought back is the next event. A burst that ends in `Return` or `Halt`
//! ends the loop.

use vstd::prelude::*;
use crate::mmio::{RegRead, RegWrite};
use crate::threadx::{KernelCall, KernelReply};

verus! {

/// A line on the console. The wording is the console's business.
#[derive(Clone, Copy, Debug, PartialEq, Eq)]
pub enum ConsoleLine {
    /// The greeting, with the version of the build.
    Version,
    /// The kernel is about to be entered.
    EnteringKernel,
    /// The application-define callback has been called.
    ApplicationDefine,
    /// A stack was asked for, and this is the address that came back.
    StackAllocated { address: usize },
    /// A thread was created with this entry input.
    ThreadSpawned { entry_input: u32 },
    /// A worker has started and names itself.
    ThreadHello { value: u32 },
    /// A worker reports its counter after a sleep.
    ThreadCount { value: u32, count: u64 },
}

/// Why the system stops for good.
#[derive(Clone, Copy, Debug, PartialEq, Eq)]
pub enum Fatal {
    /// The pool had no memory for a thread's stack.
    NoSpaceForStack,
    /// The kernel refused to create a thread.
    ThreadCreateFailed { status: u32 },
    /// The kernel came back from its entry call.
    KernelExited,
}

impl Fatal {
    /// The fixed part of the diagnostic.
    pub open spec fn spec_message(self) -> Seq<char> {
        match self {
            Fatal::NoSpaceForStack => "No space for stack"@,
            Fatal::ThreadCreateFailed { .. } => "Failed to create thread"@,
            Fatal::KernelExited => "Kernel exited"@,
        }
    }

    /// The fixed part of the diagnostic; for a refused thread the status
    /// code belongs after it.
    pub fn message(&self) -> (message: &'static str)
        ensures
            message@ == self.spec_message(),
    {
        match self {
            Fatal::NoSpaceForStack => "No space for stack",
            Fatal::ThreadCreateFailed { .. } => "Failed to create thread",
            Fatal::KernelExited => "Kernel exited",
        }
    }
}

/// A step of board bring-up on the nRF52840.
#[derive(Clone, Copy, Debug, PartialEq, Eq, Structural)]
pub enum BoardOp {
    /// Take the peripherals of the device and of the core.
    TakePeripherals,
    /// Run the high-frequency clock from the external oscillator and the
    /// low-frequency clock from the external crystal.
    StartClocks,
    /// Make the LED's pin an output and switch the LED on.
    LedOn,
    /// Enable the trace unit and its cycle counter.
    EnableCycleCounter,
    /// Set the SysTick timer to count `reload` core clock cycles over and
    /// over, with its interrupt enabled.
    StartSysTick { reload: u32 },
}

/// One thing for the surroundings to do.
#[derive(Clone, Copy, Debug, PartialEq, Eq)]
pub enum Effect {
    /// Put a line on the console.
    Print(ConsoleLine),
    /// Store to a device register.
    Write(RegWrite),
    /// Load from a device register; the word comes back as `Event::Value`.
    Read(RegRead),
    /// Do a step of board bring-up.
    Board(BoardOp),
    /// Call the kernel; what it returns comes back as `Event::Reply`.
    Call(KernelCall),
    /// Return from the entry point.
    Return,
    /// Report the diagnostic and stop for good.
    Halt(Fatal),
}

impl Effect {
    /// Whether the effect brings back an event.
    pub open spec fn yields(self) -> bool {
        match self {
            Effect::Read(_) => true,
            Effect::Call(call) => call.replies(),
            _ => false,
        }
    }

    /// Whether the effect ends the entry point.
    pub open spec fn ends(self) -> bool {
        self is Return || self is Halt
    }
}

/// What the glue is told.
#[derive(Clone, Copy, Debug, PartialEq, Eq)]
pub enum Event {
    /// The entry point has been called.
    Entered,
    /// The word that a `Read` loaded.
    Value(u32),
    /// What a kernel call returned.
    Reply(KernelReply),
}

/// Whether `event` is what performing `effect` can bring back: the word
/// for a load, and for a kernel call the reply of that call.
pub open spec fn answers(event: Event, effect: Effect) -> bool {
    match (effect, event) {
        (Effect::Read(_), Event::Value(_)) => true,
        (
            Effect::Call(KernelCall::InitializeKernelEnter),
            Event::Reply(KernelReply::KernelExited),
        ) => true,
        (
            Effect::Call(KernelCall::BytePoolCreate { .. }),
            Event::Reply(KernelReply::BytePoolCreated),
        ) => true,
        (
            Effect::Call(KernelCall::ByteAllocate { .. }),
            Event::Reply(KernelReply::ByteAllocated { .. }),
        ) => true,
        (
            Effect::Call(KernelCall::ThreadCreate { .. }),
            Event::Reply(KernelReply::ThreadCreated { .. }),
        ) => true,
        (
            Effect::Call(KernelCall::ThreadSleep { .. }),
            Event::Reply(KernelReply::ThreadWoke),
        ) => true,
        _ => false,
    }
}

/// A burst is well formed when only its last effect brings back an event
/// or ends the entry point: everything before it is done and forgotten.
pub open spec fn burst_ok(burst: Seq<Effect>) -> bool {
    forall|i: int| 0 <= i < burst.len() - 1 ==> !burst[i].yields() && !burst[i].ends()
}

/// The stores among `effects`, in order.
pub open spec fn writes_of(effects: Seq<Effect>) -> Seq<RegWrite>
    decreases effects.len(),
{
    if effects.len() == 0 {
        Seq::empty()
    } else {
        match effects.last() {
            Effect::Write(w) => writes_of(effects.drop_last()).push(w),
            _ => writes_of(effects.drop_last()),
        }
    }
}

/// The stores `writes` as effects, in order.
pub open spec fn as_effects(writes: Seq<RegWrite>) -> Seq<Effect> {
    writes.map_values(|w: RegWrite| Effect::Write(w))
}

/// Appends the stores `writes` to `effects`.
pub fn push_writes(effects: &mut Vec<Effect>, writes: &Vec<RegWrite>)
    ensures
        final(effects)@ == old(effects)@ + as_effects(writes@),
{
    let mut i: usize = 0;
    while i < writes.len()
        invariant
            i <= writes.len(),
            effects@ == old(effects)@ + as_effects(writes@.take(i as int)),
        decreases writes.len() - i,
    {
        effects.push(Effect::Write(writes[i]));
        i = i + 1;
    }
}

/// The stores among effects that are all stores are those stores.
pub proof fn lemma_writes_of_stores(writes: Seq<RegWrite>)
    ensures
        writes_of(as_effects(writes)) == writes,
    decreases writes.len(),
{
    if writes.len() > 0 {
        lemma_writes_of_stores(writes.drop_last());
        assert(as_effects(writes).drop_last() =~= as_effects(writes.drop_last()));
    }
}

/// The stores of two runs of effects, one after the other, are the stores
/// of the first and then those of the second.
pub proof fn lemma_writes_of_concat(first: Seq<Effect>, second: Seq<Effect>)
    ensures
        writes_of(first + second) == writes_of(first) + writes_of(second),
    decreases second.len(),
{
    if second.len() > 0 {
        lemma_writes_of_concat(first, second.drop_last());
        assert((first + second).drop_last() =~= first + second.drop_last());
    }
}

} // verus!
