//! The application-define callback: one memory pool, then for each worker
//! thread a stack from the pool and the thread on it.
//!
//! The kernel calls the callback once, before it schedules anything. There
//! is nobody to hand an error to at that point, so a stack that cannot be
//! had, or a thread that the kernel refuses, stops the system.

use vstd::prelude::*;
use crate::demo::{entry_input, Demo, THREADS, THREAD_PRIORITY};
use crate::effect::{answers, burst_ok, ConsoleLine, Effect, Event, Fatal};
use crate::threadx::{
    KernelCall, KernelReply, TX_AUTO_START, TX_NO_TIME_SLICE, TX_NO_WAIT, TX_SUCCESS,
};

verus! {

/// How far the callback has come.
#[derive(Clone, Copy, Debug, PartialEq, Eq, Structural)]
pub enum DefinePhase {
    /// The kernel has not called yet.
    Idle,
    /// The pool is being created.
    CreatingPool,
    /// The stack of thread `slot` is being allocated.
    AllocatingStack { slot: u8 },
    /// Thread `slot` is being created.
    CreatingThread { slot: u8 },
    /// Every thread exists; the callback has returned.
    Done,
    /// The system has stopped.
    Halted,
}

/// The call that creates the pool.
pub open spec fn pool_call(demo: Demo) -> KernelCall {
    KernelCall::BytePoolCreate { name: demo.pool_name(), pool_size: demo.pool_size() }
}

/// The call that asks the pool for one stack, without waiting.
pub open spec fn stack_call(demo: Demo) -> KernelCall {
    KernelCall::ByteAllocate { memory_size: demo.stack_size(), wait_option: TX_NO_WAIT }
}

/// The call that creates thread `slot` on the stack at `stack_start`: at
/// the fixed priority, with the preemption threshold equal to it, without
/// time slicing, started at once.
pub open spec fn thread_call(demo: Demo, slot: u8, stack_start: usize) -> KernelCall {
    KernelCall::ThreadCreate {
        slot,
        name: demo.thread_name(slot),
        entry_input: entry_input(slot),
        stack_start,
        stack_size: demo.stack_size(),
        priority: THREAD_PRIORITY,
        preempt_threshold: THREAD_PRIORITY,
        time_slice: TX_NO_TIME_SLICE,
        auto_start: TX_AUTO_START,
    }
}

/// The line that confirms thread `slot`.
pub open spec fn spawned_line(slot: u8) -> ConsoleLine {
    ConsoleLine::ThreadSpawned { entry_input: entry_input(slot) }
}

/// What the callback does in `phase` when `event` arrives: the phase it
/// moves to and the burst it asks for, or `None` where the event is not
/// one that the phase waits for.
pub open spec fn define_step(demo: Demo, phase: DefinePhase, event: Event) -> Option<
    (DefinePhase, Seq<Effect>),
> {
    match (phase, event) {
        (DefinePhase::Idle, Event::Entered) => Some(
            (
                DefinePhase::CreatingPool,
                seq![Effect::Print(ConsoleLine::ApplicationDefine), Effect::Call(pool_call(demo))],
            ),
        ),
        (DefinePhase::CreatingPool, Event::Reply(KernelReply::BytePoolCreated)) => Some(
            (DefinePhase::AllocatingStack { slot: 0 }, seq![Effect::Call(stack_call(demo))]),
        ),
        (
            DefinePhase::AllocatingStack { slot },
            Event::Reply(KernelReply::ByteAllocated { memory }),
        ) => if slot >= THREADS {
            None
        } else if memory == 0 {
            Some(
                (
                    DefinePhase::Halted,
                    seq![
                        Effect::Print(ConsoleLine::StackAllocated { address: memory }),
                        Effect::Halt(Fatal::NoSpaceForStack),
                    ],
                ),
            )
        } else {
            Some(
                (
                    DefinePhase::CreatingThread { slot },
                    seq![
                        Effect::Print(ConsoleLine::StackAllocated { address: memory }),
                        Effect::Call(thread_call(demo, slot, memory)),
                    ],
                ),
            )
        },
        (
            DefinePhase::CreatingThread { slot },
            Event::Reply(KernelReply::ThreadCreated { status }),
        ) => if slot >= THREADS {
            None
        } else if status != TX_SUCCESS {
            Some(
                (
                    DefinePhase::Halted,
                    seq![Effect::Halt(Fatal::ThreadCreateFailed { status })],
                ),
            )
        } else if slot + 1 < THREADS {
            Some(
                (
                    DefinePhase::AllocatingStack { slot: (slot + 1) as u8 },
                    seq![Effect::Print(spawned_line(slot)), Effect::Call(stack_call(demo))],
                ),
            )
        } else {
            Some(
                (
                    DefinePhase::Done,
                    seq![Effect::Print(spawned_line(slot)), Effect::Return],
                ),
            )
        },
        _ => None,
    }
}

/// One step of the application-define callback.
///
/// Start in `DefinePhase::Idle` with `Event::Entered` when the kernel
/// calls. The result is the phase to go on from and the burst to perform,
/// or `None` if `event` is not what `phase` waits for.
pub fn tx_application_define(demo: Demo, phase: DefinePhase, event: Event) -> (next: Option<
    (DefinePhase, Vec<Effect>),
>)
    ensures
        match next {
            Some((after, burst)) => define_step(demo, phase, event) == Some((after, burst@)),
            None => define_step(demo, phase, event) is None,
        },
{
    match (phase, event) {
        (DefinePhase::Idle, Event::Entered) => {
            let pool = KernelCall::BytePoolCreate {
                name: demo.pool_name(),
                pool_size: demo.pool_size(),
            };
            let burst = vec![Effect::Print(ConsoleLine::ApplicationDefine), Effect::Call(pool)];
            Some((DefinePhase::CreatingPool, burst))
        },
        (DefinePhase::CreatingPool, Event::Reply(KernelReply::BytePoolCreated)) => {
            let burst = vec![Effect::Call(allocate_stack(demo))];
            Some((DefinePhase::AllocatingStack { slot: 0 }, burst))
        },
        (
            DefinePhase::AllocatingStack { slot },
            Event::Reply(KernelReply::ByteAllocated { memory }),
        ) => {
            if slot >= THREADS {
                return None;
            }
            let report = Effect::Print(ConsoleLine::StackAllocated { address: memory });
            if memory == 0 {
                let burst = vec![report, Effect::Halt(Fatal::NoSpaceForStack)];
                return Some((DefinePhase::Halted, burst));
            }
            let thread = KernelCall::ThreadCreate {
                slot,
                name: demo.thread_name(slot),
                entry_input: entry_input(slot),
                stack_start: memory,
                stack_size: demo.stack_size(),
                priority: THREAD_PRIORITY,
                preempt_threshold: THREAD_PRIORITY,
                time_slice: TX_NO_TIME_SLICE,
                auto_start: TX_AUTO_START,
            };
            let burst = vec![report, Effect::Call(thread)];
            Some((DefinePhase::CreatingThread { slot }, burst))
        },
        (
            DefinePhase::CreatingThread { slot },
            Event::Reply(KernelReply::ThreadCreated { status }),
        ) => {
            if slot >= THREADS {
                return None;
            }
            if status != TX_SUCCESS {
                let burst = vec![Effect::Halt(Fatal::ThreadCreateFailed { status })];
                return Some((DefinePhase::Halted, burst));
            }
            let report = Effect::Print(
                ConsoleLine::ThreadSpawned { entry_input: entry_input(slot) },
            );
            if slot + 1 < THREADS {
                let burst = vec![report, Effect::Call(allocate_stack(demo))];
                Some((DefinePhase::AllocatingStack { slot: slot + 1 }, burst))
            } else {
                let burst = vec![report, Effect::Return];
                Some((DefinePhase::Done, burst))
            }
        },
        _ => None,
    }
}

/// Builds the call that asks the pool for one stack.
fn allocate_stack(demo: Demo) -> (call: KernelCall)
    ensures
        call == stack_call(demo),
{
    KernelCall::ByteAllocate { memory_size: demo.stack_size(), wait_option: TX_NO_WAIT }
}

/// Where the callback stands after `events`, fed one by one from
/// `DefinePhase::Idle`, and everything it has asked for on the way; `None`
/// if one of the events came when the callback was not waiting for it.
pub open spec fn define_run(demo: Demo, events: Seq<Event>) -> Option<(DefinePhase, Seq<Effect>)>
    decreases events.len(),
{
    if events.len() == 0 {
        Some((DefinePhase::Idle, Seq::empty()))
    } else {
        match define_run(demo, events.drop_last()) {
            Some((phase, trace)) => match define_step(demo, phase, events.last()) {
                Some((after, burst)) => Some((after, trace + burst)),
                None => None,
            },
            None => None,
        }
    }
}

/// The events of a start-up in which the kernel gives both stacks, at
/// `stack0` and `stack1`, and creates both threads.
pub open spec fn good_replies(stack0: usize, stack1: usize) -> Seq<Event> {
    seq![
        Event::Entered,
        Event::Reply(KernelReply::BytePoolCreated),
        Event::Reply(KernelReply::ByteAllocated { memory: stack0 }),
        Event::Reply(KernelReply::ThreadCreated { status: TX_SUCCESS }),
        Event::Reply(KernelReply::ByteAllocated { memory: stack1 }),
        Event::Reply(KernelReply::ThreadCreated { status: TX_SUCCESS }),
    ]
}

/// Every burst of the callback is well formed.
pub proof fn lemma_define_bursts_ok(demo: Demo, phase: DefinePhase, event: Event)
    ensures
        define_step(demo, phase, event) matches Some((_, burst)) ==> burst.len() > 0 && burst_ok(
            burst,
        ),
{
}

/// The callback is never at a loss: whatever a burst's last effect brings
/// back, the callback takes it as its next event.
pub proof fn lemma_define_takes_answers(
    demo: Demo,
    phase: DefinePhase,
    event: Event,
    answer: Event,
)
    requires
        define_step(demo, phase, event) is Some,
        answers(answer, define_step(demo, phase, event).unwrap().1.last()),
    ensures
        define_step(demo, define_step(demo, phase, event).unwrap().0, answer) is Some,
{
}

/// A thread that the kernel refuses stops the system: whatever status but
/// success comes back from the creation of a thread, the callback asks for
/// the halt with that status and for nothing else, and from then on it
/// takes no event, so no later thread is created and nothing is scheduled.
pub proof fn lemma_refused_thread_halts(demo: Demo, slot: u8, status: u32, later: Event)
    requires
        slot < THREADS,
        status != TX_SUCCESS,
    ensures
        define_step(
            demo,
            DefinePhase::CreatingThread { slot },
            Event::Reply(KernelReply::ThreadCreated { status }),
        ) == Some(
            (DefinePhase::Halted, seq![Effect::Halt(Fatal::ThreadCreateFailed { status })]),
        ),
        define_step(demo, DefinePhase::Halted, later) is None,
{
}

/// A null stack stops the system: the callback reports the address, asks
/// for the halt, creates no thread on it, and takes no event from then on.
pub proof fn lemma_null_stack_halts(demo: Demo, slot: u8, later: Event)
    requires
        slot < THREADS,
    ensures
        define_step(
            demo,
            DefinePhase::AllocatingStack { slot },
            Event::Reply(KernelReply::ByteAllocated { memory: 0 }),
        ) == Some(
            (
                DefinePhase::Halted,
                seq![
                    Effect::Print(ConsoleLine::StackAllocated { address: 0 }),
                    Effect::Halt(Fatal::NoSpaceForStack),
                ],
            ),
        ),
        define_step(demo, DefinePhase::Halted, later) is None,
{
}

/// When the kernel gives both stacks and creates both threads, the
/// callback runs to its end without a halt. On the way it creates the one
/// pool, and for each thread in turn allocates a stack of the demo's stack
/// size and creates the thread on exactly the address that came back.
pub proof fn lemma_define_completes(demo: Demo, stack0: usize, stack1: usize)
    requires
        stack0 != 0,
        stack1 != 0,
    ensures
        define_run(demo, good_replies(stack0, stack1)) == Some(
            (
                DefinePhase::Done,
                seq![
                    Effect::Print(ConsoleLine::ApplicationDefine),
                    Effect::Call(pool_call(demo)),
                    Effect::Call(stack_call(demo)),
                    Effect::Print(ConsoleLine::StackAllocated { address: stack0 }),
                    Effect::Call(thread_call(demo, 0, stack0)),
                    Effect::Print(spawned_line(0)),
                    Effect::Call(stack_call(demo)),
                    Effect::Print(ConsoleLine::StackAllocated { address: stack1 }),
                    Effect::Call(thread_call(demo, 1, stack1)),
                    Effect::Print(spawned_line(1)),
                    Effect::Return,
                ],
            ),
        ),
{
    // The run, one event at a time.
    let pool = seq![Effect::Print(ConsoleLine::ApplicationDefine), Effect::Call(pool_call(demo))];
    let stack = pool.push(Effect::Call(stack_call(demo)));
    let thread = stack.push(Effect::Print(ConsoleLine::StackAllocated { address: stack0 })).push(
        Effect::Call(thread_call(demo, 0, stack0)),
    );
    let next_stack = thread.push(Effect::Print(spawned_line(0))).push(
        Effect::Call(stack_call(demo)),
    );
    let next_thread = next_stack.push(
        Effect::Print(ConsoleLine::StackAllocated { address: stack1 }),
    ).push(Effect::Call(thread_call(demo, 1, stack1)));
    let e6 = good_replies(stack0, stack1);
    let e5 = e6.drop_last();
    let e4 = e5.drop_last();
    let e3 = e4.drop_last();
    let e2 = e3.drop_last();
    let e1 = e2.drop_last();
    assert(define_run(demo, e1.drop_last()) == Some((DefinePhase::Idle, Seq::<Effect>::empty())));
    assert(define_run(demo, e1) == Some((DefinePhase::CreatingPool, pool)));
    assert(define_run(demo, e2) == Some((DefinePhase::AllocatingStack { slot: 0 }, stack)));
    assert(define_run(demo, e3) == Some((DefinePhase::CreatingThread { slot: 0 }, thread)));
    assert(define_run(demo, e4) == Some((DefinePhase::AllocatingStack { slot: 1 }, next_stack)));
    assert(define_run(demo, e5) == Some((DefinePhase::CreatingThread { slot: 1 }, next_thread)));
}

/// Whatever the kernel answers, a halt is the last thing the callback asks
/// for, and so is its return: in every run the trace holds a halt exactly
/// when the callback has stopped the system, a return exactly when it is
/// done, and either only as its last effect.
pub proof fn lemma_define_stops_at_halt(demo: Demo, events: Seq<Event>)
    requires
        define_run(demo, events) is Some,
    ensures
        ({
            let (phase, trace) = define_run(demo, events).unwrap();
            &&& forall|i: int| 0 <= i < trace.len() - 1 ==> !(#[trigger] trace[i]).ends()
            &&& phase is Halted <==> trace.len() > 0 && trace.last() is Halt
            &&& phase is Done <==> trace.len() > 0 && trace.last() is Return
        }),
    decreases events.len(),
{
    if events.len() > 0 {
        lemma_define_stops_at_halt(demo, events.drop_last());
        let phase = define_run(demo, events.drop_last()).unwrap().0;
        lemma_define_bursts_ok(demo, phase, events.last());
    }
}

/// The number of pools created among `effects`.
pub open spec fn pools_created(effects: Seq<Effect>) -> nat
    decreases effects.len(),
{
    if effects.len() == 0 {
        0
    } else {
        match effects.last() {
            Effect::Call(KernelCall::BytePoolCreate { .. }) => pools_created(effects.drop_last())
                + 1,
            _ => pools_created(effects.drop_last()),
        }
    }
}

/// The number of times that thread `slot` is created among `effects`.
pub open spec fn threads_created(slot: u8, effects: Seq<Effect>) -> nat
    decreases effects.len(),
{
    if effects.len() == 0 {
        0
    } else {
        match effects.last() {
            Effect::Call(KernelCall::ThreadCreate { slot: created, .. }) if created == slot =>
                threads_created(slot, effects.drop_last()) + 1,
            _ => threads_created(slot, effects.drop_last()),
        }
    }
}

/// How many pools and threads a trace must hold for the callback to stand
/// in `phase`: the pool as soon as its creation has been asked for, and
/// the threads in the order of their slots, each as soon as its creation
/// has been asked for. A callback that has stopped the system may hold
/// any of them, but none twice.
pub open spec fn created_so_far(phase: DefinePhase, trace: Seq<Effect>) -> bool {
    match phase {
        DefinePhase::Idle => pools_created(trace) == 0 && forall|slot: u8|
            threads_created(slot, trace) == 0,
        DefinePhase::CreatingPool => pools_created(trace) == 1 && forall|slot: u8|
            threads_created(slot, trace) == 0,
        DefinePhase::AllocatingStack { slot: next } => pools_created(trace) == 1 && forall|slot: u8|
            threads_created(slot, trace) == if slot < next {
                1nat
            } else {
                0nat
            },
        DefinePhase::CreatingThread { slot: next } => pools_created(trace) == 1 && forall|slot: u8|
            threads_created(slot, trace) == if slot <= next {
                1nat
            } else {
                0nat
            },
        DefinePhase::Done => pools_created(trace) == 1 && forall|slot: u8|
            threads_created(slot, trace) == if slot < THREADS {
                1nat
            } else {
                0nat
            },
        DefinePhase::Halted => pools_created(trace) == 1 && forall|slot: u8|
            threads_created(slot, trace) <= 1,
    }
}

/// What a burst of the callback adds to the counts: its creations are in
/// its last effect, since the effect before that, if there is one, is a
/// line on the console.
proof fn lemma_created_in_burst(trace: Seq<Effect>, burst: Seq<Effect>, slot: u8)
    requires
        burst.len() == 1 || (burst.len() == 2 && burst[0] is Print),
    ensures
        pools_created(trace + burst) == pools_created(trace) + if burst.last() matches Effect::Call(
            KernelCall::BytePoolCreate { .. },
        ) {
            1nat
        } else {
            0nat
        },
        threads_created(slot, trace + burst) == threads_created(slot, trace)
            + if burst.last() matches Effect::Call(KernelCall::ThreadCreate { slot: created, .. })
            && created == slot {
            1nat
        } else {
            0nat
        },
{
    let whole = trace + burst;
    reveal_with_fuel(pools_created, 2);
    reveal_with_fuel(threads_created, 2);
    if burst.len() == 1 {
        assert(whole.drop_last() =~= trace);
    } else {
        assert(whole.drop_last().drop_last() =~= trace);
    }
}

/// Every kernel object is created once: whatever the kernel answers, the
/// callback never asks for a second pool, never creates the thread of a
/// slot twice, and creates no thread beyond the demo's two; and when it is
/// done it has created the pool and both threads.
pub proof fn lemma_define_creates_once(demo: Demo, events: Seq<Event>)
    requires
        define_run(demo, events) is Some,
    ensures
        ({
            let (phase, trace) = define_run(demo, events).unwrap();
            &&& created_so_far(phase, trace)
            &&& pools_created(trace) <= 1
            &&& forall|slot: u8| threads_created(slot, trace) <= 1
            &&& forall|slot: u8| slot >= THREADS ==> threads_created(slot, trace) == 0
        }),
    decreases events.len(),
{
    if events.len() > 0 {
        lemma_define_creates_once(demo, events.drop_last());
        let (phase, trace) = define_run(demo, events.drop_last()).unwrap();
        let burst = define_step(demo, phase, events.last()).unwrap().1;
        assert forall|slot: u8| #[trigger]
            threads_created(slot, trace + burst) == threads_created(slot, trace)
                + if burst.last() matches Effect::Call(
                KernelCall::ThreadCreate { slot: created, .. },
            ) && created == slot {
                1nat
            } else {
                0nat
            } by {
            lemma_created_in_burst(trace, burst, slot);
        }
        lemma_created_in_burst(trace, burst, 0);
    }
}

} // verus!
