use threadx_glue::app_define::{tx_application_define, DefinePhase};
use threadx_glue::boot::{boot, kmain, nrf_main, BootPhase, SYSTEM_CLOCK, SYSTICK_CYCLES};
use threadx_glue::demo::{entry_input, Demo, POOL_HEADROOM, SLEEP_TICKS, THREADS, THREAD_PRIORITY};
use threadx_glue::effect::{BoardOp, ConsoleLine, Effect, Event, Fatal};
use threadx_glue::mmio::{RegRead, RegWrite};
use threadx_glue::threadx::{
    KernelCall, KernelReply, TX_16_ULONG, TX_1_ULONG, TX_2_ULONG, TX_4_ULONG, TX_8_ULONG, TX_AND,
    TX_AND_CLEAR, TX_AUTO_ACTIVATE, TX_AUTO_START, TX_CLEAR_ID, TX_DONT_START, TX_EMPTY, TX_FALSE,
    TX_INHERIT, TX_NO_ACTIVATE, TX_NO_INHERIT, TX_NO_MESSAGES, TX_NO_SUSPENSIONS,
    TX_NO_TIME_SLICE, TX_NO_WAIT, TX_OR, TX_OR_CLEAR, TX_SUCCESS, TX_THREAD_ENTRY,
    TX_THREAD_EXIT, TX_TRUE, TX_WAIT_FOREVER,
};
use threadx_glue::worker::{my_thread, Worker};

const DEMOS: [Demo; 3] = [Demo::DemoApp, Demo::Nrf52App, Demo::QemuCortexR5App];

/// A stand-in for the kernel's byte pool: it hands out addresses from one
/// arena, each block with a header in front, and a null pointer when the
/// arena is used up.
struct Arena {
    next: usize,
    end: usize,
}

impl Arena {
    const HEADER: usize = 8;

    fn new(start: usize, size: u32) -> Arena {
        Arena { next: start, end: start + size as usize }
    }

    fn allocate(&mut self, size: u32) -> usize {
        let block = self.next + Arena::HEADER;
        if block + size as usize > self.end {
            return 0;
        }
        self.next = block + size as usize;
        block
    }
}

/// Runs the callback against the stand-in kernel, which answers every
/// thread creation with `statuses` in turn. Returns the last phase and
/// everything that was asked for.
fn run_define(
    demo: Demo,
    pool_size_override: Option<u32>,
    statuses: &[u32],
) -> (DefinePhase, Vec<Effect>) {
    let mut arena = Arena::new(0x2000_0000, 0);
    let mut statuses = statuses.iter();
    let mut phase = DefinePhase::Idle;
    let mut event = Event::Entered;
    let mut trace = Vec::new();
    loop {
        let (after, burst) = tx_application_define(demo, phase, event).expect("event in season");
        phase = after;
        let last = *burst.last().expect("a burst is never empty");
        trace.extend(burst);
        event = match last {
            Effect::Call(KernelCall::BytePoolCreate { pool_size, .. }) => {
                arena = Arena::new(0x2000_0000, pool_size_override.unwrap_or(pool_size));
                Event::Reply(KernelReply::BytePoolCreated)
            }
            Effect::Call(KernelCall::ByteAllocate { memory_size, .. }) => {
                Event::Reply(KernelReply::ByteAllocated { memory: arena.allocate(memory_size) })
            }
            Effect::Call(KernelCall::ThreadCreate { .. }) => {
                Event::Reply(KernelReply::ThreadCreated { status: *statuses.next().unwrap() })
            }
            Effect::Return | Effect::Halt(_) => return (phase, trace),
            other => panic!("burst ends in {:?}", other),
        };
    }
}

#[test]
fn kernel_constants() {
    assert_eq!(TX_SUCCESS, 0);
    assert_eq!(TX_NO_WAIT, 0);
    assert_eq!(TX_WAIT_FOREVER, 0xFFFF_FFFF);
    assert_eq!(TX_NO_TIME_SLICE, 0);
    assert_eq!((TX_AUTO_START, TX_DONT_START), (1, 0));
    assert_eq!((TX_AND, TX_AND_CLEAR, TX_OR, TX_OR_CLEAR), (2, 3, 0, 1));
    assert_eq!(
        (TX_1_ULONG, TX_2_ULONG, TX_4_ULONG, TX_8_ULONG, TX_16_ULONG),
        (1, 2, 4, 8, 16)
    );
    assert_eq!((TX_AUTO_ACTIVATE, TX_NO_ACTIVATE), (1, 0));
    assert_eq!((TX_TRUE, TX_FALSE), (1, 0));
    assert_eq!((TX_INHERIT, TX_NO_INHERIT), (1, 0));
    assert_eq!((TX_THREAD_ENTRY, TX_THREAD_EXIT), (0, 1));
    assert_eq!((TX_NO_SUSPENSIONS, TX_NO_MESSAGES, TX_EMPTY, TX_CLEAR_ID), (0, 0, 0, 0));
}

#[test]
fn demo_configuration() {
    assert_eq!(THREADS, 2);
    assert_eq!(Demo::DemoApp.stack_size(), 1024);
    assert_eq!(Demo::DemoApp.pool_size(), 32768);
    assert_eq!(Demo::Nrf52App.stack_size(), 8192);
    assert_eq!(Demo::Nrf52App.pool_size(), 32768);
    assert_eq!(Demo::QemuCortexR5App.stack_size(), 16384);
    assert_eq!(Demo::QemuCortexR5App.pool_size(), 49152);
    assert_eq!(entry_input(0), 0x12345678);
    assert_eq!(entry_input(1), 0xAABBCCDD);
}

#[test]
fn pool_holds_both_stacks_with_headroom() {
    for demo in DEMOS {
        assert!(demo.pool_size() >= 2 * demo.stack_size() + POOL_HEADROOM);
    }
}

#[test]
fn names_end_in_their_only_nul() {
    let mut names = Vec::new();
    for demo in DEMOS {
        names.push(demo.pool_name());
        names.push(demo.thread_name(0));
        names.push(demo.thread_name(1));
    }
    for name in names {
        assert_eq!(name.find('\0'), Some(name.len() - 1), "{:?}", name);
    }
    assert_eq!(Demo::DemoApp.pool_name(), "byte pool 0\0");
    assert_eq!(Demo::DemoApp.thread_name(0), "thread 0\0");
    assert_eq!(Demo::DemoApp.thread_name(1), "thread 1\0");
    assert_eq!(Demo::Nrf52App.pool_name(), "byte-pool0\0");
    assert_eq!(Demo::QemuCortexR5App.thread_name(0), "thread0\0");
    assert_eq!(Demo::QemuCortexR5App.thread_name(1), "thread1\0");
}

#[test]
fn define_first_burst_creates_the_pool() {
    let (phase, burst) =
        tx_application_define(Demo::DemoApp, DefinePhase::Idle, Event::Entered).unwrap();
    assert_eq!(phase, DefinePhase::CreatingPool);
    assert_eq!(
        burst,
        vec![
            Effect::Print(ConsoleLine::ApplicationDefine),
            Effect::Call(KernelCall::BytePoolCreate { name: "byte pool 0\0", pool_size: 32768 }),
        ]
    );
}

#[test]
fn define_with_pool_32768_and_stack_1024_completes() {
    let (phase, trace) = run_define(Demo::DemoApp, None, &[TX_SUCCESS, TX_SUCCESS]);
    assert_eq!(phase, DefinePhase::Done);
    let allocate =
        Effect::Call(KernelCall::ByteAllocate { memory_size: 1024, wait_option: TX_NO_WAIT });
    let create = |slot: u8, name: &'static str, entry_input: u32, stack_start: usize| {
        Effect::Call(KernelCall::ThreadCreate {
            slot,
            name,
            entry_input,
            stack_start,
            stack_size: 1024,
            priority: 1,
            preempt_threshold: 1,
            time_slice: 0,
            auto_start: 1,
        })
    };
    assert_eq!(
        trace,
        vec![
            Effect::Print(ConsoleLine::ApplicationDefine),
            Effect::Call(KernelCall::BytePoolCreate { name: "byte pool 0\0", pool_size: 32768 }),
            allocate,
            Effect::Print(ConsoleLine::StackAllocated { address: 0x2000_0008 }),
            create(0, "thread 0\0", 0x12345678, 0x2000_0008),
            Effect::Print(ConsoleLine::ThreadSpawned { entry_input: 0x12345678 }),
            allocate,
            Effect::Print(ConsoleLine::StackAllocated { address: 0x2000_0410 }),
            create(1, "thread 1\0", 0xAABBCCDD, 0x2000_0410),
            Effect::Print(ConsoleLine::ThreadSpawned { entry_input: 0xAABBCCDD }),
            Effect::Return,
        ]
    );
}

#[test]
fn define_completes_on_every_demo() {
    for demo in DEMOS {
        let (phase, trace) = run_define(demo, None, &[TX_SUCCESS, TX_SUCCESS]);
        assert_eq!(phase, DefinePhase::Done);
        assert_eq!(trace.last(), Some(&Effect::Return));
        assert!(!trace.iter().any(|e| matches!(e, Effect::Halt(_))));
        let pools = trace
            .iter()
            .filter(|e| matches!(e, Effect::Call(KernelCall::BytePoolCreate { .. })))
            .count();
        let stacks = trace
            .iter()
            .filter(|e| matches!(e, Effect::Call(KernelCall::ByteAllocate { .. })))
            .count();
        let threads: Vec<&Effect> = trace
            .iter()
            .filter(|e| matches!(e, Effect::Call(KernelCall::ThreadCreate { .. })))
            .collect();
        assert_eq!((pools, stacks, threads.len()), (1, 2, 2));
        for thread in threads {
            match thread {
                Effect::Call(KernelCall::ThreadCreate {
                    stack_start,
                    stack_size,
                    priority,
                    preempt_threshold,
                    time_slice,
                    auto_start,
                    ..
                }) => {
                    assert_ne!(*stack_start, 0);
                    assert_eq!(*stack_size, demo.stack_size());
                    assert_eq!(*priority, THREAD_PRIORITY);
                    assert_eq!(*preempt_threshold, THREAD_PRIORITY);
                    assert_eq!(*time_slice, TX_NO_TIME_SLICE);
                    assert_eq!(*auto_start, TX_AUTO_START);
                }
                _ => unreachable!(),
            }
        }
    }
}

#[test]
fn define_halts_when_the_first_stack_is_null() {
    let (phase, trace) = run_define(Demo::Nrf52App, Some(8192), &[]);
    assert_eq!(phase, DefinePhase::Halted);
    assert_eq!(
        &trace[trace.len() - 2..],
        &[
            Effect::Print(ConsoleLine::StackAllocated { address: 0 }),
            Effect::Halt(Fatal::NoSpaceForStack),
        ]
    );
    assert!(!trace.iter().any(|e| matches!(e, Effect::Call(KernelCall::ThreadCreate { .. }))));
}

#[test]
fn define_halts_when_the_second_stack_is_null() {
    // room for one stack and its header, not for two
    let (phase, trace) = run_define(Demo::QemuCortexR5App, Some(16384 + 8 + 100), &[TX_SUCCESS]);
    assert_eq!(phase, DefinePhase::Halted);
    assert_eq!(trace.last(), Some(&Effect::Halt(Fatal::NoSpaceForStack)));
    let threads = trace
        .iter()
        .filter(|e| matches!(e, Effect::Call(KernelCall::ThreadCreate { .. })))
        .count();
    assert_eq!(threads, 1);
}

#[test]
fn define_halts_when_the_kernel_refuses_the_first_thread() {
    let (phase, trace) = run_define(Demo::QemuCortexR5App, None, &[0x0F]);
    assert_eq!(phase, DefinePhase::Halted);
    assert_eq!(trace.last(), Some(&Effect::Halt(Fatal::ThreadCreateFailed { status: 0x0F })));
    let stacks = trace
        .iter()
        .filter(|e| matches!(e, Effect::Call(KernelCall::ByteAllocate { .. })))
        .count();
    assert_eq!(stacks, 1);
    assert!(!trace.iter().any(|e| matches!(e, Effect::Print(ConsoleLine::ThreadSpawned { .. }))));
}

#[test]
fn define_halts_when_the_kernel_refuses_the_second_thread() {
    let (phase, trace) = run_define(Demo::DemoApp, None, &[TX_SUCCESS, 0x05]);
    assert_eq!(phase, DefinePhase::Halted);
    assert_eq!(trace.last(), Some(&Effect::Halt(Fatal::ThreadCreateFailed { status: 0x05 })));
    assert!(!trace.iter().any(|e| matches!(e, Effect::Return)));
}

#[test]
fn define_takes_nothing_once_halted_or_done() {
    let events = [
        Event::Entered,
        Event::Value(0),
        Event::Reply(KernelReply::BytePoolCreated),
        Event::Reply(KernelReply::ByteAllocated { memory: 0x2000_0000 }),
        Event::Reply(KernelReply::ThreadCreated { status: TX_SUCCESS }),
        Event::Reply(KernelReply::ThreadWoke),
        Event::Reply(KernelReply::KernelExited),
    ];
    for demo in DEMOS {
        for event in events {
            assert_eq!(tx_application_define(demo, DefinePhase::Halted, event), None);
            assert_eq!(tx_application_define(demo, DefinePhase::Done, event), None);
        }
    }
}

#[test]
fn define_refuses_events_out_of_season() {
    let demo = Demo::Nrf52App;
    let woke = Event::Reply(KernelReply::ThreadWoke);
    let created = Event::Reply(KernelReply::ThreadCreated { status: TX_SUCCESS });
    let allocated = Event::Reply(KernelReply::ByteAllocated { memory: 0x2000_0000 });
    assert_eq!(tx_application_define(demo, DefinePhase::Idle, created), None);
    assert_eq!(tx_application_define(demo, DefinePhase::Idle, woke), None);
    assert_eq!(tx_application_define(demo, DefinePhase::CreatingPool, Event::Entered), None);
    assert_eq!(tx_application_define(demo, DefinePhase::CreatingPool, allocated), None);
    assert_eq!(
        tx_application_define(demo, DefinePhase::AllocatingStack { slot: 0 }, created),
        None
    );
    assert_eq!(
        tx_application_define(demo, DefinePhase::CreatingThread { slot: 1 }, allocated),
        None
    );
    // there is no third thread
    assert_eq!(
        tx_application_define(demo, DefinePhase::AllocatingStack { slot: 2 }, allocated),
        None
    );
    assert_eq!(
        tx_application_define(demo, DefinePhase::CreatingThread { slot: 2 }, created),
        None
    );
}

#[test]
fn fatal_messages() {
    assert_eq!(Fatal::NoSpaceForStack.message(), "No space for stack");
    assert_eq!(Fatal::ThreadCreateFailed { status: 7 }.message(), "Failed to create thread");
    assert_eq!(Fatal::KernelExited.message(), "Kernel exited");
}

#[test]
fn worker_names_itself_then_sleeps() {
    let (worker, burst) =
        my_thread(Worker::Created { value: 0x12345678 }, Event::Entered).unwrap();
    assert_eq!(worker, Worker::Sleeping { value: 0x12345678, thread_counter: 1 });
    assert_eq!(
        burst,
        vec![
            Effect::Print(ConsoleLine::ThreadHello { value: 0x12345678 }),
            Effect::Call(KernelCall::ThreadSleep { timer_ticks: 100 }),
        ]
    );
}

#[test]
fn worker_five_cycles_give_five_count_lines() {
    assert_eq!(SLEEP_TICKS, 100);
    for value in [0x12345678u32, 0xAABBCCDD] {
        let (mut worker, mut trace) = my_thread(Worker::Created { value }, Event::Entered).unwrap();
        let mut slept = 0u32;
        for _ in 0..5 {
            match trace.last() {
                Some(Effect::Call(KernelCall::ThreadSleep { timer_ticks })) => slept += timer_ticks,
                other => panic!("burst ends in {:?}", other),
            }
            let (after, burst) = my_thread(worker, Event::Reply(KernelReply::ThreadWoke)).unwrap();
            worker = after;
            trace.extend(burst);
        }
        assert_eq!(slept, 500);
        let counts: Vec<u64> = trace
            .iter()
            .filter_map(|e| match e {
                Effect::Print(ConsoleLine::ThreadCount { value: v, count }) => {
                    assert_eq!(*v, value);
                    Some(*count)
                }
                _ => None,
            })
            .collect();
        assert_eq!(counts, vec![1, 2, 3, 4, 5]);
        assert_eq!(worker, Worker::Sleeping { value, thread_counter: 6 });
    }
}

#[test]
fn worker_counter_stops_at_the_top() {
    let woke = Event::Reply(KernelReply::ThreadWoke);
    let (worker, burst) =
        my_thread(Worker::Sleeping { value: 1, thread_counter: u64::MAX - 1 }, woke).unwrap();
    assert_eq!(worker, Worker::Sleeping { value: 1, thread_counter: u64::MAX });
    assert_eq!(burst[0], Effect::Print(ConsoleLine::ThreadCount { value: 1, count: u64::MAX - 1 }));
    assert_eq!(my_thread(worker, woke), None);
}

#[test]
fn worker_refuses_events_out_of_season() {
    let woke = Event::Reply(KernelReply::ThreadWoke);
    assert_eq!(my_thread(Worker::Created { value: 1 }, woke), None);
    assert_eq!(my_thread(Worker::Sleeping { value: 1, thread_counter: 1 }, Event::Entered), None);
    assert_eq!(my_thread(Worker::Sleeping { value: 1, thread_counter: 1 }, Event::Value(3)), None);
}

#[test]
fn systick_reload_value() {
    assert_eq!(SYSTEM_CLOCK, 64_000_000);
    assert_eq!(SYSTICK_CYCLES, 639_999);
}

#[test]
fn kmain_sets_up_timer_and_controller_then_reads_control() {
    let (phase, burst) = kmain(BootPhase::Reset, Event::Entered).unwrap();
    assert_eq!(phase, BootPhase::StartingTimer);
    assert_eq!(burst.len(), 23);
    assert_eq!(burst[0], Effect::Print(ConsoleLine::Version));
    assert_eq!(burst[1], Effect::Write(RegWrite { addr: 0x101e_2000, value: 10_000 }));
    assert_eq!(burst[2], Effect::Write(RegWrite { addr: 0x101e_2008, value: 0x62 }));
    for i in 0..16usize {
        assert_eq!(
            burst[3 + i],
            Effect::Write(RegWrite { addr: 0x1014_0200 + 4 * i, value: 0x20 + i as u32 })
        );
    }
    assert_eq!(burst[19], Effect::Write(RegWrite { addr: 0x1014_0034, value: 0x18 }));
    assert_eq!(burst[20], Effect::Write(RegWrite { addr: 0x1014_000C, value: 0 }));
    assert_eq!(burst[21], Effect::Write(RegWrite { addr: 0x1014_0010, value: 1 << 4 }));
    assert_eq!(burst[22], Effect::Read(RegRead { addr: 0x101e_2008 }));
}

#[test]
fn kmain_starts_timer_then_enters_kernel() {
    let (phase, burst) = kmain(BootPhase::StartingTimer, Event::Value(0x62)).unwrap();
    assert_eq!(phase, BootPhase::InKernel);
    assert_eq!(
        burst,
        vec![
            Effect::Write(RegWrite { addr: 0x101e_2008, value: 0xE2 }),
            Effect::Call(KernelCall::InitializeKernelEnter),
        ]
    );
}

#[test]
fn kernel_exit_halts_every_demo() {
    let exited = Event::Reply(KernelReply::KernelExited);
    for demo in DEMOS {
        let (phase, burst) = boot(demo, BootPhase::InKernel, exited).unwrap();
        assert_eq!(phase, BootPhase::Halted);
        assert_eq!(burst, vec![Effect::Halt(Fatal::KernelExited)]);
        assert_eq!(boot(demo, BootPhase::Halted, exited), None);
        assert_eq!(boot(demo, BootPhase::Halted, Event::Entered), None);
    }
    assert_eq!(kmain(BootPhase::InKernel, exited).unwrap().0, BootPhase::Halted);
}

#[test]
fn demo_app_start_up() {
    let (phase, burst) = nrf_main(Demo::DemoApp, BootPhase::Reset, Event::Entered).unwrap();
    assert_eq!(phase, BootPhase::InKernel);
    assert_eq!(
        burst,
        vec![
            Effect::Print(ConsoleLine::Version),
            Effect::Board(BoardOp::TakePeripherals),
            Effect::Board(BoardOp::StartClocks),
            Effect::Board(BoardOp::LedOn),
            Effect::Print(ConsoleLine::EnteringKernel),
            Effect::Call(KernelCall::InitializeKernelEnter),
        ]
    );
}

#[test]
fn nrf52_app_start_up_programs_the_system_tick() {
    let (phase, burst) = nrf_main(Demo::Nrf52App, BootPhase::Reset, Event::Entered).unwrap();
    assert_eq!(phase, BootPhase::InKernel);
    assert_eq!(
        burst,
        vec![
            Effect::Print(ConsoleLine::Version),
            Effect::Board(BoardOp::TakePeripherals),
            Effect::Board(BoardOp::StartClocks),
            Effect::Board(BoardOp::LedOn),
            Effect::Board(BoardOp::EnableCycleCounter),
            Effect::Board(BoardOp::StartSysTick { reload: 639_999 }),
            Effect::Print(ConsoleLine::EnteringKernel),
            Effect::Call(KernelCall::InitializeKernelEnter),
        ]
    );
}

#[test]
fn nrf_main_is_not_for_the_qemu_machine() {
    assert_eq!(nrf_main(Demo::QemuCortexR5App, BootPhase::Reset, Event::Entered), None);
    assert_eq!(
        nrf_main(
            Demo::QemuCortexR5App,
            BootPhase::InKernel,
            Event::Reply(KernelReply::KernelExited)
        ),
        None
    );
}

#[test]
fn boot_refuses_events_out_of_season() {
    for demo in DEMOS {
        assert_eq!(boot(demo, BootPhase::Reset, Event::Value(0)), None);
        assert_eq!(boot(demo, BootPhase::Reset, Event::Reply(KernelReply::KernelExited)), None);
        assert_eq!(boot(demo, BootPhase::InKernel, Event::Entered), None);
        assert_eq!(boot(demo, BootPhase::InKernel, Event::Reply(KernelReply::ThreadWoke)), None);
        assert_eq!(boot(demo, BootPhase::StartingTimer, Event::Entered), None);
    }
    assert_eq!(boot(Demo::DemoApp, BootPhase::StartingTimer, Event::Value(0)), None);
    assert_eq!(boot(Demo::Nrf52App, BootPhase::StartingTimer, Event::Value(0)), None);
}

/// Boots `demo` with a kernel that comes back at once, and returns what
/// was asked for, in order.
fn boot_trace(demo: Demo) -> Vec<Effect> {
    let mut phase = BootPhase::Reset;
    let mut event = Event::Entered;
    let mut trace = Vec::new();
    loop {
        let (after, burst) = boot(demo, phase, event).expect("event in season");
        phase = after;
        let last = *burst.last().unwrap();
        trace.extend(burst);
        event = match last {
            Effect::Read(_) => Event::Value(0x62),
            Effect::Call(KernelCall::InitializeKernelEnter) => {
                Event::Reply(KernelReply::KernelExited)
            }
            Effect::Halt(_) => return trace,
            other => panic!("burst ends in {:?}", other),
        };
    }
}

#[test]
fn boot_prints_version_first_and_nothing_after_kernel_exit() {
    for demo in DEMOS {
        let trace = boot_trace(demo);
        assert_eq!(trace[0], Effect::Print(ConsoleLine::Version));
        let enter = trace
            .iter()
            .position(|e| *e == Effect::Call(KernelCall::InitializeKernelEnter))
            .unwrap();
        assert_eq!(enter, trace.len() - 2);
        assert_eq!(trace[enter + 1], Effect::Halt(Fatal::KernelExited));
        for (i, effect) in trace.iter().enumerate() {
            if matches!(effect, Effect::Print(_)) {
                assert!(i < enter);
            }
            if *effect == Effect::Print(ConsoleLine::EnteringKernel) {
                assert_eq!(i + 1, enter);
            }
        }
        let announced = trace.contains(&Effect::Print(ConsoleLine::EnteringKernel));
        assert_eq!(announced, demo != Demo::QemuCortexR5App);
    }
}
