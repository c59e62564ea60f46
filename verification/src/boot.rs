//! Start-up: from reset to the call that enters the kernel.
//!
//! Each demo greets with its version, brings its board up, and enters the
//! kernel. The kernel is not meant to come back; if it does, the system
//! stops.

use vstd::prelude::*;
use crate::demo::Demo;
use crate::effect::{
    answers, as_effects, burst_ok, push_writes, BoardOp, ConsoleLine, Effect, Event, Fatal,
};
use crate::mmio::RegRead;
use crate::pl190_vic::Interrupt;
use crate::sp804_timer::{Interrupts, Mode, Timer0, CTRL_OFFSET};
use crate::threadx::{KernelCall, KernelReply};

verus! {

/// Core clock of the nRF52840, in Hz.
pub const SYSTEM_CLOCK: u32 = 64_000_000;

/// SysTick reload value for a hundred ticks a second.
pub const SYSTICK_CYCLES: u32 = (SYSTEM_CLOCK / 100) - 1;

/// Load value of Timer0 on the QEMU machine.
pub const TIMER_LOAD: u32 = 10_000;

/// The interrupt line of Timer0 at the interrupt controller.
pub const TIMER_IRQ: u8 = 4;

/// The interrupt controller of the QEMU machine.
pub type Vic = Interrupt<0x10140000>;

/// How far start-up has come.
#[derive(Clone, Copy, Debug, PartialEq, Eq, Structural)]
pub enum BootPhase {
    /// Out of reset; nothing done yet.
    Reset,
    /// The timer's control register is being read, to start the timer.
    StartingTimer,
    /// The kernel has been entered.
    InKernel,
    /// The system has stopped.
    Halted,
}

/// The first burst on the QEMU machine: the greeting, the timer set up to
/// reload and interrupt, the interrupt controller set up with the timer's
/// line enabled, and the load of the timer's control register.
pub open spec fn qemu_setup() -> Seq<Effect> {
    seq![Effect::Print(ConsoleLine::Version)] + as_effects(
        Timer0::init_writes(TIMER_LOAD, Mode::AutoReload, Interrupts::Enabled),
    ) + as_effects(Vic::init_writes()) + seq![
        Effect::Write(Vic::enable_write(TIMER_IRQ)),
        Effect::Read(RegRead { addr: Timer0::reg(CTRL_OFFSET) }),
    ]
}

/// The second burst on the QEMU machine, given what the timer's control
/// register held: the timer is started and the kernel entered.
pub open spec fn qemu_enter(control: u32) -> Seq<Effect> {
    seq![
        Effect::Write(Timer0::start_write(control)),
        Effect::Call(KernelCall::InitializeKernelEnter),
    ]
}

/// The one burst of the first nRF52840 demo: the greeting, the clocks, the
/// LED, and the kernel.
pub open spec fn demo_app_startup() -> Seq<Effect> {
    seq![
        Effect::Print(ConsoleLine::Version),
        Effect::Board(BoardOp::TakePeripherals),
        Effect::Board(BoardOp::StartClocks),
        Effect::Board(BoardOp::LedOn),
        Effect::Print(ConsoleLine::EnteringKernel),
        Effect::Call(KernelCall::InitializeKernelEnter),
    ]
}

/// The one burst of the second nRF52840 demo: as the first, and between
/// the LED and the kernel the cycle counter and the system tick.
pub open spec fn nrf52_app_startup() -> Seq<Effect> {
    seq![
        Effect::Print(ConsoleLine::Version),
        Effect::Board(BoardOp::TakePeripherals),
        Effect::Board(BoardOp::StartClocks),
        Effect::Board(BoardOp::LedOn),
        Effect::Board(BoardOp::EnableCycleCounter),
        Effect::Board(BoardOp::StartSysTick { reload: SYSTICK_CYCLES }),
        Effect::Print(ConsoleLine::EnteringKernel),
        Effect::Call(KernelCall::InitializeKernelEnter),
    ]
}

/// What start-up does in `phase` when `event` arrives: the phase it moves
/// to and the burst it asks for, or `None` where the event is not one that
/// the phase waits for.
pub open spec fn boot_step(demo: Demo, phase: BootPhase, event: Event) -> Option<
    (BootPhase, Seq<Effect>),
> {
    match (phase, event) {
        (BootPhase::Reset, Event::Entered) => match demo {
            Demo::DemoApp => Some((BootPhase::InKernel, demo_app_startup())),
            Demo::Nrf52App => Some((BootPhase::InKernel, nrf52_app_startup())),
            Demo::QemuCortexR5App => Some((BootPhase::StartingTimer, qemu_setup())),
        },
        (BootPhase::StartingTimer, Event::Value(control)) => match demo {
            Demo::QemuCortexR5App => Some((BootPhase::InKernel, qemu_enter(control))),
            _ => None,
        },
        (BootPhase::InKernel, Event::Reply(KernelReply::KernelExited)) => Some(
            (BootPhase::Halted, seq![Effect::Halt(Fatal::KernelExited)]),
        ),
        _ => None,
    }
}

/// The burst that stops the system after the kernel has come back.
fn kernel_exited() -> (burst: Vec<Effect>)
    ensures
        burst@ == seq![Effect::Halt(Fatal::KernelExited)],
{
    vec![Effect::Halt(Fatal::KernelExited)]
}

/// One step of start-up on the QEMU Cortex-R5 machine.
///
/// Start in `BootPhase::Reset` with `Event::Entered`. The result is the
/// phase to go on from and the burst to perform, or `None` if `event` is
/// not what `phase` waits for.
pub fn kmain(phase: BootPhase, event: Event) -> (next: Option<(BootPhase, Vec<Effect>)>)
    ensures
        match next {
            Some((after, burst)) => boot_step(Demo::QemuCortexR5App, phase, event) == Some(
                (after, burst@),
            ),
            None => boot_step(Demo::QemuCortexR5App, phase, event) is None,
        },
{
    match (phase, event) {
        (BootPhase::Reset, Event::Entered) => {
            let mut burst = vec![Effect::Print(ConsoleLine::Version)];

            // Create a timer
            let mut timer0 = Timer0::new_timer0();
            let timer_writes = timer0.init(TIMER_LOAD, Mode::AutoReload, Interrupts::Enabled);
            push_writes(&mut burst, &timer_writes);

            // Now we need to enable the Timer0 interrupt and connect it to IRQ on this core
            let mut vic = Vic::new();
            let vic_writes = vic.init();
            push_writes(&mut burst, &vic_writes);
            burst.push(Effect::Write(vic.enable_interrupt(TIMER_IRQ)));

            burst.push(Effect::Read(Timer0::read_control()));
            Some((BootPhase::StartingTimer, burst))
        },
        (BootPhase::StartingTimer, Event::Value(control)) => {
            let mut timer0 = Timer0::new_timer0();
            let burst = vec![
                Effect::Write(timer0.start(control)),
                Effect::Call(KernelCall::InitializeKernelEnter),
            ];
            Some((BootPhase::InKernel, burst))
        },
        (BootPhase::InKernel, Event::Reply(KernelReply::KernelExited)) => Some(
            (BootPhase::Halted, kernel_exited()),
        ),
        _ => None,
    }
}

/// One step of start-up on the nRF52840, for the demos that run there.
///
/// Start in `BootPhase::Reset` with `Event::Entered`. `None` if `event` is
/// not what `phase` waits for, and for the demo of another machine.
pub fn nrf_main(demo: Demo, phase: BootPhase, event: Event) -> (next: Option<
    (BootPhase, Vec<Effect>),
>)
    ensures
        match next {
            Some((after, burst)) => !(demo is QemuCortexR5App) && boot_step(demo, phase, event)
                == Some((after, burst@)),
            None => demo is QemuCortexR5App || boot_step(demo, phase, event) is None,
        },
{
    match (demo, phase, event) {
        (Demo::DemoApp, BootPhase::Reset, Event::Entered) => {
            let burst = vec![
                Effect::Print(ConsoleLine::Version),
                Effect::Board(BoardOp::TakePeripherals),
                Effect::Board(BoardOp::StartClocks),
                Effect::Board(BoardOp::LedOn),
                Effect::Print(ConsoleLine::EnteringKernel),
                Effect::Call(KernelCall::InitializeKernelEnter),
            ];
            Some((BootPhase::InKernel, burst))
        },
        (Demo::Nrf52App, BootPhase::Reset, Event::Entered) => {
            let burst = vec![
                Effect::Print(ConsoleLine::Version),
                Effect::Board(BoardOp::TakePeripherals),
                Effect::Board(BoardOp::StartClocks),
                Effect::Board(BoardOp::LedOn),
                Effect::Board(BoardOp::EnableCycleCounter),
                Effect::Board(BoardOp::StartSysTick { reload: SYSTICK_CYCLES }),
                Effect::Print(ConsoleLine::EnteringKernel),
                Effect::Call(KernelCall::InitializeKernelEnter),
            ];
            Some((BootPhase::InKernel, burst))
        },
        (Demo::DemoApp, BootPhase::InKernel, Event::Reply(KernelReply::KernelExited)) => Some(
            (BootPhase::Halted, kernel_exited()),
        ),
        (Demo::Nrf52App, BootPhase::InKernel, Event::Reply(KernelReply::KernelExited)) => Some(
            (BootPhase::Halted, kernel_exited()),
        ),
        _ => None,
    }
}

/// One step of start-up, for any demo.
pub fn boot(demo: Demo, phase: BootPhase, event: Event) -> (next: Option<(BootPhase, Vec<Effect>)>)
    ensures
        match next {
            Some((after, burst)) => boot_step(demo, phase, event) == Some((after, burst@)),
            None => boot_step(demo, phase, event) is None,
        },
{
    match demo {
        Demo::QemuCortexR5App => kmain(phase, event),
        _ => nrf_main(demo, phase, event),
    }
}

/// Where start-up stands after `events`, fed one by one from
/// `BootPhase::Reset`, and everything it has asked for on the way; `None`
/// if one of the events came when start-up was not waiting for it.
pub open spec fn boot_run(demo: Demo, events: Seq<Event>) -> Option<(BootPhase, Seq<Effect>)>
    decreases events.len(),
{
    if events.len() == 0 {
        Some((BootPhase::Reset, Seq::empty()))
    } else {
        match boot_run(demo, events.drop_last()) {
            Some((phase, trace)) => match boot_step(demo, phase, events.last()) {
                Some((after, burst)) => Some((after, trace + burst)),
                None => None,
            },
            None => None,
        }
    }
}

/// Whether `effect` is the call that enters the kernel.
pub open spec fn enters_kernel(effect: Effect) -> bool {
    effect == Effect::Call(KernelCall::InitializeKernelEnter)
}

/// Everything that a demo asks for up to and with the call that enters
/// the kernel, where the timer's control register held `control` (only
/// the QEMU machine looks at it).
pub open spec fn startup(demo: Demo, control: u32) -> Seq<Effect> {
    match demo {
        Demo::DemoApp => demo_app_startup(),
        Demo::Nrf52App => nrf52_app_startup(),
        Demo::QemuCortexR5App => qemu_setup() + qemu_enter(control),
    }
}

/// What a trace of start-up looks like: the greeting comes first; the
/// announcement that the kernel is about to be entered comes right before
/// the call that enters it; after that call nothing is asked for but, if
/// the kernel comes back, the halt that says so; and there is no other
/// halt.
pub open spec fn boot_ordered(trace: Seq<Effect>) -> bool {
    &&& trace.len() > 0 ==> trace[0] == Effect::Print(ConsoleLine::Version)
    &&& forall|i: int|
        0 <= i < trace.len() && trace[i] == Effect::Print(ConsoleLine::EnteringKernel) ==> i + 1
            < trace.len() && enters_kernel(#[trigger] trace[i + 1])
    &&& forall|i: int, j: int|
        0 <= i < j < trace.len() && enters_kernel(#[trigger] trace[i]) ==> j == i + 1
            && #[trigger] trace[j] == Effect::Halt(Fatal::KernelExited)
    &&& forall|i: int|
        0 <= i < trace.len() && #[trigger] trace[i] is Halt ==> i > 0 && enters_kernel(
            trace[i - 1],
        )
}

/// Every burst of start-up is well formed.
pub proof fn lemma_boot_bursts_ok(demo: Demo, phase: BootPhase, event: Event)
    ensures
        boot_step(demo, phase, event) matches Some((_, burst)) ==> burst.len() > 0 && burst_ok(
            burst,
        ),
{
    lemma_qemu_setup_shape();
}

/// Start-up is never at a loss: whatever a burst's last effect brings
/// back, start-up takes it as its next event.
pub proof fn lemma_boot_takes_answers(demo: Demo, phase: BootPhase, event: Event, answer: Event)
    requires
        boot_step(demo, phase, event) is Some,
        answers(answer, boot_step(demo, phase, event).unwrap().1.last()),
    ensures
        boot_step(demo, boot_step(demo, phase, event).unwrap().0, answer) is Some,
{
    lemma_qemu_setup_shape();
}

/// The first burst on the QEMU machine is the greeting, then stores, then
/// one load.
proof fn lemma_qemu_setup_shape()
    ensures
        qemu_setup().len() == 23,
        qemu_setup()[0] == Effect::Print(ConsoleLine::Version),
        forall|i: int| 1 <= i < 22 ==> #[trigger] qemu_setup()[i] is Write,
        qemu_setup()[22] is Read,
{
}

/// The runs of start-up, written out: there is one path, and a run is a
/// piece of it from the beginning.
proof fn lemma_boot_runs(demo: Demo, events: Seq<Event>)
    requires
        boot_run(demo, events) is Some,
    ensures
        ({
            let run = boot_run(demo, events).unwrap();
            ||| run == (BootPhase::Reset, Seq::<Effect>::empty())
            ||| demo is QemuCortexR5App && run == (BootPhase::StartingTimer, qemu_setup())
            ||| exists|control: u32| run == (BootPhase::InKernel, startup(demo, control))
            ||| exists|control: u32|
                run == (
                    BootPhase::Halted,
                    startup(demo, control).push(Effect::Halt(Fatal::KernelExited)),
                )
        }),
    decreases events.len(),
{
    if events.len() > 0 {
        lemma_boot_runs(demo, events.drop_last());
        let (phase, trace) = boot_run(demo, events.drop_last()).unwrap();
        let (after, burst) = boot_step(demo, phase, events.last()).unwrap();
        let run = (after, trace + burst);
        match phase {
            BootPhase::Reset => {
                if !(demo is QemuCortexR5App) {
                    assert(run == (BootPhase::InKernel, startup(demo, 0)));
                }
            },
            BootPhase::StartingTimer => {
                let control = events.last()->Value_0;
                assert(run == (BootPhase::InKernel, startup(demo, control)));
            },
            _ => {},
        }
    }
}

/// Up to the call that enters the kernel a demo's trace is in order, and
/// that call is its last effect and the only one of its kind.
proof fn lemma_startup_shape(demo: Demo, control: u32)
    ensures
        ({
            let trace = startup(demo, control);
            &&& trace.len() >= 2
            &&& trace[0] == Effect::Print(ConsoleLine::Version)
            &&& enters_kernel(trace.last())
            &&& forall|i: int|
                0 <= i < trace.len() - 1 ==> !enters_kernel(#[trigger] trace[i]) && !(trace[i]
                    is Halt)
            &&& forall|i: int|
                0 <= i < trace.len() && #[trigger] trace[i] == Effect::Print(
                    ConsoleLine::EnteringKernel,
                ) ==> i == trace.len() - 2
        }),
{
    match demo {
        Demo::QemuCortexR5App => {
            lemma_qemu_setup_shape();
            let trace = startup(demo, control);
            assert forall|i: int| 0 <= i < trace.len() - 1 implies !enters_kernel(
                #[trigger] trace[i],
            ) && !(trace[i] is Halt) && trace[i] != Effect::Print(ConsoleLine::EnteringKernel) by {}
        },
        _ => {},
    }
}

/// Start-up keeps its order whatever happens: in every run the trace
/// begins with the greeting, so the version is on the console before the
/// kernel is entered; and once the kernel has been entered nothing is
/// asked for any more, no line on the console either, but the one halt
/// that reports that the kernel came back.
pub proof fn lemma_boot_order(demo: Demo, events: Seq<Event>)
    requires
        boot_run(demo, events) is Some,
    ensures
        ({
            let (phase, trace) = boot_run(demo, events).unwrap();
            &&& boot_ordered(trace)
            &&& phase is Halted <==> trace.len() > 0 && trace.last() == Effect::Halt(
                Fatal::KernelExited,
            )
            &&& phase is InKernel <==> trace.len() > 0 && enters_kernel(trace.last())
        }),
{
    lemma_boot_runs(demo, events);
    lemma_qemu_setup_shape();
    let (phase, trace) = boot_run(demo, events).unwrap();
    if phase is InKernel {
        let control = choose|control: u32| trace == startup(demo, control);
        lemma_startup_shape(demo, control);
    } else if phase is Halted {
        let control = choose|control: u32|
            trace == startup(demo, control).push(Effect::Halt(Fatal::KernelExited));
        lemma_startup_shape(demo, control);
        let before = startup(demo, control);
        assert forall|i: int| 0 <= i < trace.len() - 1 implies trace[i] == before[i] by {}
    }
}

/// The events of a start-up up to the kernel, where the timer's control
/// register held `control` (only the QEMU machine reads it).
pub open spec fn startup_events(demo: Demo, control: u32) -> Seq<Event> {
    if demo is QemuCortexR5App {
        seq![Event::Entered, Event::Value(control)]
    } else {
        seq![Event::Entered]
    }
}

/// Every demo reaches the kernel: start-up runs through without a halt,
/// whatever the timer's control register held, and the call that enters
/// the kernel is the last thing it asks for.
pub proof fn lemma_boot_enters_kernel(demo: Demo, control: u32)
    ensures
        boot_run(demo, startup_events(demo, control)) == Some(
            (BootPhase::InKernel, startup(demo, control)),
        ),
        enters_kernel(startup(demo, control).last()),
        forall|i: int|
            0 <= i < startup(demo, control).len() ==> !(#[trigger] startup(demo, control)[i]
                is Halt),
{
    let events = startup_events(demo, control);
    let first = if demo is QemuCortexR5App {
        events.drop_last()
    } else {
        events
    };
    lemma_startup_shape(demo, control);
    assert(boot_run(demo, first.drop_last()) == Some((BootPhase::Reset, Seq::<Effect>::empty())));
}

/// If the kernel comes back, the system halts: after a start-up the one
/// event that the kernel has exited is answered by the halt that says so,
/// and by nothing else.
pub proof fn lemma_kernel_exit_halts(demo: Demo, control: u32)
    ensures
        boot_run(
            demo,
            startup_events(demo, control).push(Event::Reply(KernelReply::KernelExited)),
        ) == Some(
            (BootPhase::Halted, startup(demo, control).push(Effect::Halt(Fatal::KernelExited))),
        ),
{
    lemma_boot_enters_kernel(demo, control);
    let events = startup_events(demo, control).push(Event::Reply(KernelReply::KernelExited));
    assert(events.drop_last() =~= startup_events(demo, control));
}

/// The SysTick reload value gives a hundred ticks a second at the core
/// clock, and fits the 24 bits of the reload register.
pub proof fn lemma_systick_cycles()
    ensures
        SYSTICK_CYCLES == 639_999,
        (SYSTICK_CYCLES + 1) * 100 == SYSTEM_CLOCK,
        SYSTICK_CYCLES < 0x0100_0000,
{
}

} // verus!
