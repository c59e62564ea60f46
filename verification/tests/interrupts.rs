use threadx_glue::boot::{kmain, BootPhase};
use threadx_glue::effect::{Effect, Event};
use threadx_glue::irq::handle_interrupt;
use threadx_glue::mmio::RegWrite;
use threadx_glue::pl190_model::Pl190;
use threadx_glue::pl190_vic::Interrupt;
use threadx_glue::sp804_model::Sp804;
use threadx_glue::sp804_timer::Timer0;
use threadx_glue::threadx::KernelCall;

const TIMER0: usize = 0x101e_2000;
const VIC: usize = 0x1014_0000;

/// The timer and the interrupt controller of the QEMU machine, and a count
/// of the ticks that the kernel was given.
struct Machine {
    timer: Sp804<TIMER0>,
    vic: Pl190<VIC>,
    ticks: u32,
}

impl Machine {
    fn at_reset() -> Machine {
        Machine {
            timer: Sp804 { load: 0, control: 0x20, raw_interrupt: false },
            vic: Pl190 {
                int_select: 0,
                int_enable: 0,
                def_vect_addr: 0,
                vect_cntl: [0; 16],
                lines: 0,
            },
            ticks: 0,
        }
    }

    fn perform(&mut self, effect: Effect) -> Option<Event> {
        match effect {
            Effect::Write(w) => {
                self.timer.write(w);
                self.vic.write(w);
                None
            }
            Effect::Read(r) => Some(Event::Value(self.timer.read(r) | self.vic.read(r))),
            Effect::Call(KernelCall::TimerInterrupt) => {
                self.ticks += 1;
                None
            }
            _ => None,
        }
    }

    fn boot(&mut self) {
        let (phase, burst) = kmain(BootPhase::Reset, Event::Entered).unwrap();
        let mut event = None;
        for effect in burst {
            event = self.perform(effect);
        }
        let (phase, burst) = kmain(phase, event.unwrap()).unwrap();
        assert_eq!(phase, BootPhase::InKernel);
        for effect in burst {
            self.perform(effect);
        }
    }

    fn timer_runs_out(&mut self) {
        self.timer.expire();
        if self.timer.read(Timer0::read_status()) != 0 {
            self.vic.raise(4);
        }
    }

    fn interrupt(&mut self) {
        let status = self.timer.read(Timer0::read_status());
        for effect in handle_interrupt(status) {
            self.perform(effect);
        }
    }
}

#[test]
fn handle_interrupt_ticks_then_clears() {
    assert_eq!(
        handle_interrupt(1),
        vec![
            Effect::Call(KernelCall::TimerInterrupt),
            Effect::Write(RegWrite { addr: 0x101e_200C, value: 1 }),
        ]
    );
    assert_eq!(handle_interrupt(0xFFFF_FFFF).len(), 2);
}

#[test]
fn handle_interrupt_does_nothing_when_nothing_is_pending() {
    assert_eq!(handle_interrupt(0), vec![]);
    assert_eq!(handle_interrupt(0xFFFF_FFFE), vec![]);
}

#[test]
fn each_pending_signal_ticks_the_kernel_once() {
    let mut machine = Machine::at_reset();
    machine.boot();
    for n in 1..=25u32 {
        machine.timer_runs_out();
        assert_eq!(machine.timer.read(Timer0::read_status()), 1);
        machine.interrupt();
        assert_eq!(machine.ticks, n);
        assert_eq!(machine.timer.read(Timer0::read_status()), 0);
        assert!(!machine.timer.raw_interrupt);
    }
}

#[test]
fn spurious_interrupt_gives_no_tick() {
    let mut machine = Machine::at_reset();
    machine.boot();
    machine.interrupt();
    machine.interrupt();
    assert_eq!(machine.ticks, 0);
    machine.timer_runs_out();
    machine.interrupt();
    machine.interrupt();
    assert_eq!(machine.ticks, 1);
}

#[test]
fn boot_leaves_timer_running_and_line_open() {
    let mut machine = Machine::at_reset();
    machine.boot();
    assert_eq!(machine.timer.load, 10_000);
    assert_eq!(machine.timer.control, 0xE2);
    assert_eq!(machine.vic.int_select, 0);
    assert_eq!(machine.vic.int_enable, 0x10);
    assert_eq!(machine.vic.def_vect_addr, 0x18);
    machine.timer_runs_out();
    assert_eq!(machine.vic.read(Interrupt::<VIC>::read_interrupt_status()), 0x10);
}

#[test]
fn stopped_timer_never_interrupts() {
    let mut machine = Machine::at_reset();
    for _ in 0..3 {
        machine.timer_runs_out();
        machine.interrupt();
    }
    assert_eq!(machine.ticks, 0);
}
