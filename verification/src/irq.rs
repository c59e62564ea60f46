//! The timer interrupt: if the timer has one pending, the kernel gets its
//! tick and the timer its acknowledgement.

use vstd::prelude::*;
use crate::effect::{writes_of, Effect};
use crate::sp804_model::Sp804;
use crate::sp804_timer::{Timer0, CTRL_INTENABLE, CTRL_TIMEREN};
use crate::threadx::KernelCall;

verus! {

/// What the handler asks for, given the timer's masked interrupt status:
/// nothing if no interrupt is pending; else the kernel's tick first and
/// then the store that clears the interrupt at the timer. The store only
/// resets the timer's latch; the tick is the kernel's own business and
/// comes first.
pub open spec fn interrupt_effects(status: u32) -> Seq<Effect> {
    if Timer0::pending(status) {
        seq![Effect::Call(KernelCall::TimerInterrupt), Effect::Write(Timer0::clear_write())]
    } else {
        Seq::empty()
    }
}

/// Called from the main interrupt handler
///
/// `status` is the word loaded from the register that `Timer0::read_status`
/// names. The effects are to be performed in order.
pub fn handle_interrupt(status: u32) -> (burst: Vec<Effect>)
    ensures
        burst@ == interrupt_effects(status),
{
    if Timer0::is_pending(status) {
        vec![Effect::Call(KernelCall::TimerInterrupt), Effect::Write(Timer0::clear_interrupt())]
    } else {
        Vec::new()
    }
}

/// The number of kernel ticks among `effects`.
pub open spec fn ticks_in(effects: Seq<Effect>) -> nat
    decreases effects.len(),
{
    if effects.len() == 0 {
        0
    } else {
        match effects.last() {
            Effect::Call(KernelCall::TimerInterrupt) => ticks_in(effects.drop_last()) + 1,
            _ => ticks_in(effects.drop_last()),
        }
    }
}

/// One run of the handler on the timer `dev`: the timer afterwards, and
/// the number of ticks that the kernel got.
pub open spec fn serviced(dev: Sp804<0x101e_2000>) -> (Sp804<0x101e_2000>, nat) {
    let burst = interrupt_effects(dev.masked_status());
    (dev.after_writes(writes_of(burst)), ticks_in(burst))
}

/// The timer `dev` after its counter has run out `signals` times with the
/// handler run after each, and the number of ticks that the kernel got in
/// all.
pub open spec fn after_signals(dev: Sp804<0x101e_2000>, signals: nat) -> (
    Sp804<0x101e_2000>,
    nat,
)
    decreases signals,
{
    if signals == 0 {
        (dev, 0)
    } else {
        let (before, ticks) = after_signals(dev, (signals - 1) as nat);
        let (after, more) = serviced(before.after_expiry());
        (after, ticks + more)
    }
}

/// One run of the handler on a timer with an interrupt pending gives the
/// kernel one tick and leaves nothing pending; the load and control
/// registers are as they were.
pub proof fn lemma_service_clears_pending(dev: Sp804<0x101e_2000>)
    requires
        Timer0::pending(dev.masked_status()),
    ensures
        serviced(dev).1 == 1,
        serviced(dev).0.masked_status() == 0,
        !serviced(dev).0.raw_interrupt,
        serviced(dev).0.load == dev.load,
        serviced(dev).0.control == dev.control,
{
    reveal_with_fuel(writes_of, 3);
    reveal_with_fuel(ticks_in, 3);
    reveal_with_fuel(Sp804::after_writes, 2);
}

/// One run of the handler with nothing pending does nothing at all.
pub proof fn lemma_service_without_pending(dev: Sp804<0x101e_2000>)
    requires
        !Timer0::pending(dev.masked_status()),
    ensures
        serviced(dev) == (dev, 0nat),
{
    reveal_with_fuel(writes_of, 1);
    reveal_with_fuel(ticks_in, 1);
}

/// On a timer that runs and passes its interrupt on, every time the
/// counter runs out the kernel gets exactly one tick: after `signals`
/// signals it has had `signals` ticks. After each run of the handler
/// nothing is pending at the timer, and the timer still runs as it was
/// set up.
pub proof fn lemma_one_tick_per_signal(dev: Sp804<0x101e_2000>, signals: nat)
    requires
        dev.control & CTRL_TIMEREN != 0,
        dev.control & CTRL_INTENABLE != 0,
    ensures
        after_signals(dev, signals).1 == signals,
        after_signals(dev, signals).0.control == dev.control,
        after_signals(dev, signals).0.load == dev.load,
        signals > 0 ==> after_signals(dev, signals).0.masked_status() == 0,
    decreases signals,
{
    if signals > 0 {
        lemma_one_tick_per_signal(dev, (signals - 1) as nat);
        let before = after_signals(dev, (signals - 1) as nat).0;
        assert(1u32 & 1 != 0) by (bit_vector);
        lemma_service_clears_pending(before.after_expiry());
    }
}

} // verus!
