//! The QEMU machine as start-up leaves it: the timer and the interrupt
//! controller together.

use vstd::prelude::*;
use crate::boot::{qemu_enter, qemu_setup, Vic, TIMER_IRQ, TIMER_LOAD};
use crate::effect::{
    as_effects, lemma_writes_of_concat, lemma_writes_of_stores, writes_of, ConsoleLine, Effect,
};
use crate::irq::{after_signals, lemma_one_tick_per_signal};
use crate::mmio::{RegRead, RegWrite};
use crate::pl190_model::{
    lemma_enabled_line_reaches_irq, lemma_init_programs_vectors, lemma_vic_ignores,
    lemma_vic_writes_concat, Pl190,
};
use crate::sp804_model::{
    lemma_start_sets_enable_only, lemma_timer_ignores, lemma_timer_init_reads_back,
    lemma_timer_writes_concat, Sp804,
};
use crate::sp804_timer::{
    control_word, lemma_control_word_values, Interrupts, Mode, Timer0, CTRL_INTENABLE,
    CTRL_OFFSET, CTRL_TIMEREN,
};

verus! {

/// The timer after all the stores of start-up, where the second burst was
/// given what the control register held after the first.
pub open spec fn timer_after_boot(timer: Sp804<0x101e_2000>) -> Sp804<0x101e_2000> {
    let set_up = timer.after_writes(writes_of(qemu_setup()));
    let control = set_up.value_at(RegRead { addr: Timer0::reg(CTRL_OFFSET) });
    set_up.after_writes(writes_of(qemu_enter(control)))
}

/// The interrupt controller after all the stores of start-up, where the
/// second burst was given `control`.
pub open spec fn vic_after_boot(vic: Pl190<0x10140000>, control: u32) -> Pl190<0x10140000> {
    vic.after_writes(writes_of(qemu_setup())).after_writes(writes_of(qemu_enter(control)))
}

/// The stores of the first burst: the timer's, the controller's, and the
/// one that enables the timer's line.
proof fn lemma_setup_stores()
    ensures
        writes_of(qemu_setup()) == Timer0::init_writes(
            TIMER_LOAD,
            Mode::AutoReload,
            Interrupts::Enabled,
        ) + Vic::init_writes() + seq![Vic::enable_write(TIMER_IRQ)],
{
    let greeting = seq![Effect::Print(ConsoleLine::Version)];
    let timer = Timer0::init_writes(TIMER_LOAD, Mode::AutoReload, Interrupts::Enabled);
    let vic = Vic::init_writes();
    let tail = seq![
        Effect::Write(Vic::enable_write(TIMER_IRQ)),
        Effect::Read(RegRead { addr: Timer0::reg(CTRL_OFFSET) }),
    ];
    lemma_writes_of_concat(greeting, as_effects(timer));
    lemma_writes_of_concat(greeting + as_effects(timer), as_effects(vic));
    lemma_writes_of_concat(greeting + as_effects(timer) + as_effects(vic), tail);
    lemma_writes_of_stores(timer);
    lemma_writes_of_stores(vic);
    assert(writes_of(greeting) =~= Seq::<RegWrite>::empty()) by {
        reveal_with_fuel(writes_of, 2);
    }
    assert(writes_of(tail) =~= seq![Vic::enable_write(TIMER_IRQ)]) by {
        reveal_with_fuel(writes_of, 3);
    }
}

/// The one store of the second burst: the one that starts the timer.
proof fn lemma_enter_stores(control: u32)
    ensures
        writes_of(qemu_enter(control)) == seq![Timer0::start_write(control)],
{
    reveal_with_fuel(writes_of, 3);
}

/// Start-up starts the timer. Whatever the timer held at reset, after the
/// stores of start-up it holds its load value, runs, and passes its
/// interrupt on; start-up leaves the interrupt latch alone.
pub proof fn lemma_boot_starts_timer(timer: Sp804<0x101e_2000>)
    ensures
        timer.after_writes(writes_of(qemu_setup())).control == control_word(
            Mode::AutoReload,
            Interrupts::Enabled,
        ),
        timer_after_boot(timer).load == TIMER_LOAD,
        timer_after_boot(timer).control == 0xE2,
        timer_after_boot(timer).control & CTRL_TIMEREN != 0,
        timer_after_boot(timer).control & CTRL_INTENABLE != 0,
        timer_after_boot(timer).raw_interrupt == timer.raw_interrupt,
{
    let timer_stores = Timer0::init_writes(TIMER_LOAD, Mode::AutoReload, Interrupts::Enabled);
    let vic_stores = Vic::init_writes();
    let enable = seq![Vic::enable_write(TIMER_IRQ)];
    lemma_setup_stores();

    // The timer's own stores count, the controller's pass it by.
    lemma_timer_writes_concat(timer, timer_stores + vic_stores, enable);
    lemma_timer_writes_concat(timer, timer_stores, vic_stores);
    let timer_init = timer.after_writes(timer_stores);
    lemma_timer_ignores(timer_init, vic_stores);
    lemma_timer_ignores(timer_init, enable);
    lemma_timer_init_reads_back(timer, TIMER_LOAD, Mode::AutoReload, Interrupts::Enabled);
    lemma_control_word_values(Mode::AutoReload, Interrupts::Enabled);
    let set_up = timer.after_writes(writes_of(qemu_setup()));
    let control = set_up.value_at(RegRead { addr: Timer0::reg(CTRL_OFFSET) });
    lemma_enter_stores(control);
    let start = seq![Timer0::start_write(control)];
    assert(set_up.after_writes(start) == set_up.after_write(Timer0::start_write(control))) by {
        reveal_with_fuel(Sp804::after_writes, 2);
    }
    lemma_start_sets_enable_only(set_up);
    assert(0x62u32 | 0x80u32 == 0xE2u32) by (bit_vector);
    assert(0xE2u32 & 0x80u32 != 0 && 0xE2u32 & 0x20u32 != 0) by (bit_vector);
}

/// Start-up opens the timer's line. Whatever the interrupt controller held
/// at reset, after the stores of start-up it treats every line as an IRQ,
/// has the timer's line enabled beside those that were enabled before, and
/// shows that line in the IRQ status as soon as the timer raises it.
pub proof fn lemma_boot_enables_timer_line(vic: Pl190<0x10140000>, control: u32)
    ensures
        vic_after_boot(vic, control).int_select == 0,
        vic_after_boot(vic, control).int_enable == vic.int_enable | (1u32 << TIMER_IRQ),
        vic_after_boot(vic, control).after_raise(TIMER_IRQ).irq_status() & (1u32 << TIMER_IRQ) != 0,
{
    let timer_stores = Timer0::init_writes(TIMER_LOAD, Mode::AutoReload, Interrupts::Enabled);
    let vic_stores = Vic::init_writes();
    let enable = seq![Vic::enable_write(TIMER_IRQ)];
    lemma_setup_stores();
    lemma_enter_stores(control);

    // The timer's stores pass the controller by, its own count.
    lemma_vic_writes_concat(vic, timer_stores + vic_stores, enable);
    lemma_vic_writes_concat(vic, timer_stores, vic_stores);
    lemma_vic_ignores(vic, timer_stores);
    lemma_init_programs_vectors(vic);
    let vic_init = vic.after_writes(vic_stores);
    assert(vic_init.after_writes(enable) == vic_init.after_write(Vic::enable_write(TIMER_IRQ))) by {
        reveal_with_fuel(Pl190::after_writes, 2);
    }
    let vic_set_up = vic.after_writes(writes_of(qemu_setup()));
    lemma_vic_ignores(vic_set_up, seq![Timer0::start_write(control)]);
    assert(0u32 & (1u32 << 4u8) == 0) by (bit_vector);
    lemma_enabled_line_reaches_irq(vic_init, TIMER_IRQ);
}

/// After start-up every time the timer runs out the kernel gets its tick:
/// `signals` signals, handled one by one, make `signals` ticks.
pub proof fn lemma_boot_ticks(timer: Sp804<0x101e_2000>, signals: nat)
    ensures
        after_signals(timer_after_boot(timer), signals).1 == signals,
{
    lemma_boot_starts_timer(timer);
    lemma_one_tick_per_signal(timer_after_boot(timer), signals);
}

} // verus!
