//! Driver for the Arm SP804 timer.

use vstd::prelude::*;
use crate::mmio::{RegRead, RegWrite, window_ok};

verus! {

/// Byte offset of the load register.
pub const LOAD_OFFSET: usize = 0x00;

/// Byte offset of the control register.
pub const CTRL_OFFSET: usize = 0x08;

/// Byte offset of the interrupt-clear register.
pub const ICR_OFFSET: usize = 0x0C;

/// Byte offset of the masked interrupt status register.
pub const MIS_OFFSET: usize = 0x14;

/// Bytes covered by the registers above.
pub const WINDOW: usize = 0x18;

/// Control bit 0: count down once and stop.
pub const CTRL_ONESHOT: u32 = 0x01;

/// Control bit 1: 32-bit counter.
pub const CTRL_TIMERSIZE_32: u32 = 0x02;

/// Control bit 5: pass the interrupt on.
pub const CTRL_INTENABLE: u32 = 0x20;

/// Control bit 6: periodic mode.
pub const CTRL_TIMERMODE: u32 = 0x40;

/// Control bit 7: timer enabled.
pub const CTRL_TIMEREN: u32 = 0x80;

/// Supported timer modes
#[derive(Clone, Copy, Debug, PartialEq, Eq, Structural)]
pub enum Mode {
    AutoReload,
    SingleShot,
}

impl Mode {
    /// The control bits that select this mode.
    pub open spec fn spec_bits(self) -> u32 {
        match self {
            Mode::AutoReload => 0,
            Mode::SingleShot => CTRL_ONESHOT,
        }
    }

    /// The control bits that select this mode.
    #[verifier::when_used_as_spec(spec_bits)]
    pub fn bits(self) -> (bits: u32)
        ensures
            bits == self.spec_bits(),
    {
        match self {
            Mode::AutoReload => 0,
            Mode::SingleShot => CTRL_ONESHOT,
        }
    }
}

/// Supported interrupt options
#[derive(Clone, Copy, Debug, PartialEq, Eq, Structural)]
pub enum Interrupts {
    Disabled,
    Enabled,
}

impl Interrupts {
    /// The control bits that select this option.
    pub open spec fn spec_bits(self) -> u32 {
        match self {
            Interrupts::Disabled => 0,
            Interrupts::Enabled => CTRL_INTENABLE,
        }
    }

    /// The control bits that select this option.
    #[verifier::when_used_as_spec(spec_bits)]
    pub fn bits(self) -> (bits: u32)
        ensures
            bits == self.spec_bits(),
    {
        match self {
            Interrupts::Disabled => 0,
            Interrupts::Enabled => CTRL_INTENABLE,
        }
    }
}

/// The control word that `init` programs: a 32-bit periodic counter, not
/// yet enabled, with the mode and interrupt bits asked for.
pub open spec fn control_word(mode: Mode, interrupt: Interrupts) -> u32 {
    CTRL_TIMERSIZE_32 | CTRL_TIMERMODE | mode.bits() | interrupt.bits()
}

/// The four control words there are, written out.
pub proof fn lemma_control_word_values(mode: Mode, interrupt: Interrupts)
    ensures
        control_word(mode, interrupt) == match (mode, interrupt) {
            (Mode::AutoReload, Interrupts::Disabled) => 0x42u32,
            (Mode::SingleShot, Interrupts::Disabled) => 0x43u32,
            (Mode::AutoReload, Interrupts::Enabled) => 0x62u32,
            (Mode::SingleShot, Interrupts::Enabled) => 0x63u32,
        },
        control_word(mode, interrupt) & CTRL_TIMEREN == 0,
        (control_word(mode, interrupt) & CTRL_INTENABLE != 0) == (interrupt == Interrupts::Enabled),
{
    assert(0x02u32 | 0x40u32 | 0u32 | 0u32 == 0x42u32) by (bit_vector);
    assert(0x02u32 | 0x40u32 | 0x01u32 | 0u32 == 0x43u32) by (bit_vector);
    assert(0x02u32 | 0x40u32 | 0u32 | 0x20u32 == 0x62u32) by (bit_vector);
    assert(0x02u32 | 0x40u32 | 0x01u32 | 0x20u32 == 0x63u32) by (bit_vector);
    assert(0x42u32 & 0x80u32 == 0 && 0x43u32 & 0x80u32 == 0 && 0x62u32 & 0x80u32 == 0 && 0x63u32
        & 0x80u32 == 0) by (bit_vector);
    assert(0x42u32 & 0x20u32 == 0 && 0x43u32 & 0x20u32 == 0 && 0x62u32 & 0x20u32 != 0 && 0x63u32
        & 0x20u32 != 0) by (bit_vector);
}

/// Timer0 on an Arm Versatile Application Board.
pub type Timer0 = Timer<0x101e_2000>;

/// A driver for a virtual SP804 Timer
///
/// It describes the register accesses; it performs none of them.
pub struct Timer<const ADDR: usize>();

impl Timer0 {
    /// Create a new Timer object for Timer0
    ///
    /// Only construct one object per Timer at any given time.
    pub fn new_timer0() -> (timer: Self)
        ensures
            Self::mapped(),
    {
        Timer()
    }
}

impl<const ADDR: usize> Timer<ADDR> {
    /// The register window at `ADDR` can be addressed.
    pub open spec fn mapped() -> bool {
        window_ok(ADDR, WINDOW)
    }

    /// Address of the register `offset` bytes into the window.
    pub open spec fn reg(offset: usize) -> usize {
        (ADDR + offset) as usize
    }

    /// The stores that `init` asks for: the load value, then the control word.
    pub open spec fn init_writes(load_value: u32, mode: Mode, interrupt: Interrupts) -> Seq<
        RegWrite,
    > {
        seq![
            RegWrite { addr: Self::reg(LOAD_OFFSET), value: load_value },
            RegWrite { addr: Self::reg(CTRL_OFFSET), value: control_word(mode, interrupt) },
        ]
    }

    /// The store that `start` asks for, given what the control register holds.
    pub open spec fn start_write(control: u32) -> RegWrite {
        RegWrite { addr: Self::reg(CTRL_OFFSET), value: control | CTRL_TIMEREN }
    }

    /// The store that acknowledges a pending interrupt.
    pub open spec fn clear_write() -> RegWrite {
        RegWrite { addr: Self::reg(ICR_OFFSET), value: 1 }
    }

    /// Whether a masked-status word reports a pending interrupt.
    pub open spec fn pending(status: u32) -> bool {
        status & 1 != 0
    }

    /// Initialise the timer
    ///
    /// Returns the stores to perform, in order.
    pub fn init(&mut self, load_value: u32, mode: Mode, interrupt: Interrupts) -> (writes: Vec<
        RegWrite,
    >)
        requires
            Self::mapped(),
        ensures
            writes@ == Self::init_writes(load_value, mode, interrupt),
    {
        let settings: u32 = CTRL_TIMERSIZE_32 | CTRL_TIMERMODE | mode.bits() | interrupt.bits();
        let mut writes: Vec<RegWrite> = Vec::new();
        writes.push(RegWrite { addr: ADDR + LOAD_OFFSET, value: load_value });
        writes.push(RegWrite { addr: ADDR + CTRL_OFFSET, value: settings });
        writes
    }

    /// The load that fetches the control register, for `start`.
    pub fn read_control() -> (read: RegRead)
        requires
            Self::mapped(),
        ensures
            read.addr == Self::reg(CTRL_OFFSET),
    {
        RegRead { addr: ADDR + CTRL_OFFSET }
    }

    /// Start the timer
    ///
    /// `control` is what the control register holds now; the store returned
    /// puts it back with the enable bit set.
    pub fn start(&mut self, control: u32) -> (write: RegWrite)
        requires
            Self::mapped(),
        ensures
            write == Self::start_write(control),
    {
        RegWrite { addr: ADDR + CTRL_OFFSET, value: control | CTRL_TIMEREN }
    }

    /// The load that fetches the masked interrupt status, for `is_pending`.
    pub fn read_status() -> (read: RegRead)
        requires
            Self::mapped(),
        ensures
            read.addr == Self::reg(MIS_OFFSET),
    {
        RegRead { addr: ADDR + MIS_OFFSET }
    }

    /// Whether the masked interrupt status `status` reports a pending
    /// interrupt.
    pub fn is_pending(status: u32) -> (pending: bool)
        ensures
            pending == Self::pending(status),
    {
        (status & 1) != 0
    }

    /// Clear a pending interrupt
    pub fn clear_interrupt() -> (write: RegWrite)
        requires
            Self::mapped(),
        ensures
            write == Self::clear_write(),
    {
        // Write anything here to clear the interrupt
        RegWrite { addr: ADDR + ICR_OFFSET, value: 1 }
    }
}

} // verus!
