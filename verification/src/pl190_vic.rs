//! Driver for the Arm PL190 Vector Interrupt Controller

use vstd::prelude::*;
use crate::mmio::{RegRead, RegWrite, window_ok};

verus! {

/// Byte offset of the IRQ status register.
pub const IRQ_STATUS_OFFSET: usize = 0x00;

/// Byte offset of the interrupt select register.
pub const INT_SELECT_OFFSET: usize = 0x0C;

/// Byte offset of the interrupt enable register.
pub const INT_EN_OFFSET: usize = 0x10;

/// Byte offset of the default vector address register.
pub const DEF_VECT_ADDR_OFFSET: usize = 0x34;

/// Byte offset of the first vector control register.
pub const VECT_CTRL_N_START_OFFSET: usize = 0x200;

/// Bytes covered by the registers above.
pub const WINDOW: usize = 0x240;

/// Vector control bit 5: the vector is in use.
pub const CNTL_ENABLE: u32 = 0x20;

/// Number of vectors, each with a control register of its own.
pub const NUM_PRIOS: u8 = 16;

/// Number of interrupt lines.
pub const NUM_IRQS: u8 = 32;

/// Where the default vector points: the IRQ entry of the vector table.
pub const DEFAULT_VECTOR: u32 = 0x18;

/// A driver for a virtual PL190 Vector Interrupt Controller
///
/// It describes the register accesses; it performs none of them.
pub struct Interrupt<const ADDR: usize>();

impl Interrupt<0x10140000> {
    /// Create an interrupt controller driver
    ///
    /// Only construct one object per Interrupt Controller at any given time.
    pub fn new() -> (vic: Interrupt<0x10140000>)
        ensures
            Self::mapped(),
    {
        Interrupt()
    }
}

impl<const ADDR: usize> Interrupt<ADDR> {
    /// The register window at `ADDR` can be addressed.
    pub open spec fn mapped() -> bool {
        window_ok(ADDR, WINDOW)
    }

    /// Address of the register `offset` bytes into the window.
    pub open spec fn reg(offset: int) -> usize {
        (ADDR + offset) as usize
    }

    /// Address of the control register of vector `prio`.
    pub open spec fn vector_control(prio: int) -> usize {
        Self::reg(VECT_CTRL_N_START_OFFSET + 4 * prio)
    }

    /// The store that routes source `prio` to vector `prio`.
    pub open spec fn vector_write(prio: int) -> RegWrite {
        RegWrite { addr: Self::vector_control(prio), value: CNTL_ENABLE | (prio as u32) }
    }

    /// The stores that `init` asks for: one per vector, then the default
    /// vector address, then the interrupt select register.
    pub open spec fn init_writes() -> Seq<RegWrite> {
        Seq::new(NUM_PRIOS as nat, |prio: int| Self::vector_write(prio)).push(
            RegWrite { addr: Self::reg(DEF_VECT_ADDR_OFFSET as int), value: DEFAULT_VECTOR },
        ).push(RegWrite { addr: Self::reg(INT_SELECT_OFFSET as int), value: 0 })
    }

    /// The store that enables `interrupt`.
    pub open spec fn enable_write(interrupt: u8) -> RegWrite {
        RegWrite { addr: Self::reg(INT_EN_OFFSET as int), value: 1u32 << interrupt }
    }

    /// Get the address of the control register for a particular interrupt vector.
    pub fn prio_control_addr(prio: u8) -> (addr: usize)
        requires
            Self::mapped(),
            prio < NUM_PRIOS,
        ensures
            addr == Self::vector_control(prio as int),
    {
        ADDR + VECT_CTRL_N_START_OFFSET + 4 * (prio as usize)
    }

    /// Initialise the interrupt controller by setting up all the vectors
    ///
    /// Returns the stores to perform, in order.
    pub fn init(&mut self) -> (writes: Vec<RegWrite>)
        requires
            Self::mapped(),
        ensures
            writes@ == Self::init_writes(),
    {
        let mut writes: Vec<RegWrite> = Vec::new();
        // Set the first 16 vectors to point to the first 16 sources
        let mut i: u8 = 0;
        while i < NUM_PRIOS
            invariant
                Self::mapped(),
                i <= NUM_PRIOS,
                writes@ == Seq::new(i as nat, |prio: int| Self::vector_write(prio)),
            decreases NUM_PRIOS - i,
        {
            writes.push(
                RegWrite { addr: Self::prio_control_addr(i), value: CNTL_ENABLE | (i as u32) },
            );
            i = i + 1;
        }
        // Setup default vector - points at IRQ handler in vector table
        writes.push(RegWrite { addr: ADDR + DEF_VECT_ADDR_OFFSET, value: DEFAULT_VECTOR });
        // Every interrupt is an IRQ not an FIQ
        writes.push(RegWrite { addr: ADDR + INT_SELECT_OFFSET, value: 0x0000_0000 });
        writes
    }

    /// Enable one interrupt line; lines enabled earlier stay enabled.
    pub fn enable_interrupt(&mut self, interrupt: u8) -> (write: RegWrite)
        requires
            Self::mapped(),
            interrupt < NUM_IRQS,
        ensures
            write == Self::enable_write(interrupt),
    {
        RegWrite { addr: ADDR + INT_EN_OFFSET, value: 1u32 << interrupt }
    }

    /// The load that fetches the IRQ status.
    pub fn read_interrupt_status() -> (read: RegRead)
        requires
            Self::mapped(),
        ensures
            read.addr == Self::reg(IRQ_STATUS_OFFSET as int),
    {
        RegRead { addr: ADDR + IRQ_STATUS_OFFSET }
    }
}

} // verus!
