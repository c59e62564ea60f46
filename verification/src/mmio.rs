//! Memory-mapped register accesses, described as plain values.
//!
//! A driver never touches memory itself. It hands out [`RegWrite`] and
//! [`RegRead`] values, and whoever owns the bus performs them as volatile
//! 32-bit accesses, in the order given.

use vstd::prelude::*;

verus! {

/// One 32-bit store to a device register.
#[derive(Clone, Copy, Debug, PartialEq, Eq, Structural)]
pub struct RegWrite {
    /// Byte address of the register.
    pub addr: usize,
    /// Word to store there.
    pub value: u32,
}

/// One 32-bit load from a device register.
#[derive(Clone, Copy, Debug, PartialEq, Eq, Structural)]
pub struct RegRead {
    /// Byte address of the register.
    pub addr: usize,
}

/// A register window of `span` bytes at `base` can be addressed when it is
/// word aligned and every byte of it has an address.
pub open spec fn window_ok(base: usize, span: usize) -> bool {
    base % 4 == 0 && base + span <= usize::MAX
}

} // verus!
