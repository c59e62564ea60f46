//! Verified glue for running small demo applications on the ThreadX kernel.
//!
//! The kernel itself, the hardware and the console are outside this crate.
//! What lives here is everything the demos decide: which registers to
//! program and with what, how the application-define callback sets up its
//! memory pool and threads, what a worker thread does between sleeps, and
//! how a timer interrupt is serviced. Each entry point is a function from
//! plain values to plain values; the surrounding firmware performs the
//! accesses and kernel calls that those values describe.

pub mod mmio;
pub mod threadx;
pub mod effect;
pub mod demo;
pub mod sp804_timer;
pub mod sp804_model;
pub mod pl190_vic;
pub mod pl190_model;
pub mod app_define;
pub mod worker;
pub mod boot;
pub mod irq;
pub mod qemu_machine;
