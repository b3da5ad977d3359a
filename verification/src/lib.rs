//! Timer-interrupt and trap-dispatch layer of a single-hart RISC-V
//! machine-mode runtime.
//!
//! The crate verifies the logic of that layer: the wake queue and the
//! timer driver that program the hardware comparator, the nested
//! critical-section guard, the classification of trap causes, and the
//! write-once cells used at boot.  The machine state they act on (the
//! core-local timer block and the interrupt-enable bits) is modelled by
//! plain data types; the memory-mapped accesses themselves live with the
//! platform code that embeds this crate.

pub mod clint;
pub mod critical;
pub mod gpio;
pub mod queue;
pub mod simple_once;
pub mod static_cell;
pub mod time_driver;
pub mod trap;
