//! A time-stamp-counter based timer for micro benchmarking.
//!
//! The timer measures how many reference cycles of the processor's hardware
//! cycle counter elapse while a closure runs, and subtracts the cost that is
//! intrinsic to the measurement itself. The cycle counts are "reference
//! cycles", not CPU clock cycles, and no conversion to wall-clock time is
//! offered: that conversion cannot be done reliably from user space.
//!
//! Measurements are only meaningful on processors whose counter runs at a
//! fixed rate; [`has_invariant_tsc`] reports whether the processor advertises
//! such an invariant counter.

mod probe;
mod timer;

pub use probe::decide_invariant_tsc;
pub use probe::has_invariant_tsc;
pub use probe::invariant_tsc_advertised;
pub use timer::Duration;
pub use timer::Start;
pub use timer::Stop;
pub use timer::lemma_ordered_pair_nonnegative;
